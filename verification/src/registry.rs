//! The process-wide XMP namespace table, modeled as explicit state.
//!
//! The engine keeps one namespace table per process, with no handle and no
//! synchronization of its own: registering a URI that is already present is
//! an error, as is unregistering one that is absent. The table is modeled
//! here as an explicit value so that the registration protocol is stated
//! and proved; the unsafe shell mirrors each transition with the matching
//! native call, which reports success through the plain integer sentinel.

use vstd::prelude::*;

use crate::errors::{ErrorView, Rexiv2Error};
use crate::marshal::str_eq;

verus! {

/// One registered namespace: its URI name and its tag prefix.
#[derive(Clone, Debug, PartialEq, Eq)]
pub struct NamespaceEntry {
    pub name: String,
    pub prefix: String,
}

/// Model of the engine's process-wide XMP namespace table.
#[derive(Debug, PartialEq, Eq)]
pub struct XmpNamespaceRegistry {
    entries: Vec<NamespaceEntry>,
}

impl XmpNamespaceRegistry {
    /// Whether a namespace with this URI name is registered.
    pub closed spec fn registered(self, name: Seq<char>) -> bool {
        exists|i: int|
            0 <= i < self.entries@.len() && (#[trigger] self.entries@[i]).name@ == name
    }

    /// Well-formed: no URI name is registered twice.
    pub closed spec fn wf(self) -> bool {
        forall|i: int, j: int|
            0 <= i < j < self.entries@.len() ==> (#[trigger] self.entries@[i]).name@ != (
            #[trigger] self.entries@[j]).name@
    }

    /// A fresh table with nothing registered.
    pub fn new() -> (r: XmpNamespaceRegistry)
        ensures
            r.wf(),
            forall|n: Seq<char>| !r.registered(n),
    {
        XmpNamespaceRegistry { entries: Vec::new() }
    }

    /// The index of the entry carrying this URI name, if any.
    fn find(&self, name: &str) -> (r: Option<usize>)
        ensures
            r matches Some(i) ==> i < self.entries@.len() && self.entries@[i as int].name@
                == name@,
            r is None ==> !self.registered(name@),
    {
        let mut i: usize = 0;
        while i < self.entries.len()
            invariant
                i <= self.entries@.len(),
                forall|j: int| 0 <= j < i ==> (#[trigger] self.entries@[j]).name@ != name@,
            decreases self.entries@.len() - i,
        {
            if str_eq(self.entries[i].name.as_str(), name) {
                return Some(i);
            }
            i += 1;
        }
        None
    }

    /// Add a new XMP namespace for tags to exist under. It is an error to
    /// register a duplicate URI: the engine rejects it with no message and
    /// the table is unchanged. On success exactly this URI becomes
    /// registered.
    pub fn register_xmp_namespace(&mut self, name: &str, prefix: &str) -> (r: Result<
        (),
        Rexiv2Error,
    >)
        requires
            old(self).wf(),
        ensures
            final(self).wf(),
            old(self).registered(name@) ==> (r matches Err(e) && e@ == (ErrorView::Internal {
                message: None,
            })),
            !old(self).registered(name@) ==> r is Ok,
            final(self).registered(name@),
            forall|n: Seq<char>|
                n != name@ ==> final(self).registered(n) == old(self).registered(n),
    {
        match self.find(name) {
            Some(_) => Err(Rexiv2Error::Internal(None)),
            None => {
                let entry = NamespaceEntry { name: name.to_owned(), prefix: prefix.to_owned() };
                self.entries.push(entry);
                proof {
                    let n = self.entries@.len() - 1;
                    assert(self.entries@[n].name@ == name@);
                    assert forall|m: Seq<char>| m != name@ implies final(self).registered(m)
                        == old(self).registered(m) by {
                        if old(self).registered(m) {
                            let i = choose|i: int|
                                0 <= i < old(self).entries@.len() && (#[trigger] old(
                                    self,
                                ).entries@[i]).name@ == m;
                            assert(self.entries@[i].name@ == m);
                        }
                        if final(self).registered(m) {
                            let i = choose|i: int|
                                0 <= i < self.entries@.len() && (#[trigger] self.entries@[i]).name@
                                    == m;
                            assert(i < n);
                            assert(old(self).entries@[i].name@ == m);
                        }
                    }
                }
                Ok(())
            },
        }
    }

    /// Remove an XMP namespace from the set of known ones. It is an error
    /// to unregister a URI that is not registered: the engine rejects it
    /// with no message and the table is unchanged. On success exactly this
    /// URI stops being registered.
    pub fn unregister_xmp_namespace(&mut self, name: &str) -> (r: Result<(), Rexiv2Error>)
        requires
            old(self).wf(),
        ensures
            final(self).wf(),
            old(self).registered(name@) ==> r is Ok,
            !old(self).registered(name@) ==> (r matches Err(e) && e@ == (ErrorView::Internal {
                message: None,
            })),
            !final(self).registered(name@),
            forall|n: Seq<char>|
                n != name@ ==> final(self).registered(n) == old(self).registered(n),
    {
        match self.find(name) {
            None => Err(Rexiv2Error::Internal(None)),
            Some(i) => {
                self.entries.remove(i);
                proof {
                    let removed = i as int;
                    let old_entries = old(self).entries@;
                    assert(self.entries@ =~= old_entries.remove(removed));
                    assert forall|j: int|
                        0 <= j < self.entries@.len() implies #[trigger] self.entries@[j] == (
                    if j < removed {
                        old_entries[j]
                    } else {
                        old_entries[j + 1]
                    }) by {}
                    assert forall|m: Seq<char>| m != name@ implies final(self).registered(m)
                        == old(self).registered(m) by {
                        if old(self).registered(m) {
                            let k = choose|k: int|
                                0 <= k < old_entries.len() && (#[trigger] old_entries[k]).name@
                                    == m;
                            if k < removed {
                                assert(self.entries@[k].name@ == m);
                            } else {
                                assert(k != removed);
                                assert(self.entries@[k - 1].name@ == m);
                            }
                        }
                    }
                    assert forall|k: int|
                        0 <= k < self.entries@.len() implies (#[trigger] self.entries@[k]).name@
                        != name@ by {
                        if k < removed {
                            assert(old_entries[k].name@ != old_entries[removed].name@);
                        } else {
                            assert(old_entries[k + 1].name@ != old_entries[removed].name@);
                        }
                    }
                }
                Ok(())
            },
        }
    }

    /// Forget all known XMP namespaces.
    pub fn unregister_all_xmp_namespaces(&mut self)
        ensures
            final(self).wf(),
            forall|n: Seq<char>| !final(self).registered(n),
    {
        self.entries = Vec::new();
    }
}

} // verus!
