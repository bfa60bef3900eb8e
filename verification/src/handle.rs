//! The metadata handle: lifecycle protocol and the decision halves of the
//! tag and image accessors.
//!
//! A handle stands for exclusive ownership of one native metadata context
//! and moves through three states: a context is allocated (`Uninitialized`),
//! a load is attempted — on failure the context must still be freed before
//! the error is surfaced, on success the handle is `Open` — and a release
//! transition ends its life (`Released`), after which no operation may be
//! issued. Every accessor here is the decision half of one engine call: it
//! takes the engine's raw reply as plain values, is valid only on an open
//! handle, and pins down exactly what the caller sees for every reply.

use vstd::prelude::*;
use vstd::utf8::{decode_utf8, valid_utf8};

use crate::errors::{classify_failure, spec_classify_failure, GError, Rexiv2Error};
use crate::marshal::{
    all_entries_valid, decode_c_string, decode_error_at_first_invalid, decode_string_array,
    decoded_entries_match, string_reply_decoded, utf8_failure_for,
};
use crate::media_type::{spec_media_type_of_name, MediaType};
use crate::orientation::{orientation_from_native, spec_orientation_of_code, Orientation};
use crate::rational::{rational_from_reply, Rational};

verus! {

/// The lifecycle states of a metadata handle.
#[derive(Clone, Copy, Debug, PartialEq, Eq, Structural)]
pub enum HandleState {
    /// A native context is allocated but nothing is loaded into it yet.
    Uninitialized,
    /// A file, buffer or segment is loaded; operations are permitted.
    Open,
    /// The native context is given back; no operation may be issued.
    Released,
}

/// What must happen to the allocated native context after a load attempt.
#[derive(Clone, Copy, Debug, PartialEq, Eq, Structural)]
pub enum ContextAction {
    /// The load succeeded: the context lives on inside the open handle.
    KeepContext,
    /// The load failed: the context must be freed now, before the error is
    /// surfaced, so nothing leaks on the failure path.
    FreeContext,
}

/// A container for a media file's metadata: the model of exclusive
/// ownership of one live native context.
#[derive(Debug, PartialEq, Eq)]
pub struct Metadata {
    state: HandleState,
}

impl Metadata {
    /// The point this handle has reached in its lifecycle.
    pub closed spec fn state(self) -> HandleState {
        self.state
    }

    /// Whether operations may be issued on this handle.
    pub open spec fn spec_is_open(&self) -> bool {
        self.state() is Open
    }

    /// Whether operations may be issued on this handle.
    #[verifier::when_used_as_spec(spec_is_open)]
    pub fn is_open(&self) -> (r: bool)
        ensures
            r == self.spec_is_open(),
    {
        matches!(self.state, HandleState::Open)
    }

    /// The point this handle has reached in its lifecycle.
    pub fn current_state(&self) -> (r: HandleState)
        ensures
            r == self.state(),
    {
        self.state
    }

    /// Allocation half of opening: stands for a freshly allocated native
    /// context into which nothing has been loaded yet.
    pub fn begin_open() -> (m: Metadata)
        ensures
            m.state() is Uninitialized,
    {
        Metadata { state: HandleState::Uninitialized }
    }

    /// Load half of opening, shared by the path, buffer and raw-segment
    /// constructors: the engine reported `load_ok` and possibly filled the
    /// error out-parameter. On success the handle opens and the context is
    /// kept; on failure the context must be freed — never kept — and the
    /// error report is classified into the surfaced error.
    pub fn finish_open(self, load_ok: i32, err: Option<GError>) -> (r: (
        ContextAction,
        Result<Metadata, Rexiv2Error>,
    ))
        requires
            self.state() is Uninitialized,
        ensures
            load_ok == 1 ==> ({
                &&& r.0 is KeepContext
                &&& r.1 matches Ok(m) && m.is_open()
            }),
            load_ok != 1 ==> ({
                &&& r.0 is FreeContext
                &&& r.1 matches Err(e) && e@ == spec_classify_failure(err)
            }),
    {
        if load_ok == 1 {
            (ContextAction::KeepContext, Ok(Metadata { state: HandleState::Open }))
        } else {
            (ContextAction::FreeContext, Err(classify_failure(err)))
        }
    }

    /// End this handle's life: after release no operation may be issued.
    /// Valid from `Open` or directly after an aborted open, and idempotent.
    pub fn release(&mut self)
        ensures
            final(self).state() is Released,
    {
        self.state = HandleState::Released;
    }

    /// Decision half of saving to a file: the engine reported `save_ok` and
    /// possibly filled the error out-parameter.
    pub fn save_to_file(&self, save_ok: i32, err: Option<GError>) -> (r: Result<
        (),
        Rexiv2Error,
    >)
        requires
            self.is_open(),
        ensures
            save_ok == 1 ==> r is Ok,
            save_ok != 1 ==> (r matches Err(e) && e@ == spec_classify_failure(err)),
    {
        if save_ok == 1 {
            Ok(())
        } else {
            Err(classify_failure(err))
        }
    }

    /// Decision half of replacing the Exif thumbnail from an image file:
    /// the same boolean-with-error-out-parameter idiom as saving, with the
    /// engine's report classified into the surfaced error.
    pub fn set_thumbnail_from_file(&self, ok: i32, err: Option<GError>) -> (r: Result<
        (),
        Rexiv2Error,
    >)
        requires
            self.is_open(),
        ensures
            ok == 1 ==> r is Ok,
            ok != 1 ==> (r matches Err(e) && e@ == spec_classify_failure(err)),
    {
        if ok == 1 {
            Ok(())
        } else {
            Err(classify_failure(err))
        }
    }

    /// Decision half of the media-type getter: the engine replies with a
    /// nullable string it keeps ownership of. A null reply means no value;
    /// a readable reply classifies into the media-type vocabulary, with
    /// unrecognized strings preserved verbatim.
    pub fn get_media_type(&self, reply: Option<Vec<u8>>) -> (r: Result<MediaType, Rexiv2Error>)
        requires
            self.is_open(),
        ensures
            reply is None ==> (r matches Err(e) && e@ is NoValue),
            reply matches Some(bytes) ==> {
                &&& valid_utf8(bytes@) ==> (r matches Ok(t) && t@ == spec_media_type_of_name(
                    decode_utf8(bytes@),
                ))
                &&& !valid_utf8(bytes@) ==> (r matches Err(e) && utf8_failure_for(bytes@, e@))
            },
    {
        match decode_c_string(reply) {
            Ok(s) => Ok(MediaType::from_name(s.as_str())),
            Err(e) => Err(e),
        }
    }

    /// Decision half of the string-tag getter: the engine replies with a
    /// nullable string that the caller owns and must free (one allocation).
    pub fn get_tag_string(&self, reply: Option<Vec<u8>>) -> (r: Result<String, Rexiv2Error>)
        requires
            self.is_open(),
        ensures
            string_reply_decoded(reply, r),
    {
        decode_c_string(reply)
    }

    /// Decision half of the display-formatted tag getter; the same reply
    /// shape and ownership as the plain string getter.
    pub fn get_tag_interpreted_string(&self, reply: Option<Vec<u8>>) -> (r: Result<
        String,
        Rexiv2Error,
    >)
        requires
            self.is_open(),
        ensures
            string_reply_decoded(reply, r),
    {
        decode_c_string(reply)
    }

    /// Decision half of the Exif tag listing: the entries of the engine's
    /// null-terminated name array, decoded all-or-nothing.
    pub fn get_exif_tags(&self, entries: Vec<Vec<u8>>) -> (r: Result<Vec<String>, Rexiv2Error>)
        requires
            self.is_open(),
        ensures
            r is Ok <==> all_entries_valid(entries@),
            r matches Ok(v) ==> decoded_entries_match(entries@, v@),
            r matches Err(e) ==> decode_error_at_first_invalid(entries@, e@),
    {
        decode_string_array(entries)
    }

    /// Decision half of the XMP tag listing; as for the Exif listing.
    pub fn get_xmp_tags(&self, entries: Vec<Vec<u8>>) -> (r: Result<Vec<String>, Rexiv2Error>)
        requires
            self.is_open(),
        ensures
            r is Ok <==> all_entries_valid(entries@),
            r matches Ok(v) ==> decoded_entries_match(entries@, v@),
            r matches Err(e) ==> decode_error_at_first_invalid(entries@, e@),
    {
        decode_string_array(entries)
    }

    /// Decision half of the IPTC tag listing; as for the Exif listing.
    pub fn get_iptc_tags(&self, entries: Vec<Vec<u8>>) -> (r: Result<Vec<String>, Rexiv2Error>)
        requires
            self.is_open(),
        ensures
            r is Ok <==> all_entries_valid(entries@),
            r matches Ok(v) ==> decoded_entries_match(entries@, v@),
            r matches Err(e) ==> decode_error_at_first_invalid(entries@, e@),
    {
        decode_string_array(entries)
    }

    /// Decision half of the multi-valued string getter: the engine replies
    /// with a nullable null-terminated array. A null reply means no value;
    /// otherwise the entries decode all-or-nothing.
    pub fn get_tag_multiple_strings(&self, reply: Option<Vec<Vec<u8>>>) -> (r: Result<
        Vec<String>,
        Rexiv2Error,
    >)
        requires
            self.is_open(),
        ensures
            reply is None ==> (r matches Err(e) && e@ is NoValue),
            reply matches Some(entries) ==> {
                &&& (r is Ok <==> all_entries_valid(entries@))
                &&& r matches Ok(v) ==> decoded_entries_match(entries@, v@)
                &&& r matches Err(e) ==> decode_error_at_first_invalid(entries@, e@)
            },
    {
        match reply {
            None => Err(Rexiv2Error::NoValue),
            Some(entries) => decode_string_array(entries),
        }
    }

    /// Decision half of the numeric getter: the engine replies with its
    /// wide long value, which is narrowed to the tag's 32-bit range exactly
    /// as the numeric setter widened it.
    pub fn get_tag_numeric(&self, reply: i64) -> (r: i32)
        requires
            self.is_open(),
        ensures
            r == reply as i32,
    {
        #[verifier::truncate] (reply as i32)
    }

    /// Decision half of the rational getter: a boolean sentinel plus two
    /// integer out-parameters. A zero sentinel means the value is absent;
    /// otherwise the pair is taken exactly as reported, never reduced.
    pub fn get_tag_rational(&self, found: i32, numer: i32, denom: i32) -> (r: Option<Rational>)
        requires
            self.is_open(),
        ensures
            found == 0 ==> r is None,
            found != 0 ==> r == Some(Rational { numer, denom }),
    {
        rational_from_reply(found, numer, denom)
    }

    /// Decision half of the exposure-time helper: the same sentinel and
    /// out-parameter shape as the rational getter, and the same exactness —
    /// the reported pair is never reduced.
    pub fn get_exposure_time(&self, found: i32, numer: i32, denom: i32) -> (r: Option<Rational>)
        requires
            self.is_open(),
        ensures
            found == 0 ==> r is None,
            found != 0 ==> r == Some(Rational { numer, denom }),
    {
        rational_from_reply(found, numer, denom)
    }

    /// Decision half of the ISO-speed helper: the engine reports absence
    /// with the zero sentinel. A tag whose stored value really is zero is
    /// therefore reported as absent — an ambiguity inherited from the
    /// engine, preserved rather than fixed.
    pub fn get_iso_speed(&self, reply: i32) -> (r: Option<i32>)
        requires
            self.is_open(),
        ensures
            reply == 0 ==> r is None,
            reply != 0 ==> r == Some(reply),
    {
        match reply {
            0 => None,
            speed => Some(speed),
        }
    }

    /// Decision half of the thumbnail getter: a boolean sentinel plus a
    /// length-tagged buffer. Absence is decided by the sentinel alone, so a
    /// present-but-empty thumbnail is still a value.
    pub fn get_thumbnail(&self, found: i32, data: Vec<u8>) -> (r: Option<Vec<u8>>)
        requires
            self.is_open(),
        ensures
            found == 0 ==> r is None,
            found != 0 ==> (r matches Some(d) && d@ == data@),
    {
        match found {
            0 => None,
            _ => Some(data),
        }
    }

    /// Decision half of the raw-value getter: the engine replies with a
    /// nullable length-tagged buffer owned by a wrapping byte object; the
    /// bytes are copied out and the object is released, so a null reply
    /// means no value and a present reply is handed over verbatim.
    pub fn get_tag_raw(&self, reply: Option<Vec<u8>>) -> (r: Result<Vec<u8>, Rexiv2Error>)
        requires
            self.is_open(),
        ensures
            reply is None ==> (r matches Err(e) && e@ is NoValue),
            reply matches Some(bytes) ==> (r matches Ok(d) && d@ == bytes@),
    {
        match reply {
            None => Err(Rexiv2Error::NoValue),
            Some(bytes) => Ok(bytes),
        }
    }

    /// Decision half of the GPS getter: a boolean sentinel plus the fix the
    /// engine left in its out-parameters. Absence is decided by the
    /// sentinel alone: a handle with no GPS tags yields nothing, never a
    /// fix of zeroes — and a genuine all-zero fix is still a value.
    pub fn get_gps_info<T>(&self, found: i32, fix: T) -> (r: Option<T>)
        requires
            self.is_open(),
        ensures
            found == 0 ==> r is None,
            found != 0 ==> (r matches Some(f) && f == fix),
    {
        match found {
            0 => None,
            _ => Some(fix),
        }
    }

    /// Decision half of the orientation getter: classify the engine's code.
    pub fn get_orientation(&self, reply: i32) -> (r: Orientation)
        requires
            self.is_open(),
        ensures
            r == spec_orientation_of_code(reply),
    {
        orientation_from_native(reply)
    }
}

} // verus!
