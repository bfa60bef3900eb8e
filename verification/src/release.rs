//! Release strategies: which allocations the caller must give back, per
//! buffer-producing engine call.
//!
//! The engine hands memory out under three different ownership conventions,
//! and nothing at the call marks which applies: it must be inferred from
//! the entry point. Picking the wrong convention double-frees or leaks, so
//! each buffer-producing call is pinned here, ahead of time, to one
//! explicit strategy, and the cleanup plan for a buffer is computed rather
//! than improvised — the same complete plan on the success and the failure
//! path.

use vstd::prelude::*;

verus! {

/// How a block of memory handed out by the engine is given back.
#[derive(Clone, Copy, Debug, PartialEq, Eq, Structural)]
pub enum ReleaseStrategy {
    /// The engine (or an object of its) keeps ownership: the caller frees
    /// nothing.
    EngineOwned,
    /// One allocation owned by the caller: exactly one free of the returned
    /// pointer, after copying.
    SingleAllocation,
    /// A null-terminated array whose spine and every element are owned by
    /// the caller: every element is freed, then the spine.
    SpineAndElements,
}

/// The buffer-producing engine calls, each committed to one release
/// strategy at its call site.
#[derive(Clone, Copy, Debug, PartialEq, Eq, Structural)]
pub enum BufferSource {
    /// The media-type string: a static string the engine owns.
    MimeType,
    /// A string-tag value: one allocation the caller frees.
    TagString,
    /// A display-formatted tag value: one allocation the caller frees.
    TagInterpretedString,
    /// A per-domain tag-name listing: the caller frees spine and elements.
    TagNameArray,
    /// A multi-valued tag read: the caller frees spine and elements.
    TagMultiple,
    /// A tag label from the static dictionary: the engine owns it.
    TagLabel,
    /// A tag description from the static dictionary: the engine owns it.
    TagDescription,
    /// A tag type name from the static dictionary: the engine owns it.
    TagTypeName,
    /// The preview-properties array: owned by the parent handle.
    PreviewPropertiesArray,
    /// Preview pixel data: owned by the transient image object, which is
    /// released as a whole instead.
    PreviewData,
    /// A raw tag value: owned by a wrapping byte object, which is released
    /// as a whole instead.
    RawTagBytes,
    /// The thumbnail buffer: one allocation of its own, freed exactly once,
    /// independent of the parent handle's lifecycle.
    ThumbnailBuffer,
}

/// The release strategy each buffer-producing call is committed to.
pub open spec fn spec_strategy_of(source: BufferSource) -> ReleaseStrategy {
    match source {
        BufferSource::MimeType => ReleaseStrategy::EngineOwned,
        BufferSource::TagString => ReleaseStrategy::SingleAllocation,
        BufferSource::TagInterpretedString => ReleaseStrategy::SingleAllocation,
        BufferSource::TagNameArray => ReleaseStrategy::SpineAndElements,
        BufferSource::TagMultiple => ReleaseStrategy::SpineAndElements,
        BufferSource::TagLabel => ReleaseStrategy::EngineOwned,
        BufferSource::TagDescription => ReleaseStrategy::EngineOwned,
        BufferSource::TagTypeName => ReleaseStrategy::EngineOwned,
        BufferSource::PreviewPropertiesArray => ReleaseStrategy::EngineOwned,
        BufferSource::PreviewData => ReleaseStrategy::EngineOwned,
        BufferSource::RawTagBytes => ReleaseStrategy::EngineOwned,
        BufferSource::ThumbnailBuffer => ReleaseStrategy::SingleAllocation,
    }
}

/// Look up the strategy a buffer-producing call is committed to. The
/// commitment is per entry point and never inferred from the data.
pub fn strategy_for(source: BufferSource) -> (r: ReleaseStrategy)
    ensures
        r == spec_strategy_of(source),
{
    match source {
        BufferSource::MimeType => ReleaseStrategy::EngineOwned,
        BufferSource::TagString => ReleaseStrategy::SingleAllocation,
        BufferSource::TagInterpretedString => ReleaseStrategy::SingleAllocation,
        BufferSource::TagNameArray => ReleaseStrategy::SpineAndElements,
        BufferSource::TagMultiple => ReleaseStrategy::SpineAndElements,
        BufferSource::TagLabel => ReleaseStrategy::EngineOwned,
        BufferSource::TagDescription => ReleaseStrategy::EngineOwned,
        BufferSource::TagTypeName => ReleaseStrategy::EngineOwned,
        BufferSource::PreviewPropertiesArray => ReleaseStrategy::EngineOwned,
        BufferSource::PreviewData => ReleaseStrategy::EngineOwned,
        BufferSource::RawTagBytes => ReleaseStrategy::EngineOwned,
        BufferSource::ThumbnailBuffer => ReleaseStrategy::SingleAllocation,
    }
}

/// One step of a cleanup plan.
#[derive(Clone, Copy, Debug, PartialEq, Eq, Structural)]
pub enum FreeStep {
    /// Free the array element at this index.
    Element(usize),
    /// Free the array spine itself.
    Spine,
    /// Free the single returned allocation.
    Single,
}

/// The complete cleanup plan for a buffer released under the given
/// strategy; `count` is the number of array elements (zero for non-array
/// shapes). The plan is the same whether the decode succeeded or failed
/// partway: everything the engine allocated is walked and freed, so the
/// failure path leaks nothing.
pub fn free_steps(strategy: ReleaseStrategy, count: usize) -> (r: Vec<FreeStep>)
    requires
        count < usize::MAX,
    ensures
        strategy is EngineOwned ==> r@ == Seq::<FreeStep>::empty(),
        strategy is SingleAllocation ==> r@ =~= seq![FreeStep::Single],
        strategy is SpineAndElements ==> {
            &&& r@.len() == count + 1
            &&& forall|i: int| 0 <= i < count ==> r@[i] == FreeStep::Element(i as usize)
            &&& r@[count as int] == FreeStep::Spine
        },
{
    match strategy {
        ReleaseStrategy::EngineOwned => Vec::new(),
        ReleaseStrategy::SingleAllocation => {
            let mut plan: Vec<FreeStep> = Vec::new();
            plan.push(FreeStep::Single);
            plan
        },
        ReleaseStrategy::SpineAndElements => {
            let mut plan: Vec<FreeStep> = Vec::new();
            let mut i: usize = 0;
            while i < count
                invariant
                    count < usize::MAX,
                    0 <= i <= count,
                    plan@.len() == i,
                    forall|j: int| 0 <= j < i ==> plan@[j] == FreeStep::Element(j as usize),
                decreases count - i,
            {
                plan.push(FreeStep::Element(i));
                i += 1;
            }
            plan.push(FreeStep::Spine);
            plan
        },
    }
}

/// Whether some step of the plan frees the array element at index `k`.
pub open spec fn plan_frees_element(plan: Seq<FreeStep>, k: usize) -> bool {
    exists|i: int| 0 <= i < plan.len() && plan[i] == FreeStep::Element(k)
}

/// Law: the cleanup plan under the spine-and-elements strategy is complete
/// and minimal — every one of the `count` elements is freed, no step is
/// repeated (so nothing is freed twice), the spine is freed exactly once
/// and last, and nothing else is touched. A decode that fails partway
/// through an array therefore leaves no allocation behind and double-frees
/// nothing.
pub proof fn lemma_free_plan_complete(plan: Seq<FreeStep>, count: usize)
    requires
        plan.len() == count + 1,
        forall|i: int| 0 <= i < count ==> plan[i] == FreeStep::Element(i as usize),
        plan[count as int] == FreeStep::Spine,
    ensures
        forall|k: usize| k < count ==> #[trigger] plan_frees_element(plan, k),
        forall|i: int, j: int| 0 <= i < j < plan.len() ==> plan[i] != plan[j],
        forall|i: int| 0 <= i < plan.len() ==> ((#[trigger] plan[i]) is Spine <==> i == count),
        forall|i: int| 0 <= i < plan.len() ==> !(plan[i] is Single),
{
    assert forall|k: usize| k < count implies #[trigger] plan_frees_element(plan, k) by {
        assert(plan[k as int] == FreeStep::Element(k));
    }
    assert forall|i: int, j: int| 0 <= i < j < plan.len() implies plan[i] != plan[j] by {
        if j < count {
            assert(plan[i] == FreeStep::Element(i as usize));
            assert(plan[j] == FreeStep::Element(j as usize));
        } else {
            assert(plan[i] == FreeStep::Element(i as usize));
            assert(plan[j] == FreeStep::Spine);
        }
    }
}

} // verus!
