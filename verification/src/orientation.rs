//! Image orientation: the closed set of codes the engine uses for the
//! orientation tag, and the conversion to and from the native code.

use vstd::prelude::*;

verus! {

/// All the possible orientations for an image.
#[derive(Clone, Copy, Debug, PartialEq, Eq, Hash, Structural)]
pub enum Orientation {
    Unspecified,
    Normal,
    HorizontalFlip,
    Rotate180,
    VerticalFlip,
    Rotate90HorizontalFlip,
    Rotate90,
    Rotate90VerticalFlip,
    Rotate270,
}

/// The native code of an orientation.
pub open spec fn spec_orientation_code(o: Orientation) -> i32 {
    match o {
        Orientation::Unspecified => 0,
        Orientation::Normal => 1,
        Orientation::HorizontalFlip => 2,
        Orientation::Rotate180 => 3,
        Orientation::VerticalFlip => 4,
        Orientation::Rotate90HorizontalFlip => 5,
        Orientation::Rotate90 => 6,
        Orientation::Rotate90VerticalFlip => 7,
        Orientation::Rotate270 => 8,
    }
}

/// The orientation named by a native code; any code outside the closed set
/// is unspecified.
pub open spec fn spec_orientation_of_code(code: i32) -> Orientation {
    if code == 1 {
        Orientation::Normal
    } else if code == 2 {
        Orientation::HorizontalFlip
    } else if code == 3 {
        Orientation::Rotate180
    } else if code == 4 {
        Orientation::VerticalFlip
    } else if code == 5 {
        Orientation::Rotate90HorizontalFlip
    } else if code == 6 {
        Orientation::Rotate90
    } else if code == 7 {
        Orientation::Rotate90VerticalFlip
    } else if code == 8 {
        Orientation::Rotate270
    } else {
        Orientation::Unspecified
    }
}

/// The native code to hand the engine when setting the orientation.
pub fn orientation_to_native(o: Orientation) -> (r: i32)
    ensures
        r == spec_orientation_code(o),
{
    match o {
        Orientation::Unspecified => 0,
        Orientation::Normal => 1,
        Orientation::HorizontalFlip => 2,
        Orientation::Rotate180 => 3,
        Orientation::VerticalFlip => 4,
        Orientation::Rotate90HorizontalFlip => 5,
        Orientation::Rotate90 => 6,
        Orientation::Rotate90VerticalFlip => 7,
        Orientation::Rotate270 => 8,
    }
}

/// Decision half of the orientation getter: classify the engine's code.
pub fn orientation_from_native(code: i32) -> (r: Orientation)
    ensures
        r == spec_orientation_of_code(code),
{
    if code == 1 {
        Orientation::Normal
    } else if code == 2 {
        Orientation::HorizontalFlip
    } else if code == 3 {
        Orientation::Rotate180
    } else if code == 4 {
        Orientation::VerticalFlip
    } else if code == 5 {
        Orientation::Rotate90HorizontalFlip
    } else if code == 6 {
        Orientation::Rotate90
    } else if code == 7 {
        Orientation::Rotate90VerticalFlip
    } else if code == 8 {
        Orientation::Rotate270
    } else {
        Orientation::Unspecified
    }
}

/// Law: an orientation sent to the engine and read back is unchanged.
pub proof fn lemma_orientation_round_trip(o: Orientation)
    ensures
        spec_orientation_of_code(spec_orientation_code(o)) == o,
{
}

} // verus!
