//! The closed-with-escape-hatch classification of Internet media types.
//!
//! A media type round-trips losslessly to and from its string form: the
//! recognized types map to their canonical strings, and any unrecognized
//! string is preserved verbatim in the `Other` variant, so writing a
//! classification back out always yields the very string that was read.

use vstd::prelude::*;

use crate::marshal::str_eq;

verus! {

/// The media types that an image might have.
#[derive(Clone, Debug, Eq, PartialEq, Hash)]
pub enum MediaType {
    /// image/x-ms-bmp
    Bmp,
    /// image/x-canon-cr2
    CanonCr2,
    /// image/x-canon-crw
    CanonCrw,
    /// application/postscript
    Eps,
    /// image/x-fuji-raf
    FujiRaf,
    /// image/gif
    Gif,
    /// image/jp2
    Jp2,
    /// image/jpeg
    Jpeg,
    /// image/x-minolta-mrw
    MinoltaMrw,
    /// image/x-olympus-orf
    OlympusOrf,
    /// image/png
    Png,
    /// image/x-photoshop
    Psd,
    /// image/x-panasonic-rw2
    PanasonicRw2,
    /// image/targa
    Tga,
    /// image/tiff
    Tiff,
    /// Some other, unrecognized, media type, contained within.
    Other(String),
}

/// Mathematical view of a media type: the unrecognized payload as a
/// character sequence.
pub enum MediaTypeView {
    Bmp,
    CanonCr2,
    CanonCrw,
    Eps,
    FujiRaf,
    Gif,
    Jp2,
    Jpeg,
    MinoltaMrw,
    OlympusOrf,
    Png,
    Psd,
    PanasonicRw2,
    Tga,
    Tiff,
    Other(Seq<char>),
}

impl View for MediaType {
    type V = MediaTypeView;

    open spec fn view(&self) -> MediaTypeView {
        match self {
            MediaType::Bmp => MediaTypeView::Bmp,
            MediaType::CanonCr2 => MediaTypeView::CanonCr2,
            MediaType::CanonCrw => MediaTypeView::CanonCrw,
            MediaType::Eps => MediaTypeView::Eps,
            MediaType::FujiRaf => MediaTypeView::FujiRaf,
            MediaType::Gif => MediaTypeView::Gif,
            MediaType::Jp2 => MediaTypeView::Jp2,
            MediaType::Jpeg => MediaTypeView::Jpeg,
            MediaType::MinoltaMrw => MediaTypeView::MinoltaMrw,
            MediaType::OlympusOrf => MediaTypeView::OlympusOrf,
            MediaType::Png => MediaTypeView::Png,
            MediaType::Psd => MediaTypeView::Psd,
            MediaType::PanasonicRw2 => MediaTypeView::PanasonicRw2,
            MediaType::Tga => MediaTypeView::Tga,
            MediaType::Tiff => MediaTypeView::Tiff,
            MediaType::Other(s) => MediaTypeView::Other(s@),
        }
    }
}

/// The canonical media-type string of a classified value; an unrecognized
/// value keeps its own string.
pub open spec fn spec_media_type_name(t: MediaTypeView) -> Seq<char> {
    match t {
        MediaTypeView::Bmp => "image/x-ms-bmp"@,
        MediaTypeView::CanonCr2 => "image/x-canon-cr2"@,
        MediaTypeView::CanonCrw => "image/x-canon-crw"@,
        MediaTypeView::Eps => "application/postscript"@,
        MediaTypeView::FujiRaf => "image/x-fuji-raf"@,
        MediaTypeView::Gif => "image/gif"@,
        MediaTypeView::Jp2 => "image/jp2"@,
        MediaTypeView::Jpeg => "image/jpeg"@,
        MediaTypeView::MinoltaMrw => "image/x-minolta-mrw"@,
        MediaTypeView::OlympusOrf => "image/x-olympus-orf"@,
        MediaTypeView::Png => "image/png"@,
        MediaTypeView::Psd => "image/x-photoshop"@,
        MediaTypeView::PanasonicRw2 => "image/x-panasonic-rw2"@,
        MediaTypeView::Tga => "image/targa"@,
        MediaTypeView::Tiff => "image/tiff"@,
        MediaTypeView::Other(s) => s,
    }
}

/// The classification of a media-type string: one of the recognized
/// canonical strings, or the string itself preserved verbatim.
pub open spec fn spec_media_type_of_name(s: Seq<char>) -> MediaTypeView {
    if s == "image/x-ms-bmp"@ {
        MediaTypeView::Bmp
    } else if s == "image/x-canon-cr2"@ {
        MediaTypeView::CanonCr2
    } else if s == "image/x-canon-crw"@ {
        MediaTypeView::CanonCrw
    } else if s == "application/postscript"@ {
        MediaTypeView::Eps
    } else if s == "image/x-fuji-raf"@ {
        MediaTypeView::FujiRaf
    } else if s == "image/gif"@ {
        MediaTypeView::Gif
    } else if s == "image/jp2"@ {
        MediaTypeView::Jp2
    } else if s == "image/jpeg"@ {
        MediaTypeView::Jpeg
    } else if s == "image/x-minolta-mrw"@ {
        MediaTypeView::MinoltaMrw
    } else if s == "image/x-olympus-orf"@ {
        MediaTypeView::OlympusOrf
    } else if s == "image/png"@ {
        MediaTypeView::Png
    } else if s == "image/x-photoshop"@ {
        MediaTypeView::Psd
    } else if s == "image/x-panasonic-rw2"@ {
        MediaTypeView::PanasonicRw2
    } else if s == "image/targa"@ {
        MediaTypeView::Tga
    } else if s == "image/tiff"@ {
        MediaTypeView::Tiff
    } else {
        MediaTypeView::Other(s)
    }
}

impl MediaType {
    /// Classify a media-type string. Every recognized canonical string maps
    /// to its variant; any other string is preserved verbatim.
    pub fn from_name(name: &str) -> (r: MediaType)
        ensures
            r@ == spec_media_type_of_name(name@),
    {
        if str_eq(name, "image/x-ms-bmp") {
            MediaType::Bmp
        } else if str_eq(name, "image/x-canon-cr2") {
            MediaType::CanonCr2
        } else if str_eq(name, "image/x-canon-crw") {
            MediaType::CanonCrw
        } else if str_eq(name, "application/postscript") {
            MediaType::Eps
        } else if str_eq(name, "image/x-fuji-raf") {
            MediaType::FujiRaf
        } else if str_eq(name, "image/gif") {
            MediaType::Gif
        } else if str_eq(name, "image/jp2") {
            MediaType::Jp2
        } else if str_eq(name, "image/jpeg") {
            MediaType::Jpeg
        } else if str_eq(name, "image/x-minolta-mrw") {
            MediaType::MinoltaMrw
        } else if str_eq(name, "image/x-olympus-orf") {
            MediaType::OlympusOrf
        } else if str_eq(name, "image/png") {
            MediaType::Png
        } else if str_eq(name, "image/x-photoshop") {
            MediaType::Psd
        } else if str_eq(name, "image/x-panasonic-rw2") {
            MediaType::PanasonicRw2
        } else if str_eq(name, "image/targa") {
            MediaType::Tga
        } else if str_eq(name, "image/tiff") {
            MediaType::Tiff
        } else {
            MediaType::Other(name.to_owned())
        }
    }

    /// Write a classification back out as its media-type string.
    pub fn to_name(&self) -> (r: String)
        ensures
            r@ == spec_media_type_name(self@),
    {
        match self {
            MediaType::Bmp => "image/x-ms-bmp".to_owned(),
            MediaType::CanonCr2 => "image/x-canon-cr2".to_owned(),
            MediaType::CanonCrw => "image/x-canon-crw".to_owned(),
            MediaType::Eps => "application/postscript".to_owned(),
            MediaType::FujiRaf => "image/x-fuji-raf".to_owned(),
            MediaType::Gif => "image/gif".to_owned(),
            MediaType::Jp2 => "image/jp2".to_owned(),
            MediaType::Jpeg => "image/jpeg".to_owned(),
            MediaType::MinoltaMrw => "image/x-minolta-mrw".to_owned(),
            MediaType::OlympusOrf => "image/x-olympus-orf".to_owned(),
            MediaType::Png => "image/png".to_owned(),
            MediaType::Psd => "image/x-photoshop".to_owned(),
            MediaType::PanasonicRw2 => "image/x-panasonic-rw2".to_owned(),
            MediaType::Tga => "image/targa".to_owned(),
            MediaType::Tiff => "image/tiff".to_owned(),
            MediaType::Other(s) => s.clone(),
        }
    }
}

/// Law: classifying any media-type string and writing the classification
/// back out yields exactly the original string — for recognized canonical
/// strings and for arbitrary unrecognized strings alike.
pub proof fn lemma_media_type_name_round_trip(s: Seq<char>)
    ensures
        spec_media_type_name(spec_media_type_of_name(s)) == s,
{
}

/// Law: the recognized vocabulary is classified faithfully — writing any
/// recognized value out and classifying its canonical string again yields
/// the very same value, because the fifteen canonical strings are pairwise
/// distinct.
pub proof fn lemma_media_type_classification_faithful(t: MediaTypeView)
    requires
        !(t is Other),
    ensures
        spec_media_type_of_name(spec_media_type_name(t)) == t,
{
    reveal_strlit("image/x-ms-bmp");
    reveal_strlit("image/x-canon-cr2");
    reveal_strlit("image/x-canon-crw");
    reveal_strlit("application/postscript");
    reveal_strlit("image/x-fuji-raf");
    reveal_strlit("image/gif");
    reveal_strlit("image/jp2");
    reveal_strlit("image/jpeg");
    reveal_strlit("image/x-minolta-mrw");
    reveal_strlit("image/x-olympus-orf");
    reveal_strlit("image/png");
    reveal_strlit("image/x-photoshop");
    reveal_strlit("image/x-panasonic-rw2");
    reveal_strlit("image/targa");
    reveal_strlit("image/tiff");
    assert(("image/x-ms-bmp"@).len() == 14);
    assert(("image/x-canon-cr2"@).len() == 17);
    assert(("image/x-canon-crw"@).len() == 17);
    assert(("application/postscript"@).len() == 22);
    assert(("image/x-fuji-raf"@).len() == 16);
    assert(("image/gif"@).len() == 9);
    assert(("image/jp2"@).len() == 9);
    assert(("image/jpeg"@).len() == 10);
    assert(("image/x-minolta-mrw"@).len() == 19);
    assert(("image/x-olympus-orf"@).len() == 19);
    assert(("image/png"@).len() == 9);
    assert(("image/x-photoshop"@).len() == 17);
    assert(("image/x-panasonic-rw2"@).len() == 21);
    assert(("image/targa"@).len() == 11);
    assert(("image/tiff"@).len() == 10);
    assert("image/x-canon-crw"@ != "image/x-canon-cr2"@) by {
        assert(("image/x-canon-crw"@)[16] == 'w');
        assert(("image/x-canon-cr2"@)[16] == '2');
    }
    assert("image/x-photoshop"@ != "image/x-canon-cr2"@) by {
        assert(("image/x-photoshop"@)[8] == 'p');
        assert(("image/x-canon-cr2"@)[8] == 'c');
    }
    assert("image/x-photoshop"@ != "image/x-canon-crw"@) by {
        assert(("image/x-photoshop"@)[8] == 'p');
        assert(("image/x-canon-crw"@)[8] == 'c');
    }
    assert("image/jp2"@ != "image/gif"@) by {
        assert(("image/jp2"@)[6] == 'j');
        assert(("image/gif"@)[6] == 'g');
    }
    assert("image/png"@ != "image/gif"@) by {
        assert(("image/png"@)[6] == 'p');
        assert(("image/gif"@)[6] == 'g');
    }
    assert("image/png"@ != "image/jp2"@) by {
        assert(("image/png"@)[6] == 'p');
        assert(("image/jp2"@)[6] == 'j');
    }
    assert("image/tiff"@ != "image/jpeg"@) by {
        assert(("image/tiff"@)[6] == 't');
        assert(("image/jpeg"@)[6] == 'j');
    }
    assert("image/x-olympus-orf"@ != "image/x-minolta-mrw"@) by {
        assert(("image/x-olympus-orf"@)[8] == 'o');
        assert(("image/x-minolta-mrw"@)[8] == 'm');
    }
}

} // verus!
