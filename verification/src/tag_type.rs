//! The closed vocabulary of tag value types, and the decision halves of the
//! engine's static tag-dictionary queries.
//!
//! The dictionary itself lives inside the engine; the queries here take the
//! engine's reply — a nullable native string — and turn it into a typed
//! value: a null reply means the tag is unknown, and the type-name strings
//! map to a closed enumeration with `Unknown` as the escape hatch.

use vstd::prelude::*;
use vstd::utf8::{decode_utf8, valid_utf8};

use crate::errors::Rexiv2Error;
use crate::marshal::{decode_c_string, str_eq, string_reply_decoded, utf8_failure_for};

verus! {

/// The possible data types that a tag can have.
#[derive(Clone, Copy, Debug, PartialEq, Eq, Hash, Structural)]
pub enum TagType {
    /// Exif BYTE type, 8-bit unsigned integer.
    UnsignedByte,
    /// Exif ASCII type, 8-bit byte.
    AsciiString,
    /// Exif SHORT type, 16-bit (2-byte) unsigned integer.
    UnsignedShort,
    /// Exif LONG type, 32-bit (4-byte) unsigned integer.
    UnsignedLong,
    /// Exif RATIONAL type, two LONGs: numerator and denominator of a fraction.
    UnsignedRational,
    /// Exif SBYTE type, an 8-bit signed (twos-complement) integer.
    SignedByte,
    /// Exif UNDEFINED type, an 8-bit byte that may contain anything.
    Undefined,
    /// Exif SSHORT type, a 16-bit (2-byte) signed (twos-complement) integer.
    SignedShort,
    /// Exif SLONG type, a 32-bit (4-byte) signed (twos-complement) integer.
    SignedLong,
    /// Exif SRATIONAL type, two SLONGs: numerator and denominator of a fraction.
    SignedRational,
    /// TIFF FLOAT type, single precision (4-byte) IEEE format.
    TiffFloat,
    /// TIFF DOUBLE type, double precision (8-byte) IEEE format.
    TiffDouble,
    /// TIFF IFD type, 32-bit (4-byte) unsigned integer.
    TiffIfd,
    /// IPTC string type.
    String,
    /// IPTC date type.
    Date,
    /// IPTC time type.
    Time,
    /// Type for the Exif user comment.
    Comment,
    /// Type for a CIFF directory.
    Directory,
    /// XMP text type.
    XmpText,
    /// XMP alternative type.
    XmpAlt,
    /// XMP bag type.
    XmpBag,
    /// XMP sequence type.
    XmpSeq,
    /// XMP language alternative type.
    LangAlt,
    /// Invalid type.
    Invalid,
    /// Unknown type.
    Unknown,
}

/// The tag type named by one of the engine's type-name strings; any name
/// outside the closed vocabulary is `Unknown`.
pub open spec fn spec_tag_type_of_label(s: Seq<char>) -> TagType {
    if s == "Byte"@ {
        TagType::UnsignedByte
    } else if s == "Ascii"@ {
        TagType::AsciiString
    } else if s == "Short"@ {
        TagType::UnsignedShort
    } else if s == "Long"@ {
        TagType::UnsignedLong
    } else if s == "Rational"@ {
        TagType::UnsignedRational
    } else if s == "SByte"@ {
        TagType::SignedByte
    } else if s == "Undefined"@ {
        TagType::Undefined
    } else if s == "SShort"@ {
        TagType::SignedShort
    } else if s == "SLong"@ {
        TagType::SignedLong
    } else if s == "SRational"@ {
        TagType::SignedRational
    } else if s == "Float"@ {
        TagType::TiffFloat
    } else if s == "Double"@ {
        TagType::TiffDouble
    } else if s == "Ifd"@ {
        TagType::TiffIfd
    } else if s == "String"@ {
        TagType::String
    } else if s == "Date"@ {
        TagType::Date
    } else if s == "Time"@ {
        TagType::Time
    } else if s == "Comment"@ {
        TagType::Comment
    } else if s == "Directory"@ {
        TagType::Directory
    } else if s == "XmpText"@ {
        TagType::XmpText
    } else if s == "XmpAlt"@ {
        TagType::XmpAlt
    } else if s == "XmpBag"@ {
        TagType::XmpBag
    } else if s == "XmpSeq"@ {
        TagType::XmpSeq
    } else if s == "LangAlt"@ {
        TagType::LangAlt
    } else if s == "Invalid"@ {
        TagType::Invalid
    } else {
        TagType::Unknown
    }
}

/// Classify one of the engine's type-name strings.
pub fn tag_type_of_label(label: &str) -> (r: TagType)
    ensures
        r == spec_tag_type_of_label(label@),
{
    if str_eq(label, "Byte") {
        TagType::UnsignedByte
    } else if str_eq(label, "Ascii") {
        TagType::AsciiString
    } else if str_eq(label, "Short") {
        TagType::UnsignedShort
    } else if str_eq(label, "Long") {
        TagType::UnsignedLong
    } else if str_eq(label, "Rational") {
        TagType::UnsignedRational
    } else if str_eq(label, "SByte") {
        TagType::SignedByte
    } else if str_eq(label, "Undefined") {
        TagType::Undefined
    } else if str_eq(label, "SShort") {
        TagType::SignedShort
    } else if str_eq(label, "SLong") {
        TagType::SignedLong
    } else if str_eq(label, "SRational") {
        TagType::SignedRational
    } else if str_eq(label, "Float") {
        TagType::TiffFloat
    } else if str_eq(label, "Double") {
        TagType::TiffDouble
    } else if str_eq(label, "Ifd") {
        TagType::TiffIfd
    } else if str_eq(label, "String") {
        TagType::String
    } else if str_eq(label, "Date") {
        TagType::Date
    } else if str_eq(label, "Time") {
        TagType::Time
    } else if str_eq(label, "Comment") {
        TagType::Comment
    } else if str_eq(label, "Directory") {
        TagType::Directory
    } else if str_eq(label, "XmpText") {
        TagType::XmpText
    } else if str_eq(label, "XmpAlt") {
        TagType::XmpAlt
    } else if str_eq(label, "XmpBag") {
        TagType::XmpBag
    } else if str_eq(label, "XmpSeq") {
        TagType::XmpSeq
    } else if str_eq(label, "LangAlt") {
        TagType::LangAlt
    } else if str_eq(label, "Invalid") {
        TagType::Invalid
    } else {
        TagType::Unknown
    }
}

/// Decision half of the tag-type dictionary query: the engine replies with
/// a nullable type-name string. A null reply means the tag is unknown to
/// the dictionary; a name outside the closed vocabulary still classifies,
/// as `Unknown`. The reply is owned by the engine's static table: nothing
/// is freed.
pub fn get_tag_type(reply: Option<Vec<u8>>) -> (r: Result<TagType, Rexiv2Error>)
    ensures
        reply is None ==> (r matches Err(e) && e@ is NoValue),
        reply matches Some(bytes) ==> {
            &&& valid_utf8(bytes@) ==> (r matches Ok(t) && t == spec_tag_type_of_label(
                decode_utf8(bytes@),
            ))
            &&& !valid_utf8(bytes@) ==> (r matches Err(e) && utf8_failure_for(bytes@, e@))
        },
{
    match decode_c_string(reply) {
        Ok(s) => Ok(tag_type_of_label(s.as_str())),
        Err(e) => Err(e),
    }
}

/// Decision half of the tag-label dictionary query: a null reply means the
/// tag is unknown. The returned string is owned by the engine's static
/// table: nothing is freed, unlike the tag-value string getters.
pub fn get_tag_label(reply: Option<Vec<u8>>) -> (r: Result<String, Rexiv2Error>)
    ensures
        string_reply_decoded(reply, r),
{
    decode_c_string(reply)
}

/// Decision half of the tag-description dictionary query: a null reply
/// means the tag is unknown. The returned string is owned by the engine's
/// static table: nothing is freed.
pub fn get_tag_description(reply: Option<Vec<u8>>) -> (r: Result<String, Rexiv2Error>)
    ensures
        string_reply_decoded(reply, r),
{
    decode_c_string(reply)
}

} // verus!
