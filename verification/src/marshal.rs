//! String and array marshaling: owned text to and from the engine's raw
//! byte shapes.
//!
//! The engine hands text out as null-terminated byte strings and lists of
//! text as null-terminated arrays of string pointers; it takes text in the
//! same shapes. The unsafe shell copies each raw string into an owned byte
//! vector before anything else happens, so the functions here work on plain
//! values: they decode bytes into owned strings (classifying a null reply
//! as absence and undecodable bytes as a decode failure) and encode owned
//! strings into null-terminated byte vectors fit for one native call.

use vstd::prelude::*;
use vstd::string::StrSliceExecFns;
use vstd::utf8::{decode_utf8, encode_utf8, valid_utf8};

use crate::errors::{ErrorView, Rexiv2Error, Utf8ErrorDetails};

verus! {

/// Relies on `String::from_utf8`: it succeeds exactly on valid UTF-8 input
/// and returns the string decoding that input; on failure the reported
/// index marks a prefix of the input that is still valid UTF-8.
#[verifier::external_body]
pub(crate) fn string_from_utf8(bytes: Vec<u8>) -> (r: Result<String, usize>)
    ensures
        (match r {
            Ok(s) => valid_utf8(bytes@) && s@ == decode_utf8(bytes@),
            Err(v) => !valid_utf8(bytes@) && v <= bytes@.len() && valid_utf8(
                bytes@.take(v as int),
            ),
        }),
{
    match String::from_utf8(bytes) {
        Ok(s) => Ok(s),
        Err(e) => Err(e.utf8_error().valid_up_to()),
    }
}

/// Whether every entry of a walked native string array holds valid text.
pub open spec fn all_entries_valid(entries: Seq<Vec<u8>>) -> bool {
    forall|i: int| 0 <= i < entries.len() ==> valid_utf8(#[trigger] entries[i]@)
}

/// The index of the first entry that does not hold valid text (the length
/// of the sequence when every entry does).
pub open spec fn first_invalid_entry(entries: Seq<Vec<u8>>) -> int
    decreases entries.len(),
{
    if entries.len() == 0 {
        0
    } else if !valid_utf8(entries[0]@) {
        0
    } else {
        1 + first_invalid_entry(entries.drop_first())
    }
}

/// What decoding an optional native string reply must yield: absence for a
/// null reply, the decoded text for valid bytes, and a decode failure
/// (carrying the length of a valid prefix) for undecodable bytes.
pub open spec fn string_reply_decoded(reply: Option<Vec<u8>>, r: Result<String, Rexiv2Error>) -> bool {
    &&& reply is None ==> (r matches Err(e) && e@ is NoValue)
    &&& reply matches Some(bytes) ==> {
        &&& valid_utf8(bytes@) ==> (r matches Ok(s) && s@ == decode_utf8(bytes@))
        &&& !valid_utf8(bytes@) ==> (r matches Err(e) && e@ matches ErrorView::Utf8 {
            valid_up_to,
        } && valid_up_to <= bytes@.len() && valid_utf8(bytes@.take(valid_up_to)))
    }
}

/// What a decode failure on the given bytes must carry: the length of a
/// prefix that is still valid text.
pub open spec fn utf8_failure_for(bytes: Seq<u8>, e: ErrorView) -> bool {
    e matches ErrorView::Utf8 { valid_up_to } && valid_up_to <= bytes.len() && valid_utf8(
        bytes.take(valid_up_to),
    )
}

/// What a successful array decode must yield: one owned string per entry,
/// each the decoding of its entry.
pub open spec fn decoded_entries_match(entries: Seq<Vec<u8>>, v: Seq<String>) -> bool {
    &&& v.len() == entries.len()
    &&& forall|i: int| 0 <= i < entries.len() ==> (#[trigger] v[i])@ == decode_utf8(entries[i]@)
}

/// What a failed array decode must yield: a decode failure whose details
/// come from the first entry that is not valid text.
pub open spec fn decode_error_at_first_invalid(entries: Seq<Vec<u8>>, e: ErrorView) -> bool {
    let k = first_invalid_entry(entries);
    &&& 0 <= k < entries.len()
    &&& !valid_utf8(entries[k]@)
    &&& e matches ErrorView::Utf8 { valid_up_to } && valid_up_to <= entries[k]@.len()
        && valid_utf8(entries[k]@.take(valid_up_to))
}

/// Decode an optional native string reply. A null reply means the value is
/// absent; bytes that are not valid text are a decode failure carrying the
/// length of a valid prefix.
pub fn decode_c_string(reply: Option<Vec<u8>>) -> (r: Result<String, Rexiv2Error>)
    ensures
        string_reply_decoded(reply, r),
{
    match reply {
        None => Err(Rexiv2Error::NoValue),
        Some(bytes) => match string_from_utf8(bytes) {
            Ok(s) => Ok(s),
            Err(valid_up_to) => Err(Rexiv2Error::Utf8(Utf8ErrorDetails { valid_up_to })),
        },
    }
}

/// Decode every entry of a walked native string array, or fail on the first
/// entry that is not valid text. Success is all-or-nothing: on failure no
/// partial list is reachable, only the decode error.
pub fn decode_string_array(entries: Vec<Vec<u8>>) -> (r: Result<Vec<String>, Rexiv2Error>)
    ensures
        r is Ok <==> all_entries_valid(entries@),
        r matches Ok(v) ==> decoded_entries_match(entries@, v@),
        r matches Err(e) ==> decode_error_at_first_invalid(entries@, e@),
{
    let mut decoded: Vec<String> = Vec::new();
    let mut i: usize = 0;
    while i < entries.len()
        invariant
            0 <= i <= entries@.len(),
            decoded@.len() == i,
            forall|j: int| 0 <= j < i ==> valid_utf8(#[trigger] entries@[j]@),
            forall|j: int| 0 <= j < i ==> (#[trigger] decoded@[j])@ == decode_utf8(entries@[j]@),
        decreases entries@.len() - i,
    {
        let entry = entries[i].clone();
        match string_from_utf8(entry) {
            Ok(s) => {
                decoded.push(s);
            },
            Err(valid_up_to) => {
                proof {
                    lemma_first_invalid_entry(entries@, i as int);
                }
                return Err(Rexiv2Error::Utf8(Utf8ErrorDetails { valid_up_to }));
            },
        }
        i += 1;
    }
    Ok(decoded)
}

/// A prefix of valid entries followed by an invalid one pins down where the
/// first invalid entry sits.
proof fn lemma_first_invalid_entry(entries: Seq<Vec<u8>>, k: int)
    requires
        0 <= k < entries.len(),
        !valid_utf8(entries[k]@),
        forall|j: int| 0 <= j < k ==> valid_utf8(#[trigger] entries[j]@),
    ensures
        first_invalid_entry(entries) == k,
    decreases entries.len(),
{
    if k > 0 {
        assert(valid_utf8(entries[0]@));
        let rest = entries.drop_first();
        assert(rest[k - 1] == entries[k]);
        assert(forall|j: int| 0 <= j < k - 1 ==> #[trigger] rest[j] == entries[j + 1]);
        lemma_first_invalid_entry(rest, k - 1);
    }
}

/// Whether the byte encoding of a string contains a zero byte, making it
/// unfit to pass to the engine as a null-terminated string.
pub fn has_interior_nul(s: &str) -> (r: bool)
    ensures
        r == encode_utf8(s@).contains(0u8),
{
    let bytes = s.as_bytes_vec();
    let mut i: usize = 0;
    while i < bytes.len()
        invariant
            bytes@ == encode_utf8(s@),
            0 <= i <= bytes@.len(),
            forall|j: int| 0 <= j < i ==> bytes@[j] != 0u8,
        decreases bytes@.len() - i,
    {
        if bytes[i] == 0 {
            return true;
        }
        i += 1;
    }
    false
}

/// Encode an owned string as a null-terminated byte vector valid for the
/// duration of one native call. The string must hold no zero byte, since
/// the terminator is the engine's only end marker.
pub fn encode_c_string(s: &str) -> (r: Vec<u8>)
    requires
        !encode_utf8(s@).contains(0u8),
    ensures
        r@ == encode_utf8(s@).push(0u8),
{
    let mut bytes = s.as_bytes_vec();
    bytes.push(0);
    bytes
}

/// Encode a list of strings as null-terminated byte vectors, ready for the
/// engine's array-of-strings calls. No string may hold a zero byte.
pub fn encode_c_string_array(values: &Vec<&str>) -> (r: Vec<Vec<u8>>)
    requires
        forall|i: int| 0 <= i < values@.len() ==> !encode_utf8(
            (#[trigger] values@[i])@,
        ).contains(0u8),
    ensures
        r@.len() == values@.len(),
        forall|i: int| 0 <= i < values@.len() ==> (#[trigger] r@[i])@ == encode_utf8(
            values@[i]@,
        ).push(0u8),
{
    let mut out: Vec<Vec<u8>> = Vec::new();
    let mut i: usize = 0;
    while i < values.len()
        invariant
            forall|j: int| 0 <= j < values@.len() ==> !encode_utf8(
                (#[trigger] values@[j])@,
            ).contains(0u8),
            0 <= i <= values@.len(),
            out@.len() == i,
            forall|j: int| 0 <= j < i ==> (#[trigger] out@[j])@ == encode_utf8(
                values@[j]@,
            ).push(0u8),
        decreases values@.len() - i,
    {
        let encoded = encode_c_string(values[i]);
        out.push(encoded);
        i += 1;
    }
    out
}

/// Compare two string slices by their character sequences.
pub fn str_eq(a: &str, b: &str) -> (r: bool)
    ensures
        r == (a@ == b@),
{
    let owned_a = a.to_owned();
    let owned_b = b.to_owned();
    owned_a == owned_b
}

} // verus!
