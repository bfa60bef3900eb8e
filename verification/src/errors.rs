//! Error classification: the engine's three failure idioms mapped to one
//! structured error type.
//!
//! The native engine reports failure inconsistently: some entry points
//! return a boolean together with an error out-parameter, some return a
//! bare zero/non-zero integer, and some signal absence with a null pointer.
//! Every boundary-crossing operation commits ahead of time to exactly one
//! of these idioms; the functions here turn each idiom into a typed value.

use vstd::prelude::*;
use vstd::utf8::{decode_utf8, valid_utf8};

verus! {

/// Details of a text-decoding failure: the length of a prefix of the raw
/// bytes that was still valid text.
#[derive(Clone, Copy, Debug, PartialEq, Eq, Structural)]
pub struct Utf8ErrorDetails {
    pub valid_up_to: usize,
}

/// The kinds of errors one might encounter when using the library.
#[derive(Clone, Debug, PartialEq, Eq)]
pub enum Rexiv2Error {
    /// No value found: the requested data is absent. This is a valid empty
    /// result, not a failure of use.
    NoValue,
    /// Bytes handed over by the engine are not valid text.
    Utf8(Utf8ErrorDetails),
    /// The engine rejected the operation; the message is present only when
    /// the engine supplied one.
    Internal(Option<String>),
}

/// Mathematical view of an error value, with text as character sequences.
pub enum ErrorView {
    NoValue,
    Utf8 { valid_up_to: int },
    Internal { message: Option<Seq<char>> },
}

impl View for Rexiv2Error {
    type V = ErrorView;

    open spec fn view(&self) -> ErrorView {
        match self {
            Rexiv2Error::NoValue => ErrorView::NoValue,
            Rexiv2Error::Utf8(d) => ErrorView::Utf8 { valid_up_to: d.valid_up_to as int },
            Rexiv2Error::Internal(m) => ErrorView::Internal {
                message: match m {
                    Some(s) => Some(s@),
                    None => None,
                },
            },
        }
    }
}

/// Model of the engine's error report object: a numeric error domain and
/// code, and an optional message captured as the bytes of a native string.
#[derive(Clone, Debug, PartialEq, Eq)]
pub struct GError {
    pub domain: u32,
    pub code: i32,
    pub message: Option<Vec<u8>>,
}

/// The error that the boolean-with-error-out-parameter idiom yields on
/// failure: the report's message is decoded if it is present and is valid
/// text; otherwise the error carries no message.
pub open spec fn spec_classify_failure(err: Option<GError>) -> ErrorView {
    match err {
        None => ErrorView::Internal { message: None },
        Some(g) => match g.message {
            None => ErrorView::Internal { message: None },
            Some(bytes) => if valid_utf8(bytes@) {
                ErrorView::Internal { message: Some(decode_utf8(bytes@)) }
            } else {
                ErrorView::Internal { message: None }
            },
        },
    }
}

/// Classify a failure reported through the boolean-with-error-out-parameter
/// idiom, given the error report the engine left in the out-parameter (or
/// nothing, if it left the out-parameter null).
pub fn classify_failure(err: Option<GError>) -> (r: Rexiv2Error)
    ensures
        r@ == spec_classify_failure(err),
{
    match err {
        None => Rexiv2Error::Internal(None),
        Some(g) => match g.message {
            None => Rexiv2Error::Internal(None),
            Some(bytes) => match crate::marshal::string_from_utf8(bytes) {
                Ok(s) => Rexiv2Error::Internal(Some(s)),
                Err(_) => Rexiv2Error::Internal(None),
            },
        },
    }
}

/// Classify the engine's plain success/failure integer: zero is the failure
/// sentinel, and this idiom never carries a message.
pub fn int_bool_to_result(success: i32) -> (r: Result<(), Rexiv2Error>)
    ensures
        success == 0 ==> (r matches Err(e) && e@ == (ErrorView::Internal { message: None })),
        success != 0 ==> r is Ok,
{
    match success {
        0 => Err(Rexiv2Error::Internal(None)),
        _ => Ok(()),
    }
}

/// Interpret one of the engine's boolean replies. The engine's true value
/// is exactly one.
pub fn native_bool(value: i32) -> (r: bool)
    ensures
        r == (value == 1),
{
    value == 1
}

} // verus!
