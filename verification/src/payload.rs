//! The failures that an [`Error`](crate::Error) can carry, as Verus sees them.
//!
//! Each payload type belongs to another crate and is opaque here. What the
//! verified code needs from a payload is its own text and the text of its
//! nested cause; the functions of this module fetch them, and their contracts
//! are believed, not proved.

use chrono::format::ParseError;
use regex::Error as RegexError;
use serde_json::Error as JsonError;
use serde_yaml::Error as YamlError;
use vstd::prelude::*;

verus! {

/// `core::fmt::Error`: the failure of a formatting step. It holds no data.
#[verifier::external_type_specification]
#[verifier::external_body]
pub struct ExFmtError(core::fmt::Error);

/// `regex::Error`: why a pattern did not compile.
#[verifier::external_type_specification]
#[verifier::external_body]
pub struct ExRegexError(RegexError);

/// `chrono::format::ParseError`: why a timestamp did not parse.
#[verifier::external_type_specification]
#[verifier::external_body]
pub struct ExParseError(ParseError);

/// `serde_json::Error`: the failure of a JSON conversion.
#[verifier::external_type_specification]
#[verifier::external_body]
pub struct ExJsonError(JsonError);

/// `serde_yaml::Error`: the failure of a YAML conversion.
#[verifier::external_type_specification]
#[verifier::external_body]
pub struct ExYamlError(YamlError);

/// The text that `core::fmt::Error` displays.
pub uninterp spec fn fmt_error_text(err: core::fmt::Error) -> Seq<char>;

/// The text that a `regex::Error` displays.
pub uninterp spec fn regex_error_text(err: RegexError) -> Seq<char>;

/// The text that a `chrono::format::ParseError` displays.
pub uninterp spec fn parse_error_text(err: ParseError) -> Seq<char>;

/// Calls `Display` of `core::fmt::Error` through `to_string`. The type is a
/// unit struct, so the text is the same on every call; the contract gives it
/// the name [`fmt_error_text`] and claims nothing of what it says.
#[verifier::external_body]
pub(crate) fn fmt_error_message(err: &core::fmt::Error) -> (message: String)
    ensures
        message@ == fmt_error_text(*err),
{
    err.to_string()
}

/// Calls `Display` of `regex::Error` through `to_string`. That impl writes
/// the stored syntax message, or a fixed sentence around the stored size
/// limit: the text depends on the value alone, and the contract gives it the
/// name [`regex_error_text`].
#[verifier::external_body]
pub(crate) fn regex_error_message(err: &RegexError) -> (message: String)
    ensures
        message@ == regex_error_text(*err),
{
    err.to_string()
}

/// Calls `Display` of `chrono::format::ParseError` through `to_string`. That
/// impl writes one fixed sentence for each kind of parse failure: the text
/// depends on the value alone, and the contract gives it the name
/// [`parse_error_text`]. The impl has no sentence for the hidden kind that
/// keeps the enum open; chrono makes no error of that kind, and the field
/// that holds the kind is private, so no value reaches that arm.
#[verifier::external_body]
pub(crate) fn parse_error_message(err: &ParseError) -> (message: String)
    ensures
        message@ == parse_error_text(*err),
{
    err.to_string()
}

/// Calls `source` of `core::fmt::Error` and renders what it finds. The type
/// keeps the `source` that std's `Error` trait provides, which names no
/// lower-level error: the contract claims that the result is `None`.
#[verifier::external_body]
pub(crate) fn fmt_error_cause(err: &core::fmt::Error) -> (cause: Option<String>)
    ensures
        cause is None,
{
    std::error::Error::source(err).map(ToString::to_string)
}

/// Calls `source` of `regex::Error` and renders what it finds. The crate's
/// impl of std's `Error` trait defines `description` only and keeps the
/// provided `source`, which names no lower-level error: the contract claims
/// that the result is `None`.
#[verifier::external_body]
pub(crate) fn regex_error_cause(err: &RegexError) -> (cause: Option<String>)
    ensures
        cause is None,
{
    std::error::Error::source(err).map(ToString::to_string)
}

/// Calls `source` of `chrono::format::ParseError` and renders what it finds.
/// The crate's impl of std's `Error` trait defines `description` only and
/// keeps the provided `source`, which names no lower-level error: the
/// contract claims that the result is `None`.
#[verifier::external_body]
pub(crate) fn parse_error_cause(err: &ParseError) -> (cause: Option<String>)
    ensures
        cause is None,
{
    std::error::Error::source(err).map(ToString::to_string)
}

/// Calls `source` of `serde_json::Error` and renders what it finds. For a
/// failure that wraps an I/O error the crate hands on that error's own
/// source, which may be of any type; nothing is claimed of the result.
#[verifier::external_body]
pub(crate) fn json_error_cause(err: &JsonError) -> (cause: Option<String>) {
    std::error::Error::source(err).map(ToString::to_string)
}

/// Whether `source` of a `serde_yaml::Error` gives an error. The crate
/// decides it by the kind of failure alone: a failure that wraps a scanner,
/// I/O or UTF-8 error gives that error, a shared failure answers as the one
/// it shares, and every other kind gives none.
pub uninterp spec fn yaml_error_has_cause(err: YamlError) -> bool;

/// Calls `source` of `serde_yaml::Error` and renders what it finds. Whether
/// there is a cause depends on the value alone, and the contract gives that
/// the name [`yaml_error_has_cause`]. The cause may be an I/O error, which
/// may display anything; nothing is claimed of the text.
#[verifier::external_body]
pub(crate) fn yaml_error_cause(err: &YamlError) -> (cause: Option<String>)
    ensures
        cause is Some <==> yaml_error_has_cause(*err),
{
    std::error::Error::source(err).map(ToString::to_string)
}

} // verus!
