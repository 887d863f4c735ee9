//! The aggregate error type: one category for each source of failure.

use crate::payload::{
    fmt_error_cause, fmt_error_message, fmt_error_text, json_error_cause, parse_error_cause,
    parse_error_message, parse_error_text, regex_error_cause, regex_error_message,
    regex_error_text, yaml_error_cause, yaml_error_has_cause,
};
use chrono::format::ParseError;
use regex::Error as RegexError;
use serde_json::Error as JsonError;
use serde_yaml::Error as YamlError;
use vstd::prelude::*;
use vstd::std_specs::convert::FromSpecImpl;
use vstd::string::to_string_from_display_ensures;

verus! {

/// The failure of one step of rendering a template.
///
/// A value holds exactly one payload: the error of the step that failed, as
/// the crate that reported it made it. The set of categories may grow, so a
/// `match` on it needs a wildcard arm.
#[non_exhaustive]
#[derive(Debug)]
pub enum Error {
    /// formatting error
    Fmt(core::fmt::Error),
    /// a pattern that did not compile
    RegEx(RegexError),
    /// a timestamp that did not parse
    Chrono(ParseError),
    /// json conversion error
    Json(JsonError),
    /// yaml conversion error
    Yaml(YamlError),
}

/// What a step of rendering gives: its value, or the [`Error`] that stopped it.
pub type Result<I> = core::result::Result<I, Error>;

/// An error may be handed to another thread, shared between threads and
/// kept for any length of time: no payload borrows anything. The impl below
/// compiles only as long as that holds of every category.
trait Shareable: Send + Sync + 'static {}

impl Shareable for Error {}

impl Error {
    /// The text that names the category, up to and including the space
    /// after the colon. A description starts with it.
    pub open spec fn tag(&self) -> Seq<char> {
        match self {
            Error::Fmt(_) => "formatting error: "@,
            Error::RegEx(_) => "regex error: "@,
            Error::Chrono(_) => "chrono parse error: "@,
            Error::Json(_) => "json conversion error: "@,
            Error::Yaml(_) => "yaml conversion error: "@,
        }
    }

    /// Whether `message` is the payload's own text.
    ///
    /// The text of a formatting, pattern or timestamp failure depends on the
    /// payload alone, so exactly one message fits. A JSON or YAML failure may
    /// wrap an I/O error, whose text the machine or a type of the caller
    /// decides: for those the message is whatever `to_string` gives for the
    /// payload, in the relation by which vstd specifies that call.
    pub open spec fn says(&self, message: Seq<char>) -> bool {
        match self {
            Error::Fmt(err) => message == fmt_error_text(*err),
            Error::RegEx(err) => message == regex_error_text(*err),
            Error::Chrono(err) => message == parse_error_text(*err),
            Error::Json(err) => exists|given: String| #[trigger]
                to_string_from_display_ensures::<JsonError>(err, given) && given@ == message,
            Error::Yaml(err) => exists|given: String| #[trigger]
                to_string_from_display_ensures::<YamlError>(err, given) && given@ == message,
        }
    }

    /// Whether `text` describes this error: the category's tag, then the
    /// payload's own text, and nothing else.
    pub open spec fn described_by(&self, text: Seq<char>) -> bool {
        exists|message: Seq<char>| #[trigger] self.says(message) && text == self.tag() + message
    }

    /// Whether the payload's text depends on the payload alone.
    pub open spec fn has_fixed_text(&self) -> bool {
        self is Fmt || self is RegEx || self is Chrono
    }

    /// Whether `cause` may be the text of the payload's nested cause.
    ///
    /// The payload of a formatting, pattern or timestamp failure never has a
    /// nested cause. A YAML failure has one exactly when its payload does,
    /// which the kind of failure decides. For a JSON failure the I/O error
    /// that the payload may wrap decides, and every answer is admitted.
    pub open spec fn admits_cause(&self, cause: Option<String>) -> bool {
        match self {
            Error::Fmt(_) | Error::RegEx(_) | Error::Chrono(_) => cause is None,
            Error::Json(_) => true,
            Error::Yaml(err) => cause is Some <==> yaml_error_has_cause(*err),
        }
    }

    /// The category's tag: see [`Error::tag`].
    pub fn prefix(&self) -> (tag: &'static str)
        ensures
            tag@ == self.tag(),
    {
        match self {
            Error::Fmt(_) => "formatting error: ",
            Error::RegEx(_) => "regex error: ",
            Error::Chrono(_) => "chrono parse error: ",
            Error::Json(_) => "json conversion error: ",
            Error::Yaml(_) => "yaml conversion error: ",
        }
    }

    /// Puts the category's tag in front of `message`, which is taken as it
    /// is: nothing is escaped and nothing is cut.
    pub fn tagged(&self, message: &str) -> (text: String)
        ensures
            text@ == self.tag() + message@,
    {
        let mut text = String::from_str(self.prefix());
        text.append(message);
        text
    }

    /// The payload's own text, as its `Display` impl writes it.
    pub fn message(&self) -> (message: String)
        ensures
            self.says(message@),
    {
        match self {
            Error::Fmt(err) => fmt_error_message(err),
            Error::RegEx(err) => regex_error_message(err),
            Error::Chrono(err) => parse_error_message(err),
            Error::Json(err) => err.to_string(),
            Error::Yaml(err) => err.to_string(),
        }
    }

    /// The error as one line of text: the category's tag followed by the
    /// payload's own text.
    pub fn describe(&self) -> (text: String)
        ensures
            self.described_by(text@),
    {
        let message = self.message();
        self.tagged(message.as_str())
    }

    /// The text of the payload's own nested cause, if it has one.
    ///
    /// This looks one level below the payload: the payload itself is never
    /// the cause.
    pub fn cause(&self) -> (cause: Option<String>)
        ensures
            self.admits_cause(cause),
    {
        match self {
            Error::Fmt(err) => fmt_error_cause(err),
            Error::RegEx(err) => regex_error_cause(err),
            Error::Chrono(err) => parse_error_cause(err),
            Error::Json(err) => json_error_cause(err),
            Error::Yaml(err) => yaml_error_cause(err),
        }
    }
}

impl From<core::fmt::Error> for Error {
    fn from(err: core::fmt::Error) -> (error: Error) {
        Error::Fmt(err)
    }
}

impl FromSpecImpl<core::fmt::Error> for Error {
    open spec fn obeys_from_spec() -> bool {
        true
    }

    open spec fn from_spec(err: core::fmt::Error) -> Error {
        Error::Fmt(err)
    }
}

impl From<RegexError> for Error {
    fn from(err: RegexError) -> (error: Error) {
        Error::RegEx(err)
    }
}

impl FromSpecImpl<RegexError> for Error {
    open spec fn obeys_from_spec() -> bool {
        true
    }

    open spec fn from_spec(err: RegexError) -> Error {
        Error::RegEx(err)
    }
}

impl From<ParseError> for Error {
    fn from(err: ParseError) -> (error: Error) {
        Error::Chrono(err)
    }
}

impl FromSpecImpl<ParseError> for Error {
    open spec fn obeys_from_spec() -> bool {
        true
    }

    open spec fn from_spec(err: ParseError) -> Error {
        Error::Chrono(err)
    }
}

impl From<JsonError> for Error {
    fn from(err: JsonError) -> (error: Error) {
        Error::Json(err)
    }
}

impl FromSpecImpl<JsonError> for Error {
    open spec fn obeys_from_spec() -> bool {
        true
    }

    open spec fn from_spec(err: JsonError) -> Error {
        Error::Json(err)
    }
}

impl From<YamlError> for Error {
    fn from(err: YamlError) -> (error: Error) {
        Error::Yaml(err)
    }
}

impl FromSpecImpl<YamlError> for Error {
    open spec fn obeys_from_spec() -> bool {
        true
    }

    open spec fn from_spec(err: YamlError) -> Error {
        Error::Yaml(err)
    }
}

} // verus!
