//! What holds of every [`Error`], proved from the contracts of its methods.

use crate::error::Error;
use crate::payload::{fmt_error_text, parse_error_text, regex_error_text, yaml_error_has_cause};
use chrono::format::ParseError;
use regex::Error as RegexError;
use serde_json::Error as JsonError;
use serde_yaml::Error as YamlError;
use vstd::prelude::*;
use vstd::std_specs::convert::FromSpec;
use vstd::string::to_string_from_display_ensures;

verus! {

/// A description is the tag of the error's category followed by the
/// payload's own text: it starts with the tag, whatever the payload says,
/// and what follows the tag is the payload's text with nothing added,
/// changed or cut.
pub proof fn description_is_tag_then_message(error: Error, text: Seq<char>)
    requires
        error.described_by(text),
    ensures
        error.tag().len() <= text.len(),
        text.subrange(0, error.tag().len() as int) == error.tag(),
        error.says(text.subrange(error.tag().len() as int, text.len() as int)),
{
    let message = choose|message: Seq<char>| #[trigger]
        error.says(message) && text == error.tag() + message;
    assert(text.subrange(0, error.tag().len() as int) =~= error.tag());
    assert(text.subrange(error.tag().len() as int, text.len() as int) =~= message);
}

/// A message that fits the payload, put behind the category's tag, describes
/// the error.
pub proof fn tagged_message_describes(error: Error, message: Seq<char>)
    requires
        error.says(message),
    ensures
        error.described_by(error.tag() + message),
{
}

/// A formatting, pattern or timestamp failure has one description only:
/// describing it twice gives the same text.
pub proof fn description_is_unique(error: Error, first: Seq<char>, second: Seq<char>)
    requires
        error.has_fixed_text(),
        error.described_by(first),
        error.described_by(second),
    ensures
        first == second,
{
}

/// Wrapping a formatting failure loses nothing. The result is of the
/// formatting category and holds that failure; its description is the
/// formatting tag followed by the failure's own text; it has no nested cause.
pub proof fn fmt_conversion_is_lossless(
    err: core::fmt::Error,
    text: Seq<char>,
    cause: Option<String>,
)
    ensures
        <Error as FromSpec<core::fmt::Error>>::obeys_from_spec(),
        <Error as FromSpec<core::fmt::Error>>::from_spec(err) == Error::Fmt(err),
        Error::Fmt(err).described_by(text) <==> text == "formatting error: "@ + fmt_error_text(
            err,
        ),
        Error::Fmt(err).admits_cause(cause) <==> cause is None,
{
    let error = Error::Fmt(err);
    assert(error.says(fmt_error_text(err)));
}

/// Wrapping a pattern failure loses nothing. The result is of the pattern
/// category and holds that failure; its description is the regex tag followed
/// by the failure's own text; it has no nested cause.
pub proof fn regex_conversion_is_lossless(err: RegexError, text: Seq<char>, cause: Option<String>)
    ensures
        <Error as FromSpec<RegexError>>::obeys_from_spec(),
        <Error as FromSpec<RegexError>>::from_spec(err) == Error::RegEx(err),
        Error::RegEx(err).described_by(text) <==> text == "regex error: "@ + regex_error_text(err),
        Error::RegEx(err).admits_cause(cause) <==> cause is None,
{
    let error = Error::RegEx(err);
    assert(error.says(regex_error_text(err)));
}

/// Wrapping a timestamp failure loses nothing. The result is of the
/// timestamp category and holds that failure; its description is the chrono
/// tag followed by the failure's own text; it has no nested cause.
pub proof fn chrono_conversion_is_lossless(err: ParseError, text: Seq<char>, cause: Option<String>)
    ensures
        <Error as FromSpec<ParseError>>::obeys_from_spec(),
        <Error as FromSpec<ParseError>>::from_spec(err) == Error::Chrono(err),
        Error::Chrono(err).described_by(text) <==> text == "chrono parse error: "@
            + parse_error_text(err),
        Error::Chrono(err).admits_cause(cause) <==> cause is None,
{
    let error = Error::Chrono(err);
    assert(error.says(parse_error_text(err)));
}

/// Wrapping a JSON failure loses nothing. The result is of the JSON category
/// and holds that failure; a text describes it exactly when it is the JSON
/// tag followed by a text that `to_string` gives for the failure.
pub proof fn json_conversion_is_lossless(err: JsonError, text: Seq<char>)
    ensures
        <Error as FromSpec<JsonError>>::obeys_from_spec(),
        <Error as FromSpec<JsonError>>::from_spec(err) == Error::Json(err),
        Error::Json(err).described_by(text) <==> exists|given: String| #[trigger]
            to_string_from_display_ensures::<JsonError>(&err, given) && text
                == "json conversion error: "@ + given@,
{
    let error = Error::Json(err);
    if error.described_by(text) {
        let message = choose|message: Seq<char>| #[trigger]
            error.says(message) && text == error.tag() + message;
        let given = choose|given: String| #[trigger]
            to_string_from_display_ensures::<JsonError>(&err, given) && given@ == message;
        assert(to_string_from_display_ensures::<JsonError>(&err, given) && text
            == "json conversion error: "@ + given@);
    }
    if exists|given: String| #[trigger]
        to_string_from_display_ensures::<JsonError>(&err, given) && text
            == "json conversion error: "@ + given@ {
        let given = choose|given: String| #[trigger]
            to_string_from_display_ensures::<JsonError>(&err, given) && text
                == "json conversion error: "@ + given@;
        assert(to_string_from_display_ensures::<JsonError>(&error->Json_0, given));
        assert(error.says(given@));
    }
}

/// Wrapping a YAML failure loses nothing. The result is of the YAML category
/// and holds that failure; a text describes it exactly when it is the YAML
/// tag followed by a text that `to_string` gives for the failure; it has a
/// nested cause exactly when the failure has one.
pub proof fn yaml_conversion_is_lossless(err: YamlError, text: Seq<char>, cause: Option<String>)
    ensures
        <Error as FromSpec<YamlError>>::obeys_from_spec(),
        <Error as FromSpec<YamlError>>::from_spec(err) == Error::Yaml(err),
        Error::Yaml(err).described_by(text) <==> exists|given: String| #[trigger]
            to_string_from_display_ensures::<YamlError>(&err, given) && text
                == "yaml conversion error: "@ + given@,
        Error::Yaml(err).admits_cause(cause) <==> (cause is Some <==> yaml_error_has_cause(err)),
{
    let error = Error::Yaml(err);
    if error.described_by(text) {
        let message = choose|message: Seq<char>| #[trigger]
            error.says(message) && text == error.tag() + message;
        let given = choose|given: String| #[trigger]
            to_string_from_display_ensures::<YamlError>(&err, given) && given@ == message;
        assert(to_string_from_display_ensures::<YamlError>(&err, given) && text
            == "yaml conversion error: "@ + given@);
    }
    if exists|given: String| #[trigger]
        to_string_from_display_ensures::<YamlError>(&err, given) && text
            == "yaml conversion error: "@ + given@ {
        let given = choose|given: String| #[trigger]
            to_string_from_display_ensures::<YamlError>(&err, given) && text
                == "yaml conversion error: "@ + given@;
        assert(to_string_from_display_ensures::<YamlError>(&error->Yaml_0, given));
        assert(error.says(given@));
    }
}

} // verus!
