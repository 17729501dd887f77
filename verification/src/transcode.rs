//! From the text of a TOML document to the bytes of compact JSON.
//!
//! The grammar of TOML, the shape of JSON and the walk from one to the other
//! belong to the crates `toml`, `serde_json` and `serde_transcode`. What is
//! decided here is the order of the steps and which failure each of them ends
//! in.

use crate::failure::{Failure, FailureModel};
use vstd::prelude::*;

verus! {

/// The capacity, in bytes, of the buffer through which the output is written:
/// large enough that an ordinary document leaves in a single write.
pub const OUTPUT_BUFFER_CAPACITY: usize = 262144;

/// `toml::de::Deserializer`, a parsed document; nothing is known of its inside.
#[verifier::external_type_specification]
#[verifier::external_body]
pub struct ExDeserializer<'i>(toml::de::Deserializer<'i>);

/// `toml::de::Error`, the parser's error; nothing is known of its inside.
#[verifier::external_type_specification]
#[verifier::external_body]
pub struct ExTomlError(toml::de::Error);

/// `serde_json::Error`, the serializer's error; nothing is known of its
/// inside.
#[verifier::external_type_specification]
#[verifier::external_body]
pub struct ExJsonError(serde_json::Error);

/// What `toml::de::Deserializer::parse` finds wrong with a text: nothing,
/// where the text is a TOML document, and else the parser's diagnostic.
pub uninterp spec fn toml_rejection(input: Seq<char>) -> Option<Seq<char>>;

/// The text that `toml::de::Deserializer::parse` read a document from, and
/// which the document keeps hold of.
pub uninterp spec fn document_source(document: toml::de::Deserializer<'_>) -> Seq<char>;

/// The text that the `Display` impl of `toml::de::Error` writes for an error.
pub uninterp spec fn toml_diagnostic(error: toml::de::Error) -> Seq<char>;

/// What `serde_transcode::transcode` makes of the document that a text
/// parses to, on its way into a compact JSON serializer: the bytes written,
/// or the text of the error that stopped it.
pub uninterp spec fn json_rendering(input: Seq<char>) -> Result<Seq<u8>, Seq<char>>;

/// The text that the `Display` impl of `serde_json::Error` writes for an
/// error.
pub uninterp spec fn json_diagnostic(error: serde_json::Error) -> Seq<char>;

/// Parses `input` with `toml::de::Deserializer::parse`.
///
/// Trusted: that the parser accepts or rejects a text, and words its
/// diagnostic, by the text alone; and that the document it returns is the
/// one read from `input`.
#[verifier::external_body]
fn parse_document<'a>(input: &'a str) -> (parsed: Result<
    toml::de::Deserializer<'a>,
    toml::de::Error,
>)
    ensures
        match parsed {
            Ok(document) => toml_rejection(input@).is_none() && document_source(document)
                == input@,
            Err(error) => toml_rejection(input@) == Some(toml_diagnostic(error)),
        },
{
    toml::de::Deserializer::parse(input)
}

/// Formats a parse error with its `Display` impl.
///
/// Trusted: that the text depends on the error alone.
#[verifier::external_body]
fn describe_toml_error(error: &toml::de::Error) -> (text: String)
    ensures
        text@ == toml_diagnostic(*error),
{
    error.to_string()
}

/// Streams `document` with `serde_transcode::transcode` into a
/// `serde_json::Serializer` that writes compact JSON to a fresh byte buffer.
///
/// Trusted: that what is written, or the error that ends the walk, depends
/// only on the text that the document was parsed from.
#[verifier::external_body]
fn write_json(document: toml::de::Deserializer<'_>) -> (written: Result<Vec<u8>, serde_json::Error>)
    requires
        toml_rejection(document_source(document)).is_none(),
    ensures
        match written {
            Ok(bytes) => json_rendering(document_source(document)) == Ok::<Seq<u8>, Seq<char>>(
                bytes@,
            ),
            Err(error) => json_rendering(document_source(document)) == Err::<Seq<u8>, Seq<char>>(
                json_diagnostic(error),
            ),
        },
{
    let mut bytes: Vec<u8> = Vec::new();
    let mut serializer = serde_json::Serializer::new(&mut bytes);
    match serde_transcode::transcode(document, &mut serializer) {
        Ok(()) => Ok(bytes),
        Err(error) => Err(error),
    }
}

/// Formats a JSON error with its `Display` impl.
///
/// Trusted: that the text depends on the error alone.
#[verifier::external_body]
fn describe_json_error(error: &serde_json::Error) -> (text: String)
    ensures
        text@ == json_diagnostic(*error),
{
    error.to_string()
}

/// The outcome of converting a text, given what the parser finds wrong with
/// it and what the transcoder makes of it: a text that the parser rejects
/// ends in a parse failure with the parser's diagnostic; one that it accepts
/// gives the bytes that the transcoder wrote, or a transcode failure with the
/// transcoder's diagnostic.
pub open spec fn conversion_of(
    rejection: Option<Seq<char>>,
    rendering: Result<Seq<u8>, Seq<char>>,
) -> Result<Seq<u8>, FailureModel> {
    match rejection {
        Some(cause) => Err(FailureModel::Parse { cause }),
        None => match rendering {
            Ok(bytes) => Ok(bytes),
            Err(cause) => Err(FailureModel::Transcode { cause }),
        },
    }
}

/// The outcome of converting the text `input`.
pub open spec fn conversion(input: Seq<char>) -> Result<Seq<u8>, FailureModel> {
    conversion_of(toml_rejection(input), json_rendering(input))
}

/// Whether `outcome` is, as a mathematical value, the outcome `expected`.
pub open spec fn is_outcome(
    outcome: Result<Vec<u8>, Failure>,
    expected: Result<Seq<u8>, FailureModel>,
) -> bool {
    match outcome {
        Ok(bytes) => expected == Ok::<Seq<u8>, FailureModel>(bytes@),
        Err(failure) => expected == Err::<Seq<u8>, FailureModel>(failure@),
    }
}

/// What the transcoder handed back, as a mathematical value.
pub open spec fn rendering_of(written: Result<Vec<u8>, String>) -> Result<Seq<u8>, Seq<char>> {
    match written {
        Ok(bytes) => Ok(bytes@),
        Err(cause) => Err(cause@),
    }
}

/// The failure that a text ends in when the parser rejects it with
/// `diagnostic`.
pub fn rejected(diagnostic: String) -> (failure: Failure)
    ensures
        failure@ == (FailureModel::Parse { cause: diagnostic@ }),
{
    Failure::Parse { cause: diagnostic }
}

/// The outcome for a text that the parser accepted, once the transcoder has
/// handed back `written`: its bytes, or a transcode failure with its
/// diagnostic.
pub fn transcoded(written: Result<Vec<u8>, String>) -> (outcome: Result<Vec<u8>, Failure>)
    ensures
        is_outcome(outcome, conversion_of(None, rendering_of(written))),
{
    match written {
        Ok(bytes) => Ok(bytes),
        Err(cause) => Err(Failure::Transcode { cause }),
    }
}

/// Converts the TOML document `input` to compact JSON.
///
/// The result is fixed by the text alone: the same text always gives the
/// same bytes, or the same failure.
pub fn toml_to_json(input: &str) -> (outcome: Result<Vec<u8>, Failure>)
    ensures
        is_outcome(outcome, conversion(input@)),
{
    match parse_document(input) {
        Err(error) => Err(rejected(describe_toml_error(&error))),
        Ok(document) => match write_json(document) {
            Ok(bytes) => transcoded(Ok(bytes)),
            Err(error) => transcoded(Err(describe_json_error(&error))),
        },
    }
}

/// Converting the same text twice gives the same outcome, byte for byte.
pub proof fn conversion_is_repeatable(
    input: Seq<char>,
    first: Result<Vec<u8>, Failure>,
    second: Result<Vec<u8>, Failure>,
)
    requires
        is_outcome(first, conversion(input)),
        is_outcome(second, conversion(input)),
    ensures
        first is Ok <==> second is Ok,
        first is Ok ==> first->Ok_0@ == second->Ok_0@,
        first is Err ==> first->Err_0@ == second->Err_0@,
{
}

} // verus!
