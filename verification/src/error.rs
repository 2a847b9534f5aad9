//! The ways in which decoding a map fails.

use vstd::prelude::*;

verus! {

/// `std::io::Error`, the error of the decompressors. It is carried, never
/// read.
#[verifier::external_type_specification]
#[verifier::external_body]
pub struct ExIoError(std::io::Error);

/// `base64::DecodeError`, the error of the base64 decoder. It is carried,
/// never read.
#[verifier::external_type_specification]
#[verifier::external_body]
pub struct ExDecodeError(base64::DecodeError);

/// Why decoding failed. The first three carry the cause as the library that
/// found it reported it.
#[derive(Debug)]
pub enum TiledError {
    /// A zlib or gzip stream was malformed or cut short.
    DecompressingError(std::io::Error),
    /// The text was no JSON document.
    ParsingError(serde_json::Error),
    /// Tile data was not valid base64.
    Base64DecodingError(base64::DecodeError),
    /// A value did not have the form that the map format asks for.
    Other(String),
}

/// The stage at which decoding failed, and for a malformed value the message.
pub enum Failure {
    Decompressing,
    Parsing,
    Base64Decoding,
    Other(Seq<char>),
}

impl View for TiledError {
    type V = Failure;

    open spec fn view(&self) -> Failure {
        match self {
            TiledError::DecompressingError(_) => Failure::Decompressing,
            TiledError::ParsingError(_) => Failure::Parsing,
            TiledError::Base64DecodingError(_) => Failure::Base64Decoding,
            TiledError::Other(message) => Failure::Other(message@),
        }
    }
}

/// The message for tile data that is neither an array nor a string where one
/// is due.
pub open spec fn improper_data() -> Seq<char> {
    "Improperly formatted data"@
}

/// The message for tile bytes that end inside a tile identifier.
pub open spec fn partial_tile() -> Seq<char> {
    "TryFromSliceError(())"@
}

/// A text as `Debug` prints it: in double quotes, with escapes.
pub uninterp spec fn quoted(text: Seq<char>) -> Seq<char>;

/// `Debug` for `str` prints the text in double quotes, with escapes.
#[verifier::external_body]
pub(crate) fn debug_text(text: &str) -> (res: String)
    ensures
        res@ == quoted(text@),
{
    format!("{:?}", text)
}

/// `Display` for `std::io::Error`: the text that describes the error.
#[verifier::external_body]
fn io_error_text(cause: &std::io::Error) -> String {
    format!("{}", cause)
}

/// The text that describes an error of the JSON parser.
pub uninterp spec fn error_text(cause: serde_json::Error) -> Seq<char>;

/// Whether a text holds the words ` at line `, after which the JSON parser
/// looks for a position when it is handed a message.
pub open spec fn names_a_line(text: Seq<char>) -> bool {
    exists|i: int|
        0 <= i <= text.len() - 9 && #[trigger] text.subrange(i, i + 9) == " at line "@
}

/// `Display` for `serde_json::Error`: the text that describes the error.
#[verifier::external_body]
fn json_error_text(cause: &serde_json::Error) -> (res: String)
    ensures
        res@ == error_text(*cause),
{
    format!("{}", cause)
}

/// `Display` for `base64::DecodeError`: the text that describes the error.
#[verifier::external_body]
fn base64_error_text(cause: &base64::DecodeError) -> String {
    format!("{}", cause)
}

/// `serde::de::Error::custom` makes an error of the JSON parser's own type
/// from a message. The message is the text that describes the error, unless
/// it holds the words ` at line `: the parser may then read a position out
/// of it.
#[verifier::external_body]
fn json_error(message: &str) -> (res: serde_json::Error)
    ensures
        !names_a_line(message@) ==> error_text(res) == message@,
{
    <serde_json::Error as serde::de::Error>::custom(message)
}

impl TiledError {
    /// The error for a record that lacks a member, or has one of the wrong
    /// kind: a parsing error whose cause is described by `what`, the name of
    /// the record.
    pub fn unreadable(what: &str) -> (res: TiledError)
        ensures
            res@ == Failure::Parsing,
            res matches TiledError::ParsingError(cause) && (!names_a_line(what@) ==> error_text(
                cause,
            ) == what@),
    {
        TiledError::ParsingError(json_error(what))
    }

    /// The error for a value that is not formed as the map format asks.
    pub fn malformed(message: &str) -> (res: TiledError)
        ensures
            res@ == Failure::Other(message@),
    {
        TiledError::Other(message.to_owned())
    }

    /// The text that describes the error: the cause's own description, or
    /// the message of a malformed value.
    pub fn message(&self) -> (res: String)
        ensures
            self@ matches Failure::Other(m) ==> res@ == m,
            self matches TiledError::ParsingError(cause) ==> res@ == error_text(*cause),
    {
        match self {
            TiledError::DecompressingError(cause) => io_error_text(cause),
            TiledError::ParsingError(cause) => json_error_text(cause),
            TiledError::Base64DecodingError(cause) => base64_error_text(cause),
            TiledError::Other(message) => message.clone(),
        }
    }
}

} // verus!
