//! What can go wrong while recording or replaying.

use vstd::prelude::*;
use vstd::std_specs::convert::FromSpecImpl;
use vstd::string::to_string_from_display_ensures;

verus! {

/// The error of a file operation, `std::io::Error`. It is carried, never
/// read.
#[verifier::external_type_specification]
#[verifier::external_body]
pub struct ExIoError(std::io::Error);

/// The error of a document that could not be decoded, `serde_yaml::Error`.
/// It is carried, never read.
#[verifier::external_type_specification]
#[verifier::external_body]
pub struct ExYamlError(serde_yaml::Error);

/// Why a cassette could not be used.
#[derive(Debug)]
pub enum VcrError {
    /// The cassette file could not be opened, read or written.
    File(std::io::Error),
    /// A document of the cassette does not hold a well-formed interaction.
    Parse(serde_yaml::Error),
    /// No recorded interaction has a request equal to the one replayed.
    NoMatch,
}

impl From<std::io::Error> for VcrError {
    fn from(e: std::io::Error) -> (r: VcrError) {
        VcrError::File(e)
    }
}

impl FromSpecImpl<std::io::Error> for VcrError {
    open spec fn obeys_from_spec() -> bool {
        true
    }

    open spec fn from_spec(e: std::io::Error) -> VcrError {
        VcrError::File(e)
    }
}

impl From<serde_yaml::Error> for VcrError {
    fn from(e: serde_yaml::Error) -> (r: VcrError) {
        VcrError::Parse(e)
    }
}

impl FromSpecImpl<serde_yaml::Error> for VcrError {
    open spec fn obeys_from_spec() -> bool {
        true
    }

    open spec fn from_spec(e: serde_yaml::Error) -> VcrError {
        VcrError::Parse(e)
    }
}

/// Whether the error displays exactly the given text: any string that
/// `to_string` makes of it holds that text.
pub open spec fn displays(e: serde_yaml::Error, text: Seq<char>) -> bool {
    forall|shown: String| #[trigger]
        to_string_from_display_ensures::<serde_yaml::Error>(&e, shown) ==> shown@ == text
}

impl VcrError {
    /// The error of a document whose records are not a request followed by
    /// a response. It is a parse error that says so.
    pub fn malformed() -> (e: VcrError)
        ensures
            e matches VcrError::Parse(inner) && displays(
                inner,
                "expected a request followed by a response"@,
            ),
    {
        VcrError::Parse(yaml_error("expected a request followed by a response"))
    }

    /// A description of the error for people to read: for an error of a
    /// file or of a document, the text that the error itself displays.
    pub fn message(&self) -> (text: String)
        ensures
            match self {
                VcrError::File(e) => to_string_from_display_ensures::<std::io::Error>(e, text),
                VcrError::Parse(e) => to_string_from_display_ensures::<serde_yaml::Error>(e, text),
                VcrError::NoMatch => text@ == "no recorded interaction matches the request"@,
            },
    {
        match self {
            VcrError::File(e) => e.to_string(),
            VcrError::Parse(e) => e.to_string(),
            VcrError::NoMatch => "no recorded interaction matches the request".to_owned(),
        }
    }
}

/// A `serde_yaml::Error` made by `serde::de::Error::custom` from a message.
/// Such an error keeps the message, with no place in a document, and what
/// it displays is that message and nothing else: that is the claim.
#[verifier::external_body]
fn yaml_error(message: &str) -> (e: serde_yaml::Error)
    ensures
        displays(e, message@),
{
    <serde_yaml::Error as serde::de::Error>::custom(message)
}

} // verus!
