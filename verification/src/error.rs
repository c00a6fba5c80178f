//! The errors of obtaining a parsed definition: one kind for each schema
//! library, so that a caller can tell which of them refused its input, and
//! one for reading the input.

use vstd::prelude::*;
use vstd::string::StringExecFns;

verus! {

#[verifier::external_type_specification]
#[verifier::external_body]
pub struct ExWitnextError(witnext::WitxError);

#[verifier::external_type_specification]
#[verifier::external_body]
pub struct ExWitxError(witx::WitxError);

#[verifier::external_type_specification]
#[verifier::external_body]
pub struct ExIoError(std::io::Error);

#[derive(Debug)]
pub enum Error {
    /// witnext refused the input.
    Witnext(witnext::WitxError),
    /// witx refused the input.
    Witx0_9(witx::WitxError),
    /// The input could not be read.
    Io(std::io::Error),
}

impl vstd::std_specs::convert::FromSpecImpl<std::io::Error> for Error {
    open spec fn obeys_from_spec() -> bool {
        true
    }

    open spec fn from_spec(e: std::io::Error) -> Error {
        Error::Io(e)
    }
}

impl From<std::io::Error> for Error {
    fn from(e: std::io::Error) -> (error: Error) {
        Error::Io(e)
    }
}

impl vstd::std_specs::convert::FromSpecImpl<witnext::WitxError> for Error {
    open spec fn obeys_from_spec() -> bool {
        true
    }

    open spec fn from_spec(e: witnext::WitxError) -> Error {
        Error::Witnext(e)
    }
}

impl From<witnext::WitxError> for Error {
    fn from(e: witnext::WitxError) -> (error: Error) {
        Error::Witnext(e)
    }
}

impl vstd::std_specs::convert::FromSpecImpl<witx::WitxError> for Error {
    open spec fn obeys_from_spec() -> bool {
        true
    }

    open spec fn from_spec(e: witx::WitxError) -> Error {
        Error::Witx0_9(e)
    }
}

impl From<witx::WitxError> for Error {
    fn from(e: witx::WitxError) -> (error: Error) {
        Error::Witx0_9(e)
    }
}

/// The `Debug` text that witnext gives for its error. Nothing is claimed of
/// the text.
#[verifier::external_body]
fn witnext_error_text(error: &witnext::WitxError) -> String {
    format!("{:?}", error)
}

/// The `Debug` text that witx gives for its error. Nothing is claimed of
/// the text.
#[verifier::external_body]
fn witx_error_text(error: &witx::WitxError) -> String {
    format!("{:?}", error)
}

/// The `Debug` text that std gives for an I/O error. It may hold what the
/// operating system says of the error, so nothing is claimed of the text.
#[verifier::external_body]
fn io_error_text(error: &std::io::Error) -> String {
    format!("{:?}", error)
}

/// The text of a message: the name of the kind of error, and in round
/// brackets what the source of the error says of it.
pub open spec fn message_text(kind: Seq<char>, detail: Seq<char>) -> Seq<char> {
    kind + "("@ + detail + ")"@
}

/// The message for an error of the kind named `kind`, of which its source
/// says `detail`.
pub fn message_around(kind: &str, detail: &str) -> (text: String)
    ensures
        text@ == message_text(kind@, detail@),
{
    String::from_str(kind).concat("(").concat(detail).concat(")")
}

impl Error {
    /// The name of the kind of error, which tells the schema libraries
    /// apart from each other and from a failure to read.
    pub open spec fn kind_name(self) -> Seq<char> {
        match self {
            Error::Witnext(_) => "Witnext"@,
            Error::Witx0_9(_) => "Witx0_9"@,
            Error::Io(_) => "Io"@,
        }
    }

    /// The error as text, for a message: the name of its kind around the
    /// text that the schema library, or std, gives for what went wrong.
    pub fn message(&self) -> (text: String)
        ensures
            exists|detail: Seq<char>| text@ == message_text(self.kind_name(), detail),
    {
        match self {
            Error::Witnext(e) => {
                let detail = witnext_error_text(e);
                let text = message_around("Witnext", detail.as_str());
                assert(text@ == message_text(self.kind_name(), detail@));
                text
            },
            Error::Witx0_9(e) => {
                let detail = witx_error_text(e);
                let text = message_around("Witx0_9", detail.as_str());
                assert(text@ == message_text(self.kind_name(), detail@));
                text
            },
            Error::Io(e) => {
                let detail = io_error_text(e);
                let text = message_around("Io", detail.as_str());
                assert(text@ == message_text(self.kind_name(), detail@));
                text
            },
        }
    }
}

} // verus!
