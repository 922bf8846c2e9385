//! The error data covering all backends and the build frontend itself.

use bindgen::BindgenError;
use cc::Error as CcError;
use glob::PatternError;
use std::io::Error as StdIoError;
use vstd::prelude::*;
use vstd::std_specs::convert::FromSpecImpl;
use vstd::string::to_string_from_display_ensures;

verus! {

/// The error that the binding generator reports; its content is not read here.
#[verifier::external_type_specification]
#[verifier::external_body]
pub struct ExBindgenError(BindgenError);

/// The error that the compiler driver reports; its content is not read here.
#[verifier::external_type_specification]
#[verifier::external_body]
pub struct ExCcError(CcError);

/// The error of a file system operation; its content is not read here.
#[verifier::external_type_specification]
#[verifier::external_body]
pub struct ExStdIoError(StdIoError);

/// The error of a malformed glob pattern; its content is not read here.
#[verifier::external_type_specification]
#[verifier::external_body]
pub struct ExPatternError(PatternError);

/// The error wrapper covering all backends and the build frontend.
#[derive(Debug)]
pub enum Error {
    /// The binding generator failed on a header.
    BindgenError(BindgenError),
    /// The compiler driver failed to build the library.
    CcError(CcError),
    /// A binding file could not be written.
    StdIoError(StdIoError),
    /// An input file pattern is malformed.
    PatternError(PatternError),
    /// The configuration is violated; the text says how.
    MessageError(String),
}

impl From<BindgenError> for Error {
    fn from(err: BindgenError) -> (error: Error) {
        Error::BindgenError(err)
    }
}

impl FromSpecImpl<BindgenError> for Error {
    open spec fn obeys_from_spec() -> bool {
        true
    }

    open spec fn from_spec(err: BindgenError) -> Error {
        Error::BindgenError(err)
    }
}

impl From<CcError> for Error {
    fn from(err: CcError) -> (error: Error) {
        Error::CcError(err)
    }
}

impl FromSpecImpl<CcError> for Error {
    open spec fn obeys_from_spec() -> bool {
        true
    }

    open spec fn from_spec(err: CcError) -> Error {
        Error::CcError(err)
    }
}

impl From<StdIoError> for Error {
    fn from(err: StdIoError) -> (error: Error) {
        Error::StdIoError(err)
    }
}

impl FromSpecImpl<StdIoError> for Error {
    open spec fn obeys_from_spec() -> bool {
        true
    }

    open spec fn from_spec(err: StdIoError) -> Error {
        Error::StdIoError(err)
    }
}

impl From<PatternError> for Error {
    fn from(err: PatternError) -> (error: Error) {
        Error::PatternError(err)
    }
}

impl FromSpecImpl<PatternError> for Error {
    open spec fn obeys_from_spec() -> bool {
        true
    }

    open spec fn from_spec(err: PatternError) -> Error {
        Error::PatternError(err)
    }
}

impl From<String> for Error {
    fn from(err: String) -> (error: Error) {
        Error::MessageError(err)
    }
}

impl FromSpecImpl<String> for Error {
    open spec fn obeys_from_spec() -> bool {
        true
    }

    open spec fn from_spec(err: String) -> Error {
        Error::MessageError(err)
    }
}

impl<'a> From<&'a str> for Error {
    /// The message that holds the text `err`.
    fn from(err: &'a str) -> (error: Error)
        ensures
            error matches Error::MessageError(text) && text@ == err@,
    {
        Error::MessageError(err.to_owned())
    }
}

/// The conversion from a text makes a string, which is not a function of
/// the text: the contract of the conversion says what the string holds.
impl<'a> FromSpecImpl<&'a str> for Error {
    open spec fn obeys_from_spec() -> bool {
        false
    }

    open spec fn from_spec(err: &'a str) -> Error {
        arbitrary()
    }
}

/// What an [`Error`] holds, with the text of a message as a sequence of
/// characters.
pub enum ErrorView {
    BindgenError(BindgenError),
    CcError(CcError),
    StdIoError(StdIoError),
    PatternError(PatternError),
    MessageError(Seq<char>),
}

impl View for Error {
    type V = ErrorView;

    open spec fn view(&self) -> ErrorView {
        match self {
            Error::BindgenError(err) => ErrorView::BindgenError(*err),
            Error::CcError(err) => ErrorView::CcError(*err),
            Error::StdIoError(err) => ErrorView::StdIoError(*err),
            Error::PatternError(err) => ErrorView::PatternError(*err),
            Error::MessageError(message) => ErrorView::MessageError(message@),
        }
    }
}

impl ErrorView {
    /// The words that the text of the error starts with: the name of its
    /// variant, a colon and a blank.
    pub open spec fn heading(self) -> Seq<char> {
        match self {
            ErrorView::BindgenError(_) => "BindgenError: "@,
            ErrorView::CcError(_) => "CcError: "@,
            ErrorView::StdIoError(_) => "StdIoError: "@,
            ErrorView::PatternError(_) => "PatternError: "@,
            ErrorView::MessageError(_) => "MessageError: "@,
        }
    }

    /// Whether `text` may be the text of this error: the heading, and then
    /// what the wrapped error says of itself when it is displayed.
    pub open spec fn has_text(self, text: Seq<char>) -> bool {
        exists|said: String| #[trigger] self.says(said) && text == self.heading() + said@
    }

    /// Whether `said` may be what the wrapped error says of itself when it
    /// is displayed.  A message says what it holds.
    pub open spec fn says(self, said: String) -> bool {
        match self {
            ErrorView::BindgenError(err) => to_string_from_display_ensures::<BindgenError>(
                &err,
                said,
            ),
            ErrorView::CcError(err) => to_string_from_display_ensures::<CcError>(&err, said),
            ErrorView::StdIoError(err) => to_string_from_display_ensures::<StdIoError>(&err, said),
            ErrorView::PatternError(err) => to_string_from_display_ensures::<PatternError>(
                &err,
                said,
            ),
            ErrorView::MessageError(message) => said@ == message,
        }
    }
}

impl Error {
    /// The text of this error: the name of its variant, a colon, and what
    /// the wrapped error says of itself.
    pub fn to_string(&self) -> (text: String)
        ensures
            self@.has_text(text@),
            self@.heading().is_prefix_of(text@),
    {
        let mut text = String::new();
        match self {
            Error::BindgenError(err) => {
                let said = err.to_string();
                text.append("BindgenError: ");
                text.append(said.as_str());
                assert(self@.says(said) && text@ =~= self@.heading() + said@);
            },
            Error::CcError(err) => {
                let said = err.to_string();
                text.append("CcError: ");
                text.append(said.as_str());
                assert(self@.says(said) && text@ =~= self@.heading() + said@);
            },
            Error::StdIoError(err) => {
                let said = err.to_string();
                text.append("StdIoError: ");
                text.append(said.as_str());
                assert(self@.says(said) && text@ =~= self@.heading() + said@);
            },
            Error::PatternError(err) => {
                let said = err.to_string();
                text.append("PatternError: ");
                text.append(said.as_str());
                assert(self@.says(said) && text@ =~= self@.heading() + said@);
            },
            Error::MessageError(message) => {
                text.append("MessageError: ");
                text.append(message.as_str());
                assert(self@.says(*message) && text@ =~= self@.heading() + message@);
            },
        }
        assert(text@.subrange(0, self@.heading().len() as int) =~= self@.heading());
        text
    }
}

} // verus!
