//! The single error type of the message model.
use vstd::prelude::*;
use vstd::string::*;

verus! {

/// Why a parse was given up. Every failure is final for the call that met it.
#[derive(Clone, Copy, Debug, PartialEq, Eq, Structural)]
pub enum ErrorKind {
    InvalidVersion,
    InvalidMethod,
    InvalidStatus,
    InvalidField,
    InvalidTarget,
    InvalidRequest,
    InvalidResponse,
    UnexpectedEof,
    Truncated,
    IntegerParse,
    IoFailure,
}

impl ErrorKind {
    /// The fixed description that an error of this kind carries.
    pub open spec fn text(self) -> Seq<char> {
        match self {
            ErrorKind::InvalidVersion => "Invalid version"@,
            ErrorKind::InvalidMethod => "Invalid method"@,
            ErrorKind::InvalidStatus => "Invalid status"@,
            ErrorKind::InvalidField => "Invalid field"@,
            ErrorKind::InvalidTarget => "Invalid target"@,
            ErrorKind::InvalidRequest => "Invalid request"@,
            ErrorKind::InvalidResponse => "Invalid response"@,
            ErrorKind::UnexpectedEof => "Unexpected end of stream"@,
            ErrorKind::Truncated => "Failed to read requested bytes"@,
            ErrorKind::IntegerParse => "cannot parse integer"@,
            ErrorKind::IoFailure => "Failed to read from connection"@,
        }
    }

    /// The description as the string that an error holds.
    pub closed spec fn spec_description(self) -> &'static str {
        match self {
            ErrorKind::InvalidVersion => "Invalid version",
            ErrorKind::InvalidMethod => "Invalid method",
            ErrorKind::InvalidStatus => "Invalid status",
            ErrorKind::InvalidField => "Invalid field",
            ErrorKind::InvalidTarget => "Invalid target",
            ErrorKind::InvalidRequest => "Invalid request",
            ErrorKind::InvalidResponse => "Invalid response",
            ErrorKind::UnexpectedEof => "Unexpected end of stream",
            ErrorKind::Truncated => "Failed to read requested bytes",
            ErrorKind::IntegerParse => "cannot parse integer",
            ErrorKind::IoFailure => "Failed to read from connection",
        }
    }

    /// The fixed description that an error of this kind carries.
    pub fn description(self) -> (s: &'static str)
        ensures
            s == self.spec_description(),
            s@ == self.text(),
    {
        match self {
            ErrorKind::InvalidVersion => "Invalid version",
            ErrorKind::InvalidMethod => "Invalid method",
            ErrorKind::InvalidStatus => "Invalid status",
            ErrorKind::InvalidField => "Invalid field",
            ErrorKind::InvalidTarget => "Invalid target",
            ErrorKind::InvalidRequest => "Invalid request",
            ErrorKind::InvalidResponse => "Invalid response",
            ErrorKind::UnexpectedEof => "Unexpected end of stream",
            ErrorKind::Truncated => "Failed to read requested bytes",
            ErrorKind::IntegerParse => "cannot parse integer",
            ErrorKind::IoFailure => "Failed to read from connection",
        }
    }
}

/// A parse failure. It carries a description chosen where the failure was
/// met; its view is that description.
#[derive(Debug)]
pub struct ParseError {
    description: &'static str,
}

impl View for ParseError {
    type V = Seq<char>;

    closed spec fn view(&self) -> Seq<char> {
        self.description@
    }
}

impl ParseError {
    /// What every rendered error starts with.
    pub open spec fn prefix() -> Seq<char> {
        "HTTP parsing error: "@
    }

    /// An error with the given description.
    pub fn new(description: &'static str) -> (e: ParseError)
        ensures
            e@ == description@,
    {
        ParseError { description }
    }

    /// A failed result that holds an error with the given description.
    pub fn err<T>(description: &'static str) -> (r: Result<T, ParseError>)
        ensures
            r matches Err(e) && e@ == description@,
    {
        Err(ParseError::new(description))
    }

    /// The error of the given kind, as a mathematical value.
    pub closed spec fn spec_of(kind: ErrorKind) -> ParseError {
        ParseError { description: kind.spec_description() }
    }

    /// The error of the given kind.
    pub fn of(kind: ErrorKind) -> (e: ParseError)
        ensures
            e == ParseError::spec_of(kind),
            e@ == kind.text(),
    {
        ParseError { description: kind.description() }
    }

    /// The description that the error carries.
    pub fn description(&self) -> (s: &'static str)
        ensures
            s@ == self@,
    {
        self.description
    }

    /// The rendered error: the common prefix, then the description.
    pub fn to_string(&self) -> (s: String)
        ensures
            s@ == ParseError::prefix() + self@,
    {
        let mut s = String::from_str("HTTP parsing error: ");
        s.append(self.description);
        s
    }
}

/// The standard library's I/O error, carried through without being read.
#[verifier::external_type_specification]
#[verifier::external_body]
pub struct ExIoError(std::io::Error);

/// The standard library's integer-parse error, carried through without being
/// read.
#[verifier::external_type_specification]
#[verifier::external_body]
pub struct ExParseIntError(std::num::ParseIntError);

impl vstd::std_specs::convert::FromSpecImpl<std::io::Error> for ParseError {
    open spec fn obeys_from_spec() -> bool {
        true
    }

    open spec fn from_spec(e: std::io::Error) -> ParseError {
        ParseError::spec_of(ErrorKind::IoFailure)
    }
}

/// A transport failure becomes the fixed `IoFailure` error; its cause is
/// dropped.
impl From<std::io::Error> for ParseError {
    fn from(e: std::io::Error) -> (r: ParseError) {
        ParseError::of(ErrorKind::IoFailure)
    }
}

impl vstd::std_specs::convert::FromSpecImpl<std::num::ParseIntError> for ParseError {
    open spec fn obeys_from_spec() -> bool {
        true
    }

    open spec fn from_spec(e: std::num::ParseIntError) -> ParseError {
        ParseError::spec_of(ErrorKind::IntegerParse)
    }
}

/// An integer-parse failure becomes the fixed `IntegerParse` error; its cause
/// is dropped.
impl From<std::num::ParseIntError> for ParseError {
    fn from(e: std::num::ParseIntError) -> (r: ParseError) {
        ParseError::of(ErrorKind::IntegerParse)
    }
}

/// The error of a kind carries that kind's description. This is what a
/// caller of `from` learns of the error it got.
pub proof fn lemma_kind_description(kind: ErrorKind)
    ensures
        ParseError::spec_of(kind)@ == kind.text(),
{
}

} // verus!
