//! The protocol version token, `HTTP/M.m`.
use crate::error::{ErrorKind, ParseError};
use crate::text::{chars_of, digit_char, digit_of, digit_str, digit_value, is_digit};
use vstd::prelude::*;
use vstd::string::*;

verus! {

/// A protocol version: a major and a minor number, each a single digit.
#[derive(Clone, Copy, Debug, PartialEq, Eq, Structural)]
pub struct Version {
    major: u8,
    minor: u8,
}

/// A version is seen as its pair of numbers, major first.
impl View for Version {
    type V = (u8, u8);

    open spec fn view(&self) -> (u8, u8) {
        (self.major(), self.minor())
    }
}

impl Version {
    #[verifier::type_invariant]
    spec fn single_digits(self) -> bool {
        self.major <= 9 && self.minor <= 9
    }

    /// The major number.
    pub closed spec fn spec_major(&self) -> u8 {
        self.major
    }

    /// The minor number.
    pub closed spec fn spec_minor(&self) -> u8 {
        self.minor
    }

    /// Whether both numbers are single digits. Every version that a
    /// constructor hands out is valid.
    pub open spec fn is_valid(&self) -> bool {
        self.major() <= 9 && self.minor() <= 9
    }

    /// The token for a major and a minor number: `HTTP/`, the major digit, a
    /// point, the minor digit.
    pub open spec fn token(major: u8, minor: u8) -> Seq<char> {
        seq!['H', 'T', 'T', 'P', '/', digit_char(major as int), '.', digit_char(minor as int)]
    }

    /// The numbers that a token names, if it is a version token at all: eight
    /// characters, `HTTP/`, a digit, a point, a digit.
    pub open spec fn spec_from(s: Seq<char>) -> Option<(u8, u8)> {
        if s.len() == 8 && s[0] == 'H' && s[1] == 'T' && s[2] == 'T' && s[3] == 'P' && s[4] == '/'
            && is_digit(s[5]) && s[6] == '.' && is_digit(s[7]) {
            Some((digit_value(s[5]) as u8, digit_value(s[7]) as u8))
        } else {
            None
        }
    }

    /// The rendered version.
    pub open spec fn text(&self) -> Seq<char> {
        Version::token(self.major(), self.minor())
    }

    /// Builds a version from its two numbers; a number above nine is refused.
    pub fn new(major: u8, minor: u8) -> (r: Result<Version, ParseError>)
        ensures
            major <= 9 && minor <= 9 ==> (r matches Ok(v) && v@ == (major, minor)),
            !(major <= 9 && minor <= 9) ==> (r matches Err(e) && e@
                == ErrorKind::InvalidVersion.text()),
    {
        if major > 9 || minor > 9 {
            Err(ParseError::of(ErrorKind::InvalidVersion))
        } else {
            Ok(Version { major, minor })
        }
    }

    /// Reads a version token.
    pub fn from(version_str: &str) -> (r: Result<Version, ParseError>)
        ensures
            match Version::spec_from(version_str@) {
                Some(numbers) => r matches Ok(v) && v@ == numbers,
                None => r matches Err(e) && e@ == ErrorKind::InvalidVersion.text(),
            },
    {
        let version = chars_of(version_str);
        if version.len() != 8 || version[0] != 'H' || version[1] != 'T' || version[2] != 'T'
            || version[3] != 'P' || version[4] != '/' || version[6] != '.' {
            return Err(ParseError::of(ErrorKind::InvalidVersion));
        }
        match (digit_of(version[5]), digit_of(version[7])) {
            (Some(major), Some(minor)) => Ok(Version { major, minor }),
            _ => Err(ParseError::of(ErrorKind::InvalidVersion)),
        }
    }

    /// The major number.
    #[verifier::when_used_as_spec(spec_major)]
    pub fn major(&self) -> (m: u8)
        ensures
            m == self.major(),
            m <= 9,
    {
        proof {
            use_type_invariant(self);
        }
        self.major
    }

    /// The minor number.
    #[verifier::when_used_as_spec(spec_minor)]
    pub fn minor(&self) -> (m: u8)
        ensures
            m == self.minor(),
            m <= 9,
    {
        proof {
            use_type_invariant(self);
        }
        self.minor
    }

    /// Renders the version as its token.
    pub fn to_string(&self) -> (s: String)
        ensures
            s@ == self.text(),
    {
        proof {
            use_type_invariant(self);
            reveal_strlit("HTTP/");
            reveal_strlit(".");
        }
        let mut s = String::from_str("HTTP/");
        s.append(digit_str(self.major));
        s.append(".");
        s.append(digit_str(self.minor));
        s
    }
}

/// Every pair of single digits survives rendering and reading: the token of
/// `major` and `minor` reads back as exactly those two numbers.
pub proof fn law_token_reads_back(major: u8, minor: u8)
    requires
        major <= 9,
        minor <= 9,
    ensures
        Version::spec_from(Version::token(major, minor)) == Some((major, minor)),
{
}

/// A version token holds no space and no line feed.
pub proof fn lemma_token_is_one_word(major: u8, minor: u8)
    ensures
        !Version::token(major, minor).contains(' '),
        !Version::token(major, minor).contains('\n'),
{
    let token = Version::token(major, minor);
    assert forall|i: int| 0 <= i < token.len() implies '.' <= #[trigger] token[i] <= 'T' by {}
}

/// Reading then rendering gives the input back: a token that reads as a
/// version is the rendered text of that version, character for character.
pub proof fn law_reading_is_exact(s: Seq<char>)
    requires
        Version::spec_from(s) is Some,
    ensures
        ({
            let (major, minor) = Version::spec_from(s)->0;
            &&& major <= 9
            &&& minor <= 9
            &&& Version::token(major, minor) == s
        }),
{
}

} // verus!
