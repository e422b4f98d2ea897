//! The first line of a response: version and status.
use crate::error::{ErrorKind, ParseError};
use crate::status_code::{law_registry_is_one_to_one, lemma_reason_is_one_line, StatusCode};
use crate::text::{
    chars_of, decimal, decimal_string, is_digit, lemma_decimal_reads_back, lemma_split_after,
    parse_u16, pieces, read_u16, split_bounds, splitn,
};
use crate::version::{law_token_reads_back, lemma_token_is_one_word, Version};
use vstd::prelude::*;
use vstd::string::*;

verus! {

/// What a status line holds. The reason text that came with it is not kept.
pub struct ResponseLine {
    pub version: (u8, u8),
    pub status: StatusCode,
}

impl ResponseLine {
    /// Whether the line obeys the rules of the wire: single-digit version
    /// numbers.
    pub open spec fn is_valid(self) -> bool {
        self.version.0 <= 9 && self.version.1 <= 9
    }

    /// The line as text: the version token, the status number and the
    /// canonical reason phrase, with one space between them.
    pub open spec fn text(self) -> Seq<char> {
        Version::token(self.version.0, self.version.1) + seq![' '] + decimal(
            self.status.number() as nat,
        ) + seq![' '] + self.status.reason()
    }
}

/// The first line of a response.
#[derive(Debug, PartialEq, Eq)]
pub struct ResponseStatus {
    pub version: Version,
    pub status: StatusCode,
}

impl View for ResponseStatus {
    type V = ResponseLine;

    open spec fn view(&self) -> ResponseLine {
        ResponseLine { version: self.version@, status: self.status }
    }
}

impl ResponseStatus {
    /// What a line holds as a status line, or why it is none. The line is
    /// split at its first two spaces and must give three pieces; the third
    /// is the reason text, which may hold spaces and is not judged. The
    /// first piece is judged as a version, then the second as the number
    /// of a registered status: the first piece that fails decides the error.
    pub open spec fn spec_from(line: Seq<char>) -> Result<ResponseLine, ErrorKind> {
        let parts = splitn(line, ' ', 3);
        if parts.len() != 3 {
            Err(ErrorKind::InvalidResponse)
        } else {
            match Version::spec_from(parts[0]) {
                None => Err(ErrorKind::InvalidVersion),
                Some(version) => match parse_u16(parts[1]) {
                    None => Err(ErrorKind::InvalidStatus),
                    Some(code) => match StatusCode::spec_from(code) {
                        None => Err(ErrorKind::InvalidStatus),
                        Some(status) => Ok(ResponseLine { version, status }),
                    },
                },
            }
        }
    }

    /// The status line for a status, at version 1.1.
    pub fn new(status: StatusCode) -> (line: ResponseStatus)
        ensures
            line@ == (ResponseLine { version: (1, 1), status }),
    {
        let version = Version::new(1, 1).unwrap();
        ResponseStatus { version, status }
    }

    /// Reads a status line.
    pub fn from(line: String) -> (r: Result<ResponseStatus, ParseError>)
        ensures
            match ResponseStatus::spec_from(line@) {
                Ok(model) => r matches Ok(status) && status@ == model,
                Err(kind) => r matches Err(e) && e@ == kind.text(),
            },
    {
        let text = line.as_str();
        let v = chars_of(text);
        let bounds = split_bounds(&v, ' ', 3);
        if bounds.len() != 3 {
            return Err(ParseError::of(ErrorKind::InvalidResponse));
        }
        let version = match Version::from(text.substring_char(bounds[0].0, bounds[0].1)) {
            Ok(version) => version,
            Err(e) => {
                return Err(e);
            },
        };
        let code = match read_u16(&v, bounds[1].0, bounds[1].1) {
            Some(code) => code,
            None => {
                return Err(ParseError::of(ErrorKind::InvalidStatus));
            },
        };
        match StatusCode::from(code) {
            Some(status) => Ok(ResponseStatus { version, status }),
            None => Err(ParseError::of(ErrorKind::InvalidStatus)),
        }
    }

    /// Renders the status line, with the canonical reason phrase.
    pub fn to_string(&self) -> (s: String)
        ensures
            s@ == self@.text(),
    {
        proof {
            reveal_strlit(" ");
        }
        let mut s = self.version.to_string();
        s.append(" ");
        let code = decimal_string(self.status.code() as usize);
        s.append(code.as_str());
        s.append(" ");
        s.append(self.status.phrase());
        s
    }
}

/// Every status line that is read obeys the rules of the wire.
pub proof fn law_read_lines_are_valid(line: Seq<char>)
    requires
        ResponseStatus::spec_from(line) is Ok,
    ensures
        ResponseStatus::spec_from(line)->Ok_0.is_valid(),
{
}

/// The text of a status line holds no line feed.
pub proof fn lemma_line_is_one_line(line: ResponseLine)
    ensures
        !line.text().contains('\n'),
{
    let text = line.text();
    let token = Version::token(line.version.0, line.version.1);
    let number = decimal(line.status.number() as nat);
    lemma_token_is_one_word(line.version.0, line.version.1);
    lemma_decimal_reads_back(line.status.number() as nat);
    lemma_reason_is_one_line(line.status);
    if text.contains('\n') {
        let i = choose|i: int| 0 <= i < text.len() && text[i] == '\n';
        let n = token.len();
        let d = number.len();
        if i < n {
            assert(token[i] == '\n');
        } else if n < i <= n + d {
            assert(is_digit(number[i - n - 1]));
        } else if i > n + d + 1 {
            assert(line.status.reason()[i - n - d - 2] == '\n');
        }
    }
}

/// A valid status line is read back from its own text: rendering then
/// reading gives the same version and the same status.
pub proof fn law_rendered_line_reads_back(line: ResponseLine)
    requires
        line.is_valid(),
    ensures
        ResponseStatus::spec_from(line.text()) == Ok::<ResponseLine, ErrorKind>(line),
{
    let token = Version::token(line.version.0, line.version.1);
    let number = decimal(line.status.number() as nat);
    let reason = line.status.reason();
    let tail = number + seq![' '] + reason;
    lemma_token_is_one_word(line.version.0, line.version.1);
    lemma_decimal_reads_back(line.status.number() as nat);
    assert(!number.contains(' ')) by {
        if number.contains(' ') {
            let i = choose|i: int| 0 <= i < number.len() && number[i] == ' ';
            assert(is_digit(number[i]));
        }
    }
    assert(line.text() =~= token + seq![' '] + tail);
    lemma_split_after(token, tail, ' ');
    lemma_split_after(number, reason, ' ');
    law_token_reads_back(line.version.0, line.version.1);
    law_registry_is_one_to_one(line.status, line.status.number());
}

} // verus!
