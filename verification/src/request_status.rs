//! The first line of a request: method, target and version.
use crate::error::{ErrorKind, ParseError};
use crate::method::{law_name_round_trip, lemma_name_is_one_word, Method};
use crate::text::{
    chars_of, lemma_split_after, lemma_split_whole, lemma_splitn_split, pieces, slice_of, split,
    split_bounds,
};
use crate::version::{law_token_reads_back, lemma_token_is_one_word, Version};
use vstd::prelude::*;
use vstd::string::*;

verus! {

/// What a request line holds.
pub struct RequestLine {
    pub version: (u8, u8),
    pub method: Method,
    pub target: Seq<char>,
}

impl RequestLine {
    /// Whether the line obeys the rules of the wire: single-digit version
    /// numbers and a target that is not empty.
    pub open spec fn is_valid(self) -> bool {
        self.version.0 <= 9 && self.version.1 <= 9 && self.target.len() > 0
    }

    /// The line as text: the method's name, the target and the version
    /// token, with one space between them.
    pub open spec fn text(self) -> Seq<char> {
        self.method.name() + seq![' '] + self.target + seq![' '] + Version::token(
            self.version.0,
            self.version.1,
        )
    }
}

/// The first line of a request.
#[derive(Debug, PartialEq, Eq)]
pub struct RequestStatus {
    pub version: Version,
    pub method: Method,
    pub target: String,
}

impl View for RequestStatus {
    type V = RequestLine;

    open spec fn view(&self) -> RequestLine {
        RequestLine { version: self.version@, method: self.method, target: self.target@ }
    }
}

impl RequestStatus {
    /// What a line holds as a request line, or why it is none. The line is
    /// split at every space and must give exactly three pieces. The first
    /// is judged as a method, then the second as a target, which must not be
    /// empty, then the third as a version: the first piece that fails
    /// decides the error.
    pub open spec fn spec_from(line: Seq<char>) -> Result<RequestLine, ErrorKind> {
        let parts = split(line, ' ');
        if parts.len() != 3 {
            Err(ErrorKind::InvalidRequest)
        } else {
            match Method::spec_from(parts[0]) {
                None => Err(ErrorKind::InvalidMethod),
                Some(method) => if parts[1].len() == 0 {
                    Err(ErrorKind::InvalidTarget)
                } else {
                    match Version::spec_from(parts[2]) {
                        None => Err(ErrorKind::InvalidVersion),
                        Some(version) => Ok(RequestLine { version, method, target: parts[1] }),
                    }
                },
            }
        }
    }

    /// The request line for a method and a target, at version 1.1.
    pub fn new(method: Method, target: String) -> (status: RequestStatus)
        ensures
            status@ == (RequestLine { version: (1, 1), method, target: target@ }),
    {
        let version = Version::new(1, 1).unwrap();
        RequestStatus { version, method, target }
    }

    /// Reads a request line.
    pub fn from(line: String) -> (r: Result<RequestStatus, ParseError>)
        ensures
            match RequestStatus::spec_from(line@) {
                Ok(model) => r matches Ok(status) && status@ == model,
                Err(kind) => r matches Err(e) && e@ == kind.text(),
            },
    {
        let text = line.as_str();
        let v = chars_of(text);
        let bounds = split_bounds(&v, ' ', 4);
        proof {
            lemma_splitn_split(v@, ' ', 4);
        }
        if bounds.len() != 3 {
            return Err(ParseError::of(ErrorKind::InvalidRequest));
        }
        let method = match Method::from(text.substring_char(bounds[0].0, bounds[0].1)) {
            Ok(method) => method,
            Err(e) => {
                return Err(e);
            },
        };
        if bounds[1].0 == bounds[1].1 {
            return Err(ParseError::of(ErrorKind::InvalidTarget));
        }
        let version = match Version::from(text.substring_char(bounds[2].0, bounds[2].1)) {
            Ok(version) => version,
            Err(e) => {
                return Err(e);
            },
        };
        let target = slice_of(text, bounds[1].0, bounds[1].1);
        Ok(RequestStatus { version, method, target })
    }

    /// Renders the request line.
    pub fn to_string(&self) -> (s: String)
        ensures
            s@ == self@.text(),
    {
        proof {
            reveal_strlit(" ");
        }
        let mut s = self.method.to_string();
        s.append(" ");
        s.append(self.target.as_str());
        s.append(" ");
        let version = self.version.to_string();
        s.append(version.as_str());
        s
    }
}

/// Every request line that is read obeys the rules of the wire.
pub proof fn law_read_lines_are_valid(line: Seq<char>)
    requires
        RequestStatus::spec_from(line) is Ok,
    ensures
        RequestStatus::spec_from(line)->Ok_0.is_valid(),
{
}

/// The text of a request line whose target holds no line feed holds none.
pub proof fn lemma_line_is_one_line(line: RequestLine)
    requires
        !line.target.contains('\n'),
    ensures
        !line.text().contains('\n'),
{
    let text = line.text();
    let name = line.method.name();
    lemma_name_is_one_word(line.method);
    lemma_token_is_one_word(line.version.0, line.version.1);
    if text.contains('\n') {
        let i = choose|i: int| 0 <= i < text.len() && text[i] == '\n';
        let n = name.len();
        let t = line.target.len();
        if i < n {
            assert(name[i] == '\n');
        } else if n < i <= n + t {
            assert(line.target[i - n - 1] == '\n');
        } else if i > n + t + 1 {
            assert(Version::token(line.version.0, line.version.1)[i - n - t - 2] == '\n');
        }
    }
}

/// A valid request line whose target holds no space is read back from its
/// own text: rendering then reading gives the same line.
pub proof fn law_rendered_line_reads_back(line: RequestLine)
    requires
        line.is_valid(),
        !line.target.contains(' '),
    ensures
        RequestStatus::spec_from(line.text()) == Ok::<RequestLine, ErrorKind>(line),
{
    let name = line.method.name();
    let token = Version::token(line.version.0, line.version.1);
    let tail = line.target + seq![' '] + token;
    lemma_name_is_one_word(line.method);
    lemma_token_is_one_word(line.version.0, line.version.1);
    assert(line.text() =~= name + seq![' '] + tail);
    lemma_split_after(name, tail, ' ');
    lemma_split_after(line.target, token, ' ');
    lemma_split_whole(token, ' ');
    law_name_round_trip(line.method, name);
    law_token_reads_back(line.version.0, line.version.1);
}

} // verus!
