//! The request method: one of nine standard names, matched exactly.
use crate::error::{ErrorKind, ParseError};
use crate::text::same_text;
use vstd::prelude::*;
use vstd::string::*;

verus! {

/// The standard request methods. There are no others.
#[derive(Clone, Copy, Debug, PartialEq, Eq, Structural)]
pub enum Method {
    GET,
    HEAD,
    POST,
    PUT,
    DELETE,
    TRACE,
    OPTIONS,
    CONNECT,
    PATCH,
}

impl Method {
    /// The name of the method as it stands on the wire.
    pub open spec fn name(self) -> Seq<char> {
        match self {
            Method::GET => "GET"@,
            Method::HEAD => "HEAD"@,
            Method::POST => "POST"@,
            Method::PUT => "PUT"@,
            Method::DELETE => "DELETE"@,
            Method::TRACE => "TRACE"@,
            Method::OPTIONS => "OPTIONS"@,
            Method::CONNECT => "CONNECT"@,
            Method::PATCH => "PATCH"@,
        }
    }

    /// The method that a token names: the one whose name the token is,
    /// letter for letter and in upper case.
    pub open spec fn spec_from(token: Seq<char>) -> Option<Method> {
        if token == Method::GET.name() {
            Some(Method::GET)
        } else if token == Method::HEAD.name() {
            Some(Method::HEAD)
        } else if token == Method::POST.name() {
            Some(Method::POST)
        } else if token == Method::PUT.name() {
            Some(Method::PUT)
        } else if token == Method::DELETE.name() {
            Some(Method::DELETE)
        } else if token == Method::TRACE.name() {
            Some(Method::TRACE)
        } else if token == Method::OPTIONS.name() {
            Some(Method::OPTIONS)
        } else if token == Method::CONNECT.name() {
            Some(Method::CONNECT)
        } else if token == Method::PATCH.name() {
            Some(Method::PATCH)
        } else {
            None
        }
    }

    /// Reads a method token.
    pub fn from(method: &str) -> (r: Result<Method, ParseError>)
        ensures
            match Method::spec_from(method@) {
                Some(m) => r == Ok::<Method, ParseError>(m),
                None => r matches Err(e) && e@ == ErrorKind::InvalidMethod.text(),
            },
    {
        if same_text(method, "GET") {
            Ok(Method::GET)
        } else if same_text(method, "HEAD") {
            Ok(Method::HEAD)
        } else if same_text(method, "POST") {
            Ok(Method::POST)
        } else if same_text(method, "PUT") {
            Ok(Method::PUT)
        } else if same_text(method, "DELETE") {
            Ok(Method::DELETE)
        } else if same_text(method, "TRACE") {
            Ok(Method::TRACE)
        } else if same_text(method, "OPTIONS") {
            Ok(Method::OPTIONS)
        } else if same_text(method, "CONNECT") {
            Ok(Method::CONNECT)
        } else if same_text(method, "PATCH") {
            Ok(Method::PATCH)
        } else {
            Err(ParseError::of(ErrorKind::InvalidMethod))
        }
    }

    /// The name of the method.
    pub fn as_str(&self) -> (s: &'static str)
        ensures
            s@ == self.name(),
    {
        match self {
            Method::GET => "GET",
            Method::HEAD => "HEAD",
            Method::POST => "POST",
            Method::PUT => "PUT",
            Method::DELETE => "DELETE",
            Method::TRACE => "TRACE",
            Method::OPTIONS => "OPTIONS",
            Method::CONNECT => "CONNECT",
            Method::PATCH => "PATCH",
        }
    }

    /// Renders the method as its name.
    pub fn to_string(&self) -> (s: String)
        ensures
            s@ == self.name(),
    {
        String::from_str(self.as_str())
    }
}

/// No two methods share a name.
pub proof fn lemma_names_differ(a: Method, b: Method)
    ensures
        a.name() == b.name() ==> a == b,
{
    reveal_strlit("GET");
    reveal_strlit("HEAD");
    reveal_strlit("POST");
    reveal_strlit("PUT");
    reveal_strlit("DELETE");
    reveal_strlit("TRACE");
    reveal_strlit("OPTIONS");
    reveal_strlit("CONNECT");
    reveal_strlit("PATCH");
    if a != b {
        let x = a.name();
        let y = b.name();
        assert(x.len() != y.len() || x[0] != y[0] || x[1] != y[1]);
    }
}

/// The name of a method is made of letters only: it holds no space and no
/// line feed.
pub proof fn lemma_name_is_one_word(m: Method)
    ensures
        !m.name().contains(' '),
        !m.name().contains('\n'),
{
    reveal_strlit("GET");
    reveal_strlit("HEAD");
    reveal_strlit("POST");
    reveal_strlit("PUT");
    reveal_strlit("DELETE");
    reveal_strlit("TRACE");
    reveal_strlit("OPTIONS");
    reveal_strlit("CONNECT");
    reveal_strlit("PATCH");
    let name = m.name();
    assert forall|i: int| 0 <= i < name.len() implies 'A' <= #[trigger] name[i] <= 'Z' by {}
}

/// Every method is read back from its own name, and a token is read as a
/// method only if it is that method's name: reading then rendering gives
/// the token back, and every other token is refused.
pub proof fn law_name_round_trip(m: Method, token: Seq<char>)
    ensures
        Method::spec_from(m.name()) == Some(m),
        Method::spec_from(token) == Some(m) <==> token == m.name(),
{
    lemma_names_differ(m, Method::GET);
    lemma_names_differ(m, Method::HEAD);
    lemma_names_differ(m, Method::POST);
    lemma_names_differ(m, Method::PUT);
    lemma_names_differ(m, Method::DELETE);
    lemma_names_differ(m, Method::TRACE);
    lemma_names_differ(m, Method::OPTIONS);
    lemma_names_differ(m, Method::CONNECT);
    lemma_names_differ(m, Method::PATCH);
}

} // verus!
