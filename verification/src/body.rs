//! The body of a message: a run of bytes of known length.
use crate::error::{ErrorKind, ParseError};
use vstd::prelude::*;
use vstd::string::*;
use vstd::utf8::*;

verus! {

/// The body of a message. Its view is its bytes.
#[derive(Debug, PartialEq, Eq)]
pub struct Body {
    content: Vec<u8>,
}

impl View for Body {
    type V = Seq<u8>;

    closed spec fn view(&self) -> Seq<u8> {
        self.content@
    }
}

/// The text that a lossy decoding makes of a run of bytes: the text that
/// the bytes encode where they are valid UTF-8, and otherwise a text in
/// which replacement characters stand for what is not.
pub uninterp spec fn lossy_text(bytes: Seq<u8>) -> Seq<char>;

/// `String::from_utf8_lossy` of the standard library. It never fails; on
/// valid UTF-8 it gives the text that the bytes encode.
#[verifier::external_body]
fn decode_lossy(bytes: &Vec<u8>) -> (s: String)
    ensures
        s@ == lossy_text(bytes@),
        valid_utf8(bytes@) ==> s@ == decode_utf8(bytes@),
{
    String::from_utf8_lossy(bytes).into_owned()
}

impl Body {
    /// Takes the first `length` bytes of `stream` as the body. A stream
    /// that holds fewer is truncated.
    pub fn parse(stream: &[u8], length: usize) -> (r: Result<Body, ParseError>)
        ensures
            length <= stream@.len() ==> (r matches Ok(body) && body@ == stream@.take(length as int)),
            length > stream@.len() ==> (r matches Err(e) && e@ == ErrorKind::Truncated.text()),
    {
        if length > stream.len() {
            return Err(ParseError::of(ErrorKind::Truncated));
        }
        let mut content: Vec<u8> = Vec::new();
        let mut i: usize = 0;
        while i < length
            invariant
                i <= length <= stream@.len(),
                content@ == stream@.take(i as int),
            decreases length - i,
        {
            content.push(stream[i]);
            i += 1;
        }
        Ok(Body { content })
    }

    /// Wraps the bytes of a text as a body.
    pub fn from(string: String) -> (body: Body)
        ensures
            body@ == encode_utf8(string@),
    {
        Body { content: string.as_str().as_bytes_vec() }
    }

    /// The number of bytes in the body.
    pub fn content_length(&self) -> (n: usize)
        ensures
            n == self@.len(),
    {
        self.content.len()
    }

    /// The bytes of the body.
    pub fn as_bytes(&self) -> (bytes: &Vec<u8>)
        ensures
            bytes@ == self@,
    {
        &self.content
    }

    /// Renders the body as text, for display. Bytes that are no valid
    /// UTF-8 are replaced, never refused.
    pub fn to_string(&self) -> (s: String)
        ensures
            s@ == lossy_text(self@),
            valid_utf8(self@) ==> s@ == decode_utf8(self@),
            self@.len() == 0 ==> s@.len() == 0,
    {
        decode_lossy(&self.content)
    }
}

/// The bytes of a body made from a text are valid UTF-8 and decode to that
/// text: such a body is rendered as the text it was made from.
pub proof fn law_text_body_decodes(text: Seq<char>)
    ensures
        valid_utf8(encode_utf8(text)),
        decode_utf8(encode_utf8(text)) == text,
{
    encode_utf8_valid_utf8(text);
    encode_utf8_decode_utf8(text);
}

} // verus!
