//! Building a message piece by piece and turning it into wire bytes.
use crate::error::ErrorKind;
use crate::field::{Field, FieldModel};
use crate::head::{all_readable, head_text, models, render_head};
use crate::method::Method;
use crate::request::{law_rendered_request_reads_back, Request, RequestModel};
use crate::request_status::{RequestLine, RequestStatus};
use crate::response::{law_rendered_response_reads_back, Response, ResponseModel};
use crate::response_status::{ResponseLine, ResponseStatus};
use crate::status_code::StatusCode;
use vstd::prelude::*;
use vstd::string::*;
use vstd::utf8::*;

verus! {

/// The first line of a message under construction.
#[derive(Debug, PartialEq, Eq)]
enum Status {
    Request(RequestStatus),
    Response(ResponseStatus),
}

/// What the first line of a message holds.
pub enum StartLine {
    Request(RequestLine),
    Response(ResponseLine),
}

impl StartLine {
    /// The line as text.
    pub open spec fn text(self) -> Seq<char> {
        match self {
            StartLine::Request(line) => line.text(),
            StartLine::Response(line) => line.text(),
        }
    }
}

impl View for Status {
    type V = StartLine;

    closed spec fn view(&self) -> StartLine {
        match self {
            Status::Request(line) => StartLine::Request(line@),
            Status::Response(line) => StartLine::Response(line@),
        }
    }
}

/// What a message under construction holds so far.
pub struct MessageModel {
    pub start: StartLine,
    pub fields: Seq<FieldModel>,
    pub body: Seq<char>,
}

impl MessageModel {
    /// The message as text: the head, then the body as it is, with nothing
    /// after it.
    pub open spec fn text(self) -> Seq<char> {
        head_text(self.start.text(), self.fields) + self.body
    }
}

/// A message under construction: a first line fixed at the start, fields
/// added in order, and a body.
#[derive(Debug, PartialEq, Eq)]
pub struct MessageBuilder {
    status: Status,
    fields: Vec<Field>,
    body: String,
}

impl View for MessageBuilder {
    type V = MessageModel;

    closed spec fn view(&self) -> MessageModel {
        MessageModel { start: self.status@, fields: models(self.fields@), body: self.body@ }
    }
}

impl MessageBuilder {
    /// Starts a request with a method and a target, at version 1.1, with no
    /// fields and an empty body.
    pub fn request(method: Method, target: String) -> (builder: MessageBuilder)
        ensures
            builder@ == (MessageModel {
                start: StartLine::Request(
                    RequestLine { version: (1, 1), method, target: target@ },
                ),
                fields: Seq::empty(),
                body: Seq::empty(),
            }),
    {
        let status = Status::Request(RequestStatus::new(method, target));
        let builder = MessageBuilder { status, fields: Vec::new(), body: String::new() };
        assert(models(builder.fields@) =~= Seq::<FieldModel>::empty());
        builder
    }

    /// Starts a response with a status, at version 1.1, with no fields and
    /// an empty body.
    pub fn response(code: StatusCode) -> (builder: MessageBuilder)
        ensures
            builder@ == (MessageModel {
                start: StartLine::Response(ResponseLine { version: (1, 1), status: code }),
                fields: Seq::empty(),
                body: Seq::empty(),
            }),
    {
        let status = Status::Response(ResponseStatus::new(code));
        let builder = MessageBuilder { status, fields: Vec::new(), body: String::new() };
        assert(models(builder.fields@) =~= Seq::<FieldModel>::empty());
        builder
    }

    /// Adds a field after those already there.
    pub fn add_field(&mut self, field: Field) -> (builder: &mut Self)
        ensures
            builder@ == (MessageModel {
                fields: old(self)@.fields.push(field@),
                ..old(self)@
            }),
            *final(self) == *final(builder),
    {
        self.fields.push(field);
        assert(models(self.fields@) =~= models(old(self).fields@).push(field@));
        self
    }

    /// Adds a field, given by name and value, after those already there.
    pub fn add_field2(&mut self, name: &str, value: &str) -> (builder: &mut Self)
        ensures
            builder@ == (MessageModel {
                fields: old(self)@.fields.push(FieldModel { name: name@, value: value@ }),
                ..old(self)@
            }),
            *final(self) == *final(builder),
    {
        self.add_field(Field::new(String::from_str(name), String::from_str(value)))
    }

    /// Sets the body, in place of the one that was there.
    pub fn add_body(&mut self, body: String) -> (builder: &mut Self)
        ensures
            builder@ == (MessageModel { body: body@, ..old(self)@ }),
            *final(self) == *final(builder),
    {
        self.body = body;
        self
    }

    /// Ends the construction: the bytes of the message as it goes on the
    /// wire.
    pub fn into_bytes(self) -> (bytes: Vec<u8>)
        ensures
            bytes@ == encode_utf8(self@.text()),
    {
        let line = match &self.status {
            Status::Request(status) => status.to_string(),
            Status::Response(status) => status.to_string(),
        };
        let mut message = render_head(line, &self.fields);
        message.append(self.body.as_str());
        message.as_str().as_bytes_vec()
    }
}

/// What a builder of a request gives is read back as that request: its
/// bytes are the UTF-8 encoding of a text that decodes to itself and holds
/// the first line and the fields that were given, in their order; the body
/// is not looked at. This holds where the first line is valid, the target
/// holds neither a space nor a line feed, and the fields are valid with
/// names that hold no colon.
pub proof fn law_built_request_reads_back(message: MessageModel)
    requires
        message.start is Request,
        message.start->Request_0.is_valid(),
        !message.start->Request_0.target.contains(' '),
        !message.start->Request_0.target.contains('\n'),
        all_readable(message.fields),
    ensures
        decode_utf8(encode_utf8(message.text())) == message.text(),
        Request::spec_parse(message.text()) == Ok::<RequestModel, ErrorKind>(
            RequestModel { line: message.start->Request_0, fields: message.fields },
        ),
{
    encode_utf8_decode_utf8(message.text());
    law_rendered_request_reads_back(
        RequestModel { line: message.start->Request_0, fields: message.fields },
        message.body,
    );
}

/// What a builder of a response gives is read back as that response: its
/// bytes are the UTF-8 encoding of a text that decodes to itself and holds
/// the first line and the fields that were given, in their order; the body
/// is not looked at. This holds where the first line is valid and the
/// fields are valid with names that hold no colon.
pub proof fn law_built_response_reads_back(message: MessageModel)
    requires
        message.start is Response,
        message.start->Response_0.is_valid(),
        all_readable(message.fields),
    ensures
        decode_utf8(encode_utf8(message.text())) == message.text(),
        Response::spec_parse(message.text()) == Ok::<ResponseModel, ErrorKind>(
            ResponseModel { line: message.start->Response_0, fields: message.fields },
        ),
{
    encode_utf8_decode_utf8(message.text());
    law_rendered_response_reads_back(
        ResponseModel { line: message.start->Response_0, fields: message.fields },
        message.body,
    );
}

} // verus!
