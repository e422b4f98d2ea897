//! A request: its first line and its fields.
use crate::error::{ErrorKind, ParseError};
use crate::field::{Field, FieldModel};
use crate::head::{
    all_readable, crlf, field_lines, fields_from, fields_text, head_text, lemma_block_lines,
    lemma_block_reads_back, lemma_fields_block, lemma_fields_end, lemma_fields_last_refused,
    lemma_fields_run_out,
    lemma_fields_settled, lemma_lines_of_after, lemma_lines_of_cut, lines_of, models,
    read_fields, render_head, scan_fields, split_head_lines, texts, Progress,
};
use crate::method::Method;
use crate::request_status::{
    law_rendered_line_reads_back, lemma_line_is_one_line, RequestLine, RequestStatus,
};
use crate::text::{find_from, lemma_find_from, split};
use crate::version::Version;
use vstd::prelude::*;
use vstd::string::*;

verus! {

/// What a request holds: its first line and its fields, in their order.
pub struct RequestModel {
    pub line: RequestLine,
    pub fields: Seq<FieldModel>,
}

impl RequestModel {
    /// The request as it stands on the wire, up to and with the empty line.
    pub open spec fn text(self) -> Seq<char> {
        head_text(self.line.text(), self.fields)
    }
}

/// A request.
#[derive(Debug, PartialEq, Eq)]
pub struct Request {
    line: RequestStatus,
    fields: Vec<Field>,
}

impl View for Request {
    type V = RequestModel;

    closed spec fn view(&self) -> RequestModel {
        RequestModel { line: self.line@, fields: models(self.fields@) }
    }
}

impl Request {
    /// The request that a list of lines holds, or why it holds none. The
    /// first line is the request line; the fields follow, up to the first
    /// empty line. Without a first line the stream ended too early. The
    /// first failure decides the error; lines after the empty one are not
    /// looked at.
    pub open spec fn spec_from_lines(lines: Seq<Seq<char>>) -> Result<RequestModel, ErrorKind> {
        if lines.len() == 0 {
            Err(ErrorKind::UnexpectedEof)
        } else {
            match RequestStatus::spec_from(lines[0]) {
                Err(kind) => Err(kind),
                Ok(line) => match fields_from(lines, 1) {
                    Err(kind) => Err(kind),
                    Ok(fields) => Ok(RequestModel { line, fields }),
                },
            }
        }
    }

    /// The request that a text holds, or why it holds none.
    pub open spec fn spec_parse(text: Seq<char>) -> Result<RequestModel, ErrorKind> {
        Request::spec_from_lines(lines_of(text))
    }

    /// Builds a request from its first line and its fields.
    pub fn new(line: RequestStatus, fields: Vec<Field>) -> (request: Request)
        ensures
            request@ == (RequestModel { line: line@, fields: models(fields@) }),
    {
        Request { line, fields }
    }

    /// Reads a request from the lines of a stream, each without its line
    /// break.
    pub fn from_lines(lines: &Vec<String>) -> (r: Result<Request, ParseError>)
        ensures
            match Request::spec_from_lines(texts(lines@)) {
                Ok(model) => r matches Ok(request) && request@ == model,
                Err(kind) => r matches Err(e) && e@ == kind.text(),
            },
    {
        if lines.len() == 0 {
            return Err(ParseError::of(ErrorKind::UnexpectedEof));
        }
        let line = match RequestStatus::from(lines[0].clone()) {
            Ok(line) => line,
            Err(e) => {
                return Err(e);
            },
        };
        match read_fields(lines, 1) {
            Ok(fields) => Ok(Request { line, fields }),
            Err(e) => Err(e),
        }
    }

    /// Decides, from the lines read so far, whether to read on. `ended`
    /// says that the stream has no more lines to give. As long as the
    /// lines end too early and the stream has not ended, one more line is
    /// needed; in every other case the outcome is final.
    pub fn advance(lines: &Vec<String>, ended: bool) -> (p: Progress<Request>)
        ensures
            match Request::spec_from_lines(texts(lines@)) {
                Ok(model) => p matches Progress::Done(Ok(request)) && request@ == model,
                Err(kind) => if kind == ErrorKind::UnexpectedEof && !ended {
                    p is NeedLine
                } else {
                    p matches Progress::Done(Err(e)) && e@ == kind.text()
                },
            },
    {
        if lines.len() == 0 {
            return if ended {
                Progress::Done(Err(ParseError::of(ErrorKind::UnexpectedEof)))
            } else {
                Progress::NeedLine
            };
        }
        let line = match RequestStatus::from(lines[0].clone()) {
            Ok(line) => line,
            Err(e) => {
                return Progress::Done(Err(e));
            },
        };
        match scan_fields(lines, 1) {
            Ok(fields) => Progress::Done(Ok(Request { line, fields })),
            Err(kind) => {
                if !ended && kind == ErrorKind::UnexpectedEof {
                    Progress::NeedLine
                } else {
                    Progress::Done(Err(ParseError::of(kind)))
                }
            },
        }
    }

    /// Reads a request from the text of a stream.
    pub fn parse(text: &str) -> (r: Result<Request, ParseError>)
        ensures
            match Request::spec_parse(text@) {
                Ok(model) => r matches Ok(request) && request@ == model,
                Err(kind) => r matches Err(e) && e@ == kind.text(),
            },
    {
        let lines = split_head_lines(text);
        proof {
            let all = lines_of(text@);
            let read = texts(lines@);
            if read.len() < all.len() {
                let j = choose|j: int| 1 <= j < read.len() && (#[trigger] read[j]).len() == 0;
                if RequestStatus::spec_from(read[0]) is Ok {
                    lemma_fields_end(read, 1, j);
                }
                assert(all =~= read + all.skip(read.len() as int));
                law_more_lines_change_nothing(read, all.skip(read.len() as int));
            } else {
                assert(read =~= all);
            }
        }
        Request::from_lines(&lines)
    }

    /// The version named in the first line.
    pub fn version(&self) -> (v: &Version)
        ensures
            v@ == self@.line.version,
    {
        &self.line.version
    }

    /// The method named in the first line.
    pub fn method(&self) -> (m: &Method)
        ensures
            *m == self@.line.method,
    {
        &self.line.method
    }

    /// The target named in the first line.
    pub fn target(&self) -> (t: &str)
        ensures
            t@ == self@.line.target,
    {
        self.line.target.as_str()
    }

    /// The fields, in the order in which they were read or given.
    pub fn fields(&self) -> (f: &Vec<Field>)
        ensures
            models(f@) == self@.fields,
    {
        &self.fields
    }

    /// Renders the request as it stands on the wire.
    pub fn to_string(&self) -> (s: String)
        ensures
            s@ == self@.text(),
    {
        render_head(self.line.to_string(), &self.fields)
    }
}

/// A request that was read in full, or refused, stays what it is whatever
/// lines follow: only an early end can be mended by more lines.
pub proof fn law_more_lines_change_nothing(lines: Seq<Seq<char>>, more: Seq<Seq<char>>)
    requires
        Request::spec_from_lines(lines) != Err::<RequestModel, ErrorKind>(
            ErrorKind::UnexpectedEof,
        ),
    ensures
        Request::spec_from_lines(lines + more) == Request::spec_from_lines(lines),
{
    if RequestStatus::spec_from(lines[0]) is Ok {
        lemma_fields_settled(lines, more, 1);
    }
}

/// Cutting a well-formed request at the end of a line, before its empty
/// line has been read in full, leaves a text that ends too early.
pub proof fn law_cut_at_line_end(text: Seq<char>, k: int)
    requires
        Request::spec_parse(text) is Ok,
        0 <= k <= text.len(),
        k == 0 || text[k - 1] == '\n',
        lines_of(text.take(k)).len() <= 1 + Request::spec_parse(text)->Ok_0.fields.len(),
    ensures
        Request::spec_parse(text.take(k)) == Err::<RequestModel, ErrorKind>(
            ErrorKind::UnexpectedEof,
        ),
{
    let all = lines_of(text);
    let cut = lines_of(text.take(k));
    lemma_lines_of_cut(text, k);
    if cut.len() > 0 {
        assert forall|i: int| 1 <= i < cut.len() implies (#[trigger] cut[i]).len() > 0
            && Field::spec_from(cut[i]) is Some by {
            lemma_fields_block(all, 1, i);
        }
        lemma_fields_run_out(cut, 1);
    }
}

/// Cutting a well-formed request inside a line, before its empty line has
/// been read in full, leaves the piece of that line as the last line, and
/// the piece decides. Inside the first line, the text is refused as the
/// piece is refused as a request line; a piece that is a request line of
/// its own ends too early. Inside a later line, the text is refused for a
/// piece that holds no field, and ends too early for one that does.
pub proof fn law_cut_inside_line(text: Seq<char>, k: int)
    requires
        Request::spec_parse(text) is Ok,
        0 < k <= text.len(),
        text[k - 1] != '\n',
        lines_of(text.take(k)).len() <= 2 + Request::spec_parse(text)->Ok_0.fields.len(),
    ensures
        ({
            let cut = lines_of(text.take(k));
            let piece = cut.last();
            Request::spec_parse(text.take(k)) == if cut.len() == 1 {
                match RequestStatus::spec_from(piece) {
                    Err(kind) => Err::<RequestModel, ErrorKind>(kind),
                    Ok(_) => Err(ErrorKind::UnexpectedEof),
                }
            } else {
                match Field::spec_from(piece) {
                    None => Err::<RequestModel, ErrorKind>(ErrorKind::InvalidField),
                    Some(_) => Err(ErrorKind::UnexpectedEof),
                }
            }
        }),
{
    let all = lines_of(text);
    let cut = lines_of(text.take(k));
    lemma_lines_of_cut(text, k);
    if cut.len() == 1 {
        if RequestStatus::spec_from(cut[0]) is Ok {
            lemma_fields_run_out(cut, 1);
        }
    } else {
        assert(cut[0] == cut.drop_last()[0]);
        assert forall|i: int| 1 <= i < cut.len() - 1 implies (#[trigger] cut[i]).len() > 0
            && Field::spec_from(cut[i]) is Some by {
            lemma_fields_block(all, 1, i);
            assert(cut[i] == cut.drop_last()[i]);
        }
        if Field::spec_from(cut.last()) is Some {
            lemma_fields_run_out(cut, 1);
        } else {
            lemma_fields_last_refused(cut, 1);
        }
    }
}

/// Cutting a request inside its first line, at a place that leaves fewer or
/// more than three pieces between spaces, leaves an invalid request.
pub proof fn law_cut_in_first_line(text: Seq<char>, k: int)
    requires
        0 < k <= find_from(text, '\n', 0),
        split(text.take(k), ' ').len() != 3,
    ensures
        Request::spec_parse(text.take(k)) == Err::<RequestModel, ErrorKind>(
            ErrorKind::InvalidRequest,
        ),
{
    let part = text.take(k);
    lemma_find_from(text, '\n', 0);
    lemma_find_from(part, '\n', 0);
}

/// A request is read back from its own text: rendering then reading gives
/// the same first line and the same fields in the same order, whatever
/// follows the empty line. This holds of every request whose first line is
/// valid, whose target holds neither a space nor a line feed, and whose
/// fields are valid with names that hold no colon.
pub proof fn law_rendered_request_reads_back(model: RequestModel, rest: Seq<char>)
    requires
        model.line.is_valid(),
        !model.line.target.contains(' '),
        !model.line.target.contains('\n'),
        all_readable(model.fields),
    ensures
        Request::spec_parse(model.text() + rest) == Ok::<RequestModel, ErrorKind>(model),
{
    let first = model.line.text();
    let block = fields_text(model.fields) + crlf() + rest;
    assert(model.text() + rest =~= first + crlf() + block);
    lemma_line_is_one_line(model.line);
    lemma_lines_of_after(first, block);
    lemma_block_lines(model.fields, rest);
    lemma_block_reads_back(seq![first], model.fields, lines_of(rest));
    law_rendered_line_reads_back(model.line);
    let lines = lines_of(model.text() + rest);
    assert(lines =~= seq![first] + field_lines(model.fields) + seq![Seq::<char>::empty()]
        + lines_of(rest));
}

} // verus!
