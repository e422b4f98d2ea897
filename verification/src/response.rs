//! A response: its first line and its fields.
use crate::error::{ErrorKind, ParseError};
use crate::field::{Field, FieldModel};
use crate::head::{
    all_readable, crlf, field_lines, fields_from, fields_text, head_text, lemma_block_lines,
    lemma_block_reads_back, lemma_fields_block, lemma_fields_end, lemma_fields_last_refused,
    lemma_fields_run_out,
    lemma_fields_settled, lemma_lines_of_after, lemma_lines_of_cut, lines_of, models,
    read_fields, render_head, scan_fields, split_head_lines, texts, Progress,
};
use crate::status_code::StatusCode;
use crate::response_status::{
    law_rendered_line_reads_back, lemma_line_is_one_line, ResponseLine, ResponseStatus,
};
use crate::text::{find_from, lemma_find_from, splitn};
use crate::version::Version;
use vstd::prelude::*;
use vstd::string::*;

verus! {

/// What a response holds: its first line and its fields, in their order.
pub struct ResponseModel {
    pub line: ResponseLine,
    pub fields: Seq<FieldModel>,
}

impl ResponseModel {
    /// The response as it stands on the wire, up to and with the empty line.
    pub open spec fn text(self) -> Seq<char> {
        head_text(self.line.text(), self.fields)
    }
}

/// A response.
#[derive(Debug, PartialEq, Eq)]
pub struct Response {
    line: ResponseStatus,
    fields: Vec<Field>,
}

impl View for Response {
    type V = ResponseModel;

    closed spec fn view(&self) -> ResponseModel {
        ResponseModel { line: self.line@, fields: models(self.fields@) }
    }
}

impl Response {
    /// The response that a list of lines holds, or why it holds none. The
    /// first line is the status line; the fields follow, up to the first
    /// empty line. Without a first line the stream ended too early. The
    /// first failure decides the error; lines after the empty one are not
    /// looked at.
    pub open spec fn spec_from_lines(lines: Seq<Seq<char>>) -> Result<ResponseModel, ErrorKind> {
        if lines.len() == 0 {
            Err(ErrorKind::UnexpectedEof)
        } else {
            match ResponseStatus::spec_from(lines[0]) {
                Err(kind) => Err(kind),
                Ok(line) => match fields_from(lines, 1) {
                    Err(kind) => Err(kind),
                    Ok(fields) => Ok(ResponseModel { line, fields }),
                },
            }
        }
    }

    /// The response that a text holds, or why it holds none.
    pub open spec fn spec_parse(text: Seq<char>) -> Result<ResponseModel, ErrorKind> {
        Response::spec_from_lines(lines_of(text))
    }

    /// Builds a response from its first line and its fields.
    pub fn new(line: ResponseStatus, fields: Vec<Field>) -> (response: Response)
        ensures
            response@ == (ResponseModel { line: line@, fields: models(fields@) }),
    {
        Response { line, fields }
    }

    /// Reads a response from the lines of a stream, each without its line
    /// break.
    pub fn from_lines(lines: &Vec<String>) -> (r: Result<Response, ParseError>)
        ensures
            match Response::spec_from_lines(texts(lines@)) {
                Ok(model) => r matches Ok(response) && response@ == model,
                Err(kind) => r matches Err(e) && e@ == kind.text(),
            },
    {
        if lines.len() == 0 {
            return Err(ParseError::of(ErrorKind::UnexpectedEof));
        }
        let line = match ResponseStatus::from(lines[0].clone()) {
            Ok(line) => line,
            Err(e) => {
                return Err(e);
            },
        };
        match read_fields(lines, 1) {
            Ok(fields) => Ok(Response { line, fields }),
            Err(e) => Err(e),
        }
    }

    /// Decides, from the lines read so far, whether to read on. `ended`
    /// says that the stream has no more lines to give. As long as the
    /// lines end too early and the stream has not ended, one more line is
    /// needed; in every other case the outcome is final.
    pub fn advance(lines: &Vec<String>, ended: bool) -> (p: Progress<Response>)
        ensures
            match Response::spec_from_lines(texts(lines@)) {
                Ok(model) => p matches Progress::Done(Ok(response)) && response@ == model,
                Err(kind) => if kind == ErrorKind::UnexpectedEof && !ended {
                    p is NeedLine
                } else {
                    p matches Progress::Done(Err(e)) && e@ == kind.text()
                },
            },
    {
        if lines.len() == 0 {
            return if ended {
                Progress::Done(Err(ParseError::of(ErrorKind::UnexpectedEof)))
            } else {
                Progress::NeedLine
            };
        }
        let line = match ResponseStatus::from(lines[0].clone()) {
            Ok(line) => line,
            Err(e) => {
                return Progress::Done(Err(e));
            },
        };
        match scan_fields(lines, 1) {
            Ok(fields) => Progress::Done(Ok(Response { line, fields })),
            Err(kind) => {
                if !ended && kind == ErrorKind::UnexpectedEof {
                    Progress::NeedLine
                } else {
                    Progress::Done(Err(ParseError::of(kind)))
                }
            },
        }
    }

    /// Reads a response from the text of a stream.
    pub fn parse(text: &str) -> (r: Result<Response, ParseError>)
        ensures
            match Response::spec_parse(text@) {
                Ok(model) => r matches Ok(response) && response@ == model,
                Err(kind) => r matches Err(e) && e@ == kind.text(),
            },
    {
        let lines = split_head_lines(text);
        proof {
            let all = lines_of(text@);
            let read = texts(lines@);
            if read.len() < all.len() {
                let j = choose|j: int| 1 <= j < read.len() && (#[trigger] read[j]).len() == 0;
                if ResponseStatus::spec_from(read[0]) is Ok {
                    lemma_fields_end(read, 1, j);
                }
                assert(all =~= read + all.skip(read.len() as int));
                law_more_lines_change_nothing(read, all.skip(read.len() as int));
            } else {
                assert(read =~= all);
            }
        }
        Response::from_lines(&lines)
    }

    /// The version named in the first line.
    pub fn version(&self) -> (v: &Version)
        ensures
            v@ == self@.line.version,
    {
        &self.line.version
    }

    /// The status named in the first line.
    pub fn status(&self) -> (s: &StatusCode)
        ensures
            *s == self@.line.status,
    {
        &self.line.status
    }

    /// The fields, in the order in which they were read or given.
    pub fn fields(&self) -> (f: &Vec<Field>)
        ensures
            models(f@) == self@.fields,
    {
        &self.fields
    }

    /// Renders the response as it stands on the wire.
    pub fn to_string(&self) -> (s: String)
        ensures
            s@ == self@.text(),
    {
        render_head(self.line.to_string(), &self.fields)
    }
}

/// A response that was read in full, or refused, stays what it is whatever
/// lines follow: only an early end can be mended by more lines.
pub proof fn law_more_lines_change_nothing(lines: Seq<Seq<char>>, more: Seq<Seq<char>>)
    requires
        Response::spec_from_lines(lines) != Err::<ResponseModel, ErrorKind>(
            ErrorKind::UnexpectedEof,
        ),
    ensures
        Response::spec_from_lines(lines + more) == Response::spec_from_lines(lines),
{
    if ResponseStatus::spec_from(lines[0]) is Ok {
        lemma_fields_settled(lines, more, 1);
    }
}

/// Cutting a well-formed response at the end of a line, before its empty
/// line has been read in full, leaves a text that ends too early.
pub proof fn law_cut_at_line_end(text: Seq<char>, k: int)
    requires
        Response::spec_parse(text) is Ok,
        0 <= k <= text.len(),
        k == 0 || text[k - 1] == '\n',
        lines_of(text.take(k)).len() <= 1 + Response::spec_parse(text)->Ok_0.fields.len(),
    ensures
        Response::spec_parse(text.take(k)) == Err::<ResponseModel, ErrorKind>(
            ErrorKind::UnexpectedEof,
        ),
{
    let all = lines_of(text);
    let cut = lines_of(text.take(k));
    lemma_lines_of_cut(text, k);
    if cut.len() > 0 {
        assert forall|i: int| 1 <= i < cut.len() implies (#[trigger] cut[i]).len() > 0
            && Field::spec_from(cut[i]) is Some by {
            lemma_fields_block(all, 1, i);
        }
        lemma_fields_run_out(cut, 1);
    }
}

/// Cutting a well-formed response inside a line, before its empty line has
/// been read in full, leaves the piece of that line as the last line, and
/// the piece decides. Inside the first line, the text is refused as the
/// piece is refused as a status line; a piece that is a status line of
/// its own ends too early. Inside a later line, the text is refused for a
/// piece that holds no field, and ends too early for one that does.
pub proof fn law_cut_inside_line(text: Seq<char>, k: int)
    requires
        Response::spec_parse(text) is Ok,
        0 < k <= text.len(),
        text[k - 1] != '\n',
        lines_of(text.take(k)).len() <= 2 + Response::spec_parse(text)->Ok_0.fields.len(),
    ensures
        ({
            let cut = lines_of(text.take(k));
            let piece = cut.last();
            Response::spec_parse(text.take(k)) == if cut.len() == 1 {
                match ResponseStatus::spec_from(piece) {
                    Err(kind) => Err::<ResponseModel, ErrorKind>(kind),
                    Ok(_) => Err(ErrorKind::UnexpectedEof),
                }
            } else {
                match Field::spec_from(piece) {
                    None => Err::<ResponseModel, ErrorKind>(ErrorKind::InvalidField),
                    Some(_) => Err(ErrorKind::UnexpectedEof),
                }
            }
        }),
{
    let all = lines_of(text);
    let cut = lines_of(text.take(k));
    lemma_lines_of_cut(text, k);
    if cut.len() == 1 {
        if ResponseStatus::spec_from(cut[0]) is Ok {
            lemma_fields_run_out(cut, 1);
        }
    } else {
        assert(cut[0] == cut.drop_last()[0]);
        assert forall|i: int| 1 <= i < cut.len() - 1 implies (#[trigger] cut[i]).len() > 0
            && Field::spec_from(cut[i]) is Some by {
            lemma_fields_block(all, 1, i);
            assert(cut[i] == cut.drop_last()[i]);
        }
        if Field::spec_from(cut.last()) is Some {
            lemma_fields_run_out(cut, 1);
        } else {
            lemma_fields_last_refused(cut, 1);
        }
    }
}

/// Cutting a response inside its first line, at a place that leaves fewer
/// than two spaces, leaves an invalid response.
pub proof fn law_cut_in_first_line(text: Seq<char>, k: int)
    requires
        0 < k <= find_from(text, '\n', 0),
        splitn(text.take(k), ' ', 3).len() != 3,
    ensures
        Response::spec_parse(text.take(k)) == Err::<ResponseModel, ErrorKind>(
            ErrorKind::InvalidResponse,
        ),
{
    let part = text.take(k);
    lemma_find_from(text, '\n', 0);
    lemma_find_from(part, '\n', 0);
}

/// A response is read back from its own text: rendering then reading gives
/// the same first line and the same fields in the same order, whatever
/// follows the empty line. This holds of every response whose first line is
/// valid and whose fields are valid with names that hold no colon.
pub proof fn law_rendered_response_reads_back(model: ResponseModel, rest: Seq<char>)
    requires
        model.line.is_valid(),
        all_readable(model.fields),
    ensures
        Response::spec_parse(model.text() + rest) == Ok::<ResponseModel, ErrorKind>(model),
{
    let first = model.line.text();
    let block = fields_text(model.fields) + crlf() + rest;
    assert(model.text() + rest =~= first + crlf() + block);
    lemma_line_is_one_line(model.line);
    lemma_lines_of_after(first, block);
    lemma_block_lines(model.fields, rest);
    lemma_block_reads_back(seq![first], model.fields, lines_of(rest));
    law_rendered_line_reads_back(model.line);
    let lines = lines_of(model.text() + rest);
    assert(lines =~= seq![first] + field_lines(model.fields) + seq![Seq::<char>::empty()]
        + lines_of(rest));
}

} // verus!
