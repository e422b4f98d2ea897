//! What requests and responses share: the lines of a message, the block of
//! fields that follows the first line, and its rendering.
use crate::error::{ErrorKind, ParseError};
use crate::field::{law_rendered_field_reads_back, Field, FieldModel};
use crate::text::{
    chars_of, find_char, find_from, is_whitespace, lemma_find_from, lemma_find_from_after,
    lemma_find_from_skip, slice_of,
};
use vstd::prelude::*;
use vstd::string::*;

verus! {

/// The two characters that end a line on the wire.
pub open spec fn crlf() -> Seq<char> {
    seq!['\r', '\n']
}

/// A line without the carriage return at its end, if it has one.
pub open spec fn strip_cr(line: Seq<char>) -> Seq<char> {
    if line.len() > 0 && line.last() == '\r' {
        line.drop_last()
    } else {
        line
    }
}

/// The lines of a text. A line ends with a line feed; the line feed, and a
/// carriage return right before it, are not part of the line. What follows
/// the last line feed is a line too, as it stands, unless nothing follows.
pub open spec fn lines_of(text: Seq<char>) -> Seq<Seq<char>>
    decreases text.len(),
{
    let i = find_from(text, '\n', 0);
    if text.len() == 0 {
        Seq::empty()
    } else if 0 <= i < text.len() {
        seq![strip_cr(text.take(i))] + lines_of(text.skip(i + 1))
    } else {
        seq![text]
    }
}

/// The texts of a list of strings.
pub open spec fn texts(lines: Seq<String>) -> Seq<Seq<char>> {
    Seq::new(lines.len(), |k: int| lines[k]@)
}

/// What a list of fields holds.
pub open spec fn models(fields: Seq<Field>) -> Seq<FieldModel> {
    Seq::new(fields.len(), |k: int| fields[k]@)
}

/// Whether a list of lines holds the whole head of a message: an empty
/// line stands somewhere after the first line.
pub open spec fn has_end(lines: Seq<Seq<char>>) -> bool {
    exists|j: int| 1 <= j < lines.len() && (#[trigger] lines[j]).len() == 0
}

/// Splits lines off the start of a text: all of them, or, where `head_only`
/// is set, no more than it takes to hold the head of a message.
fn scan_lines(text: &str, head_only: bool) -> (lines: Vec<String>)
    ensures
        texts(lines@).len() <= lines_of(text@).len(),
        texts(lines@) == lines_of(text@).take(lines.len() as int),
        lines.len() == lines_of(text@).len() || (head_only && has_end(texts(lines@))),
        head_only ==> forall|j: int|
            1 <= j < lines.len() - 1 ==> (#[trigger] texts(lines@)[j]).len() > 0,
{
    let v = chars_of(text);
    let mut lines: Vec<String> = Vec::new();
    let mut start: usize = 0;
    assert(v@.skip(0) =~= v@);
    while start < v.len()
        invariant_except_break
            head_only ==> forall|j: int|
                1 <= j < lines.len() ==> (#[trigger] texts(lines@)[j]).len() > 0,
        invariant
            v@ == text@,
            start <= v.len(),
            lines_of(v@) == texts(lines@) + lines_of(v@.skip(start as int)),
        ensures
            lines_of(v@) == texts(lines@) + lines_of(v@.skip(start as int)),
            start >= v.len() || (head_only && has_end(texts(lines@))),
            head_only ==> forall|j: int|
                1 <= j < lines.len() - 1 ==> (#[trigger] texts(lines@)[j]).len() > 0,
        decreases v.len() - start,
    {
        let ghost rest = v@.skip(start as int);
        let ghost before = texts(lines@);
        let i = find_char(&v, '\n', start);
        proof {
            lemma_find_from_skip(v@, '\n', start as int, 0);
        }
        if i >= v.len() {
            lines.push(slice_of(text, start, v.len()));
            assert(texts(lines@) =~= before.push(v@.subrange(start as int, v.len() as int)));
            start = v.len();
        } else {
            let end: usize = if i > start && v[i - 1] == '\r' {
                i - 1
            } else {
                i
            };
            let empty = end == start;
            lines.push(slice_of(text, start, end));
            proof {
                assert(strip_cr(rest.take(i - start)) =~= v@.subrange(start as int, end as int));
                assert(rest.skip(i - start + 1) =~= v@.skip(i + 1));
                assert(texts(lines@) =~= before.push(v@.subrange(start as int, end as int)));
            }
            start = i + 1;
            if head_only && empty && lines.len() >= 2 {
                assert(texts(lines@)[lines.len() - 1].len() == 0);
                break;
            }
        }
    }
    proof {
        let got = texts(lines@);
        let left = lines_of(v@.skip(start as int));
        assert(got =~= (got + left).take(got.len() as int));
        if start >= v.len() {
            assert(left.len() == 0);
        }
    }
    lines
}

/// Splits a text into its lines.
pub fn split_lines(text: &str) -> (lines: Vec<String>)
    ensures
        texts(lines@) == lines_of(text@),
{
    let lines = scan_lines(text, false);
    assert(lines_of(text@).take(lines.len() as int) =~= lines_of(text@));
    lines
}

/// Splits off the lines at the start of a text that hold the head of a
/// message: the lines up to the first empty line after the first line, or
/// all lines where there is none.
pub fn split_head_lines(text: &str) -> (lines: Vec<String>)
    ensures
        texts(lines@).len() <= lines_of(text@).len(),
        texts(lines@) == lines_of(text@).take(lines.len() as int),
        lines.len() == lines_of(text@).len() || has_end(texts(lines@)),
        forall|j: int| 1 <= j < lines.len() - 1 ==> (#[trigger] texts(lines@)[j]).len() > 0,
{
    scan_lines(text, true)
}

/// The fields that the lines from `at` on hold, up to the first empty line,
/// or why there are none. Every line before the empty one must hold a field,
/// and the first that does not decides the error. If the lines run out
/// before an empty one is met, the stream ended too early.
pub open spec fn fields_from(lines: Seq<Seq<char>>, at: int) -> Result<Seq<FieldModel>, ErrorKind>
    decreases lines.len() - at,
{
    if at < 0 || at >= lines.len() {
        Err(ErrorKind::UnexpectedEof)
    } else if lines[at].len() == 0 {
        Ok(Seq::empty())
    } else {
        match Field::spec_from(lines[at]) {
            None => Err(ErrorKind::InvalidField),
            Some(field) => match fields_from(lines, at + 1) {
                Err(kind) => Err(kind),
                Ok(rest) => Ok(seq![field] + rest),
            },
        }
    }
}

/// Reads the block of fields that starts at line `at`, and says of a
/// failure what kind it is.
pub fn scan_fields(lines: &Vec<String>, at: usize) -> (r: Result<Vec<Field>, ErrorKind>)
    ensures
        match fields_from(texts(lines@), at as int) {
            Ok(fields) => r matches Ok(v) && models(v@) == fields,
            Err(kind) => r == Err::<Vec<Field>, ErrorKind>(kind),
        },
{
    let ghost all = texts(lines@);
    let mut fields: Vec<Field> = Vec::new();
    let mut i: usize = at;
    while i < lines.len()
        invariant
            at <= i,
            all == texts(lines@),
            match fields_from(all, i as int) {
                Ok(rest) => fields_from(all, at as int) == Ok::<Seq<FieldModel>, ErrorKind>(
                    models(fields@) + rest,
                ),
                Err(kind) => fields_from(all, at as int) == Err::<Seq<FieldModel>, ErrorKind>(
                    kind,
                ),
            },
        decreases lines.len() - i,
    {
        if lines[i].as_str().unicode_len() == 0 {
            return Ok(fields);
        }
        let ghost before = fields@;
        match Field::from(lines[i].clone()) {
            Err(_) => {
                return Err(ErrorKind::InvalidField);
            },
            Ok(field) => {
                fields.push(field);
                proof {
                    let model = Field::spec_from(all[i as int])->0;
                    match fields_from(all, i + 1) {
                        Ok(rest) => {
                            assert(models(before) + (seq![model] + rest) =~= models(fields@)
                                + rest);
                        },
                        Err(_) => {},
                    }
                }
            },
        }
        i += 1;
    }
    Err(ErrorKind::UnexpectedEof)
}

/// Reads the block of fields that starts at line `at`.
pub fn read_fields(lines: &Vec<String>, at: usize) -> (r: Result<Vec<Field>, ParseError>)
    ensures
        match fields_from(texts(lines@), at as int) {
            Ok(fields) => r matches Ok(v) && models(v@) == fields,
            Err(kind) => r matches Err(e) && e@ == kind.text(),
        },
{
    match scan_fields(lines, at) {
        Ok(fields) => Ok(fields),
        Err(kind) => Err(ParseError::of(kind)),
    }
}

/// What whoever reads a stream line by line is to do next.
#[derive(Debug)]
pub enum Progress<T> {
    /// The message is not whole yet: read one more line.
    NeedLine,
    /// The message is whole or refused: stop reading.
    Done(Result<T, ParseError>),
}

/// The lines of a text that was cut short are the lines of the whole text,
/// as far as they go. A cut at the end of a line leaves whole lines only. A
/// cut inside a line leaves the whole lines before it and, as one more line,
/// the piece that was cut, which is not empty.
pub proof fn lemma_lines_of_cut(text: Seq<char>, k: int)
    requires
        0 <= k <= text.len(),
    ensures
        ({
            let cut = lines_of(text.take(k));
            let all = lines_of(text);
            if k == 0 || text[k - 1] == '\n' {
                cut.len() <= all.len() && cut == all.take(cut.len() as int)
            } else {
                &&& 1 <= cut.len() <= all.len() + 1
                &&& cut.drop_last() == all.take(cut.len() - 1)
                &&& cut.last().len() > 0
            }
        }),
    decreases text.len(),
{
    let i = find_from(text, '\n', 0);
    let part = text.take(k);
    let cut = lines_of(part);
    lemma_find_from(text, '\n', 0);
    lemma_find_from(part, '\n', 0);
    if text.len() > 0 && k > i {
        // The first line feed lies inside the part that is kept: the first
        // line is whole, and the cut falls in what follows it.
        assert(part[i] == '\n');
        let rest = text.skip(i + 1);
        assert(part.take(i) =~= text.take(i));
        assert(part.skip(i + 1) =~= rest.take(k - i - 1));
        lemma_lines_of_cut(rest, k - i - 1);
        let first = strip_cr(text.take(i));
        let cut_rest = lines_of(rest.take(k - i - 1));
        if k > i + 1 && text[k - 1] != '\n' {
            assert(cut.drop_last() =~= seq![first] + cut_rest.drop_last());
        }
    }
}

/// Where a block of fields is read in full, every line of it holds a field
/// and none of them is empty, and the line right after them is empty.
pub proof fn lemma_fields_block(lines: Seq<Seq<char>>, at: int, i: int)
    requires
        fields_from(lines, at) is Ok,
        0 <= at <= i <= at + fields_from(lines, at)->Ok_0.len(),
    ensures
        at + fields_from(lines, at)->Ok_0.len() < lines.len(),
        i < at + fields_from(lines, at)->Ok_0.len() ==> lines[i].len() > 0 && Field::spec_from(
            lines[i],
        ) is Some,
        i == at + fields_from(lines, at)->Ok_0.len() ==> lines[i].len() == 0,
    decreases lines.len() - at,
{
    if lines[at].len() > 0 {
        if i > at {
            lemma_fields_block(lines, at + 1, i);
        } else {
            lemma_fields_block(lines, at + 1, at + 1);
        }
    }
}

/// A block of fields whose lines all hold fields, but which lacks its empty
/// line, ends too early.
pub proof fn lemma_fields_run_out(lines: Seq<Seq<char>>, at: int)
    requires
        0 <= at <= lines.len(),
        forall|i: int|
            at <= i < lines.len() ==> (#[trigger] lines[i]).len() > 0 && Field::spec_from(
                lines[i],
            ) is Some,
    ensures
        fields_from(lines, at) == Err::<Seq<FieldModel>, ErrorKind>(ErrorKind::UnexpectedEof),
    decreases lines.len() - at,
{
    if at < lines.len() {
        lemma_fields_run_out(lines, at + 1);
    }
}

/// A block of fields whose lines all hold fields but for the last one, which
/// is not empty and holds none, is refused for that line.
pub proof fn lemma_fields_last_refused(lines: Seq<Seq<char>>, at: int)
    requires
        0 <= at < lines.len(),
        forall|i: int|
            at <= i < lines.len() - 1 ==> (#[trigger] lines[i]).len() > 0 && Field::spec_from(
                lines[i],
            ) is Some,
        lines.last().len() > 0,
        Field::spec_from(lines.last()) is None,
    ensures
        fields_from(lines, at) == Err::<Seq<FieldModel>, ErrorKind>(ErrorKind::InvalidField),
    decreases lines.len() - at,
{
    if at < lines.len() - 1 {
        lemma_fields_last_refused(lines, at + 1);
    }
}

/// A block of fields with an empty line in it does not end too early.
pub proof fn lemma_fields_end(lines: Seq<Seq<char>>, at: int, j: int)
    requires
        0 <= at <= j < lines.len(),
        lines[j].len() == 0,
    ensures
        fields_from(lines, at) != Err::<Seq<FieldModel>, ErrorKind>(ErrorKind::UnexpectedEof),
    decreases j - at,
{
    if at < j {
        lemma_fields_end(lines, at + 1, j);
    }
}

/// What a block of fields gives once it has been read in full, or refused,
/// it gives whatever lines follow: only an early end can be mended by more
/// lines.
pub proof fn lemma_fields_settled(lines: Seq<Seq<char>>, more: Seq<Seq<char>>, at: int)
    requires
        0 <= at,
        fields_from(lines, at) != Err::<Seq<FieldModel>, ErrorKind>(ErrorKind::UnexpectedEof),
    ensures
        fields_from(lines + more, at) == fields_from(lines, at),
    decreases lines.len() - at,
{
    if at < lines.len() {
        if lines[at].len() > 0 && Field::spec_from(lines[at]) is Some {
            lemma_fields_settled(lines, more, at + 1);
        }
    }
}

/// The lines of a block of fields, each ended by a line break.
pub open spec fn fields_text(fields: Seq<FieldModel>) -> Seq<char>
    decreases fields.len(),
{
    if fields.len() == 0 {
        Seq::empty()
    } else {
        fields_text(fields.drop_last()) + fields.last().line() + crlf()
    }
}

/// The head of a message whose first line is `line`: that line, the fields
/// in their order, and an empty line, each ended by a line break.
pub open spec fn head_text(line: Seq<char>, fields: Seq<FieldModel>) -> Seq<char> {
    line + crlf() + fields_text(fields) + crlf()
}

/// The lines that a list of fields is rendered as.
pub open spec fn field_lines(fields: Seq<FieldModel>) -> Seq<Seq<char>> {
    Seq::new(fields.len(), |k: int| fields[k].line())
}

/// Whether every field of a list is one that is read back from its own
/// line: a valid field whose name holds no colon.
pub open spec fn all_readable(fields: Seq<FieldModel>) -> bool {
    forall|k: int|
        0 <= k < fields.len() ==> (#[trigger] fields[k]).is_valid() && !fields[k].name.contains(
            ':',
        )
}

/// A text without a line feed, ended by a line break, is the first line of
/// whatever it stands before.
pub proof fn lemma_lines_of_after(line: Seq<char>, rest: Seq<char>)
    requires
        !line.contains('\n'),
    ensures
        lines_of(line + crlf() + rest) == seq![line] + lines_of(rest),
{
    let text = line + crlf() + rest;
    let n = line.len() as int;
    assert(text =~= (line + seq!['\r']) + (seq!['\n'] + rest));
    assert(!(line + seq!['\r']).contains('\n'));
    lemma_find_from_after(line + seq!['\r'], seq!['\n'] + rest, '\n');
    assert(strip_cr(text.take(n + 1)) =~= line);
    assert(text.skip(n + 2) =~= rest);
}

/// The text of a block of fields starts with the line of its first field.
pub proof fn lemma_fields_text_front(first: FieldModel, others: Seq<FieldModel>)
    ensures
        fields_text(seq![first] + others) == first.line() + crlf() + fields_text(others),
    decreases others.len(),
{
    let all = seq![first] + others;
    if others.len() == 0 {
        assert(fields_text(all.drop_last()) =~= Seq::<char>::empty());
    } else {
        lemma_fields_text_front(first, others.drop_last());
        assert(all.drop_last() =~= seq![first] + others.drop_last());
    }
}

/// The line of a readable field holds no line feed and is not empty.
pub proof fn lemma_field_line_is_one_line(field: FieldModel)
    requires
        field.is_valid(),
    ensures
        !field.line().contains('\n'),
        field.line().len() > 0,
{
    let line = field.line();
    if line.contains('\n') {
        let i = choose|i: int| 0 <= i < line.len() && line[i] == '\n';
        if i < field.name.len() {
            assert(is_whitespace(field.name[i]));
        } else if i >= field.name.len() + 2 {
            assert(field.value[i - field.name.len() - 2] == '\n');
        }
    }
}

/// The lines of a rendered block of fields, with its empty line and whatever
/// follows, are the lines of the fields, an empty line, and the lines of
/// what follows.
pub proof fn lemma_block_lines(fields: Seq<FieldModel>, rest: Seq<char>)
    requires
        all_readable(fields),
    ensures
        lines_of(fields_text(fields) + crlf() + rest) == field_lines(fields) + seq![
            Seq::<char>::empty(),
        ] + lines_of(rest),
    decreases fields.len(),
{
    let text = fields_text(fields) + crlf() + rest;
    if fields.len() == 0 {
        lemma_lines_of_after(Seq::<char>::empty(), rest);
    } else {
        let first = fields[0];
        let others = fields.drop_first();
        assert(fields =~= seq![first] + others);
        lemma_fields_text_front(first, others);
        lemma_field_line_is_one_line(first);
        let after = fields_text(others) + crlf() + rest;
        assert(text =~= first.line() + crlf() + after);
        lemma_lines_of_after(first.line(), after);
        assert forall|k: int| 0 <= k < others.len() implies (#[trigger] others[k]).is_valid()
            && !others[k].name.contains(':') by {
            assert(others[k] == fields[k + 1]);
        }
        lemma_block_lines(others, rest);
    }
}

/// A block of fields is read back from its own lines: the lines of the
/// fields, then an empty line, give the fields again, whatever lines stand
/// before the block or after its empty line.
pub proof fn lemma_block_reads_back(
    before: Seq<Seq<char>>,
    fields: Seq<FieldModel>,
    after: Seq<Seq<char>>,
)
    requires
        all_readable(fields),
    ensures
        fields_from(
            before + field_lines(fields) + seq![Seq::<char>::empty()] + after,
            before.len() as int,
        ) == Ok::<Seq<FieldModel>, ErrorKind>(fields),
    decreases fields.len(),
{
    let lines = before + field_lines(fields) + seq![Seq::<char>::empty()] + after;
    if fields.len() == 0 {
        assert(fields =~= Seq::<FieldModel>::empty());
    } else {
        let first = fields[0];
        let others = fields.drop_first();
        lemma_field_line_is_one_line(first);
        law_rendered_field_reads_back(first);
        assert forall|k: int| 0 <= k < others.len() implies (#[trigger] others[k]).is_valid()
            && !others[k].name.contains(':') by {
            assert(others[k] == fields[k + 1]);
        }
        lemma_block_reads_back(before.push(first.line()), others, after);
        assert(before.push(first.line()) + field_lines(others) + seq![Seq::<char>::empty()]
            + after =~= lines);
        assert(fields =~= seq![first] + others);
    }
}

/// Renders the head of a message from its first line and its fields.
pub fn render_head(line: String, fields: &Vec<Field>) -> (s: String)
    ensures
        s@ == head_text(line@, models(fields@)),
{
    proof {
        reveal_strlit("\r\n");
    }
    let mut s = line;
    s.append("\r\n");
    let ghost start = s@;
    let mut i: usize = 0;
    while i < fields.len()
        invariant
            i <= fields.len(),
            "\r\n"@ == crlf(),
            s@ == start + fields_text(models(fields@).take(i as int)),
        decreases fields.len() - i,
    {
        let ghost done = models(fields@).take(i as int);
        let ghost next = models(fields@).take(i + 1);
        let rendered = fields[i].to_string();
        s.append(rendered.as_str());
        s.append("\r\n");
        proof {
            assert(next.drop_last() =~= done);
        }
        i += 1;
    }
    assert(models(fields@).take(i as int) =~= models(fields@));
    s.append("\r\n");
    s
}

} // verus!
