//! A header field: a name and a value, read from and rendered to one line.
use crate::error::{ErrorKind, ParseError};
use crate::text::{
    any_whitespace, chars_of, decimal, decimal_string, find_char, find_from, has_whitespace,
    lemma_find_from, lemma_trim_settles, slice_of, trim, trim_bounds, trim_start,
};
use vstd::prelude::*;
use vstd::string::*;

verus! {

/// What a field holds: its name and its value, as texts.
pub struct FieldModel {
    pub name: Seq<char>,
    pub value: Seq<char>,
}

impl FieldModel {
    /// Whether the pair obeys the rules of a field on the wire: the name is
    /// not empty and holds no white space; the value has no white space at
    /// either end and no line break inside.
    pub open spec fn is_valid(self) -> bool {
        &&& self.name.len() > 0
        &&& !has_whitespace(self.name)
        &&& trim(self.value) == self.value
        &&& !self.value.contains('\n')
    }

    /// The field as a line: the name, a colon, a space, the value.
    pub open spec fn line(self) -> Seq<char> {
        self.name + seq![':', ' '] + self.value
    }
}

/// A header field.
#[derive(Debug, PartialEq, Eq)]
pub struct Field {
    name: String,
    value: String,
}

impl View for Field {
    type V = FieldModel;

    closed spec fn view(&self) -> FieldModel {
        FieldModel { name: self.name@, value: self.value@ }
    }
}

impl Field {
    /// The field that a line holds. The line is split at its first colon.
    /// What stands before is the name. What stands after, without the white
    /// space at its ends, is the value. A line without a colon holds no
    /// field, nor does one whose name is empty or holds white space, nor one
    /// whose value holds a line break.
    pub open spec fn spec_from(line: Seq<char>) -> Option<FieldModel> {
        let sep = find_from(line, ':', 0);
        let name = line.take(sep);
        let value = trim(line.skip(sep + 1));
        if sep >= line.len() || name.len() == 0 || has_whitespace(name) || value.contains('\n') {
            None
        } else {
            Some(FieldModel { name, value })
        }
    }

    /// The name of the length field.
    pub open spec fn content_length_name() -> Seq<char> {
        "Content-Length"@
    }

    /// Builds a field from a name and a value, taken as they are.
    pub fn new(name: String, value: String) -> (f: Field)
        ensures
            f@ == (FieldModel { name: name@, value: value@ }),
    {
        Field { name, value }
    }

    /// The field that declares a body of `length` bytes.
    #[allow(non_snake_case)]
    pub fn ContentLength(length: usize) -> (f: Field)
        ensures
            f@ == (FieldModel {
                name: Field::content_length_name(),
                value: decimal(length as nat),
            }),
    {
        let name = String::from_str("Content-Length");
        let value = decimal_string(length);
        Field { name, value }
    }

    /// Reads a field from a line.
    pub fn from(line: String) -> (r: Result<Field, ParseError>)
        ensures
            match Field::spec_from(line@) {
                Some(model) => r matches Ok(f) && f@ == model,
                None => r matches Err(e) && e@ == ErrorKind::InvalidField.text(),
            },
    {
        let text = line.as_str();
        let v = chars_of(text);
        let sep = find_char(&v, ':', 0);
        if sep >= v.len() || sep == 0 || any_whitespace(&v, 0, sep) {
            return Err(ParseError::of(ErrorKind::InvalidField));
        }
        let (lo, hi) = trim_bounds(&v, sep + 1, v.len());
        let ghost value = v@.subrange(lo as int, hi as int);
        let newline = find_char(&v, '\n', lo);
        proof {
            lemma_find_from(v@, '\n', lo as int);
            if newline < hi {
                assert(value[newline - lo] == '\n');
            } else {
                assert forall|j: int| 0 <= j < value.len() implies value[j] != '\n' by {
                    assert(value[j] == v@[lo + j]);
                }
            }
        }
        if newline < hi {
            return Err(ParseError::of(ErrorKind::InvalidField));
        }
        Ok(Field { name: slice_of(text, 0, sep), value: slice_of(text, lo, hi) })
    }

    /// The name of the field.
    pub fn name(&self) -> (s: &str)
        ensures
            s@ == self@.name,
    {
        self.name.as_str()
    }

    /// The value of the field.
    pub fn value(&self) -> (s: &str)
        ensures
            s@ == self@.value,
    {
        self.value.as_str()
    }

    /// Renders the field as a line.
    pub fn to_string(&self) -> (s: String)
        ensures
            s@ == self@.line(),
    {
        proof {
            reveal_strlit(": ");
        }
        let mut s = self.name.clone();
        s.append(": ");
        s.append(self.value.as_str());
        s
    }
}

/// Every field that is read from a line obeys the rules of the wire.
pub proof fn law_read_fields_are_valid(line: Seq<char>)
    requires
        Field::spec_from(line) is Some,
    ensures
        Field::spec_from(line)->0.is_valid(),
{
    let sep = find_from(line, ':', 0);
    lemma_trim_settles(line.skip(sep + 1));
}

/// A valid field whose name holds no colon is read back from its own line:
/// rendering then reading gives the same name and the same value.
pub proof fn law_rendered_field_reads_back(field: FieldModel)
    requires
        field.is_valid(),
        !field.name.contains(':'),
    ensures
        Field::spec_from(field.line()) == Some(field),
{
    let line = field.line();
    let n = field.name.len() as int;
    let sep = find_from(line, ':', 0);
    lemma_find_from(line, ':', 0);
    assert(line[n] == ':');
    assert(line.take(sep) =~= field.name);
    let rest = line.skip(sep + 1);
    assert(rest.drop_first() =~= field.value);
}

} // verus!
