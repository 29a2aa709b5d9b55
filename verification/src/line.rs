//! One source line as an ordered list of text fields, and the column layout
//! that a domain expects of it.
use crate::number::{
    i32_in, i64_in, is_fraction, is_fraction_text, parse_i32, parse_i64, parse_u64, u64_in,
};
use vstd::prelude::*;

verus! {

/// What is wrong with a line: the first column, in order, that is absent or
/// does not hold the number it should.
#[derive(Clone, Copy, Debug, PartialEq, Eq, Structural)]
pub enum Fault {
    /// The line ends before this column.
    Missing(usize),
    /// This column should hold a number and does not.
    NotNumber(usize),
}

/// What a column holds.
#[derive(Clone, Copy, Debug, PartialEq, Eq, Structural)]
pub enum Kind {
    /// Any text.
    Text,
    /// A signed 64-bit whole number.
    Whole64,
    /// A signed 32-bit whole number.
    Whole32,
    /// An unsigned 64-bit whole number.
    Count,
    /// A decimal fraction; it is taken over as the text that writes it.
    Fraction,
}

/// One column of a layout.
#[derive(Clone, Copy, Debug, PartialEq, Eq, Structural)]
pub struct Column {
    pub kind: Kind,
    /// Whether the column may be left empty.
    pub optional: bool,
}

/// A column that must be filled.
pub open spec fn req(kind: Kind) -> Column {
    Column { kind, optional: false }
}

/// A column that may be left empty.
pub open spec fn opt(kind: Kind) -> Column {
    Column { kind, optional: true }
}

/// A column that must be filled.
pub fn required(kind: Kind) -> (c: Column)
    ensures
        c == req(kind),
{
    Column { kind, optional: false }
}

/// A column that may be left empty.
pub fn or_empty(kind: Kind) -> (c: Column)
    ensures
        c == opt(kind),
{
    Column { kind, optional: true }
}

/// The texts of a list of strings.
pub open spec fn texts(fields: Seq<String>) -> Seq<Seq<char>> {
    fields.map_values(|s: String| s@)
}

/// The texts of a list of lines.
pub open spec fn lines(records: Seq<Vec<String>>) -> Seq<Seq<Seq<char>>> {
    records.map_values(|r: Vec<String>| texts(r@))
}

/// An optional column's value: nothing where the field is empty.
pub open spec fn optional(text: Seq<char>) -> Option<Seq<char>> {
    if text.len() == 0 {
        None
    } else {
        Some(text)
    }
}

/// Whether `text` is acceptable in column `col`.
pub open spec fn holds(text: Seq<char>, col: Column) -> bool {
    ||| col.optional && text.len() == 0
    ||| match col.kind {
        Kind::Text => true,
        Kind::Whole64 => i64_in(text) is Some,
        Kind::Whole32 => i32_in(text) is Some,
        Kind::Count => u64_in(text) is Some,
        Kind::Fraction => is_fraction(text),
    }
}

/// What is wrong with column `i` of `line`, if anything.
pub open spec fn fault_at(line: Seq<Seq<char>>, layout: Seq<Column>, i: int) -> Option<Fault> {
    if i >= line.len() {
        Some(Fault::Missing(i as usize))
    } else if !holds(line[i], layout[i]) {
        Some(Fault::NotNumber(i as usize))
    } else {
        None
    }
}

/// The first fault of `line` among the columns from `from` on.
pub open spec fn first_fault(line: Seq<Seq<char>>, layout: Seq<Column>, from: int) -> Option<Fault>
    decreases layout.len() - from,
{
    if from < 0 || from >= layout.len() {
        None
    } else {
        match fault_at(line, layout, from) {
            Some(f) => Some(f),
            None => first_fault(line, layout, from + 1),
        }
    }
}

/// The fault for which `line` is refused under `layout`, if it is. Fields
/// beyond the layout are ignored.
pub open spec fn line_fault(line: Seq<Seq<char>>, layout: Seq<Column>) -> Option<Fault> {
    first_fault(line, layout, 0)
}

/// Whether column `i` of `line` is there and holds acceptable text.
pub open spec fn column_fits(line: Seq<Seq<char>>, layout: Seq<Column>, i: int) -> bool {
    i < line.len() && holds(line[i], layout[i])
}

/// Whether `line` has every column of `layout`, each with acceptable text.
pub open spec fn fits(line: Seq<Seq<char>>, layout: Seq<Column>) -> bool {
    forall|i: int| 0 <= i < layout.len() ==> #[trigger] column_fits(line, layout, i)
}

/// A line has no fault exactly when it fits the layout.
pub proof fn lemma_no_fault_iff_fits(line: Seq<Seq<char>>, layout: Seq<Column>)
    ensures
        line_fault(line, layout) is None <==> fits(line, layout),
{
    lemma_first_fault(line, layout, 0);
}

proof fn lemma_first_fault(line: Seq<Seq<char>>, layout: Seq<Column>, from: int)
    requires
        0 <= from <= layout.len(),
    ensures
        first_fault(line, layout, from) is None <==> forall|i: int|
            from <= i < layout.len() ==> #[trigger] column_fits(line, layout, i),
    decreases layout.len() - from,
{
    if from < layout.len() {
        lemma_first_fault(line, layout, from + 1);
        if first_fault(line, layout, from) is Some {
            if fault_at(line, layout, from) is None {
                let i = choose|i: int|
                    from + 1 <= i < layout.len() && !#[trigger] column_fits(line, layout, i);
            } else {
                assert(!column_fits(line, layout, from));
            }
        }
    }
}

/// Tests one field against its column.
fn field_holds(field: &String, col: Column) -> (b: bool)
    ensures
        b == holds(field@, col),
{
    if col.optional && field.as_str().unicode_len() == 0 {
        return true;
    }
    match col.kind {
        Kind::Text => true,
        Kind::Whole64 => parse_i64(field.as_str()).is_some(),
        Kind::Whole32 => parse_i32(field.as_str()).is_some(),
        Kind::Count => parse_u64(field.as_str()).is_some(),
        Kind::Fraction => is_fraction_text(field.as_str()),
    }
}

/// Checks a line against a layout and reports its first fault.
pub fn check_line(fields: &Vec<String>, layout: &Vec<Column>) -> (r: Result<(), Fault>)
    ensures
        match r {
            Ok(_) => line_fault(texts(fields@), layout@) is None && fits(texts(fields@), layout@),
            Err(f) => line_fault(texts(fields@), layout@) == Some(f),
        },
{
    let ghost line = texts(fields@);
    let mut i: usize = 0;
    while i < layout.len()
        invariant
            i <= layout.len(),
            line == texts(fields@),
            line_fault(line, layout@) == first_fault(line, layout@, i as int),
            forall|j: int| 0 <= j < i ==> #[trigger] column_fits(line, layout@, j),
        decreases layout.len() - i,
    {
        if i >= fields.len() {
            return Err(Fault::Missing(i));
        }
        if !field_holds(&fields[i], layout[i]) {
            return Err(Fault::NotNumber(i));
        }
        i += 1;
    }
    proof {
        lemma_no_fault_iff_fits(line, layout@);
    }
    Ok(())
}

/// The text of an optional column.
pub fn opt_text_at(fields: &Vec<String>, i: usize) -> (r: Option<String>)
    requires
        i < fields.len(),
    ensures
        match r {
            Some(s) => optional(fields@[i as int]@) == Some(s@),
            None => optional(fields@[i as int]@) is None,
        },
{
    if fields[i].as_str().unicode_len() == 0 {
        None
    } else {
        Some(fields[i].clone())
    }
}

/// The number in a column that holds a signed 64-bit whole number.
pub fn whole_at(fields: &Vec<String>, i: usize) -> (v: i64)
    requires
        i < fields.len(),
        i64_in(fields@[i as int]@) is Some,
    ensures
        i64_in(fields@[i as int]@) == Some(v as int),
{
    parse_i64(fields[i].as_str()).unwrap()
}

/// The number in an optional column of unsigned whole numbers.
pub fn opt_count_at(fields: &Vec<String>, i: usize) -> (r: Option<u64>)
    requires
        i < fields.len(),
        fields@[i as int]@.len() == 0 || u64_in(fields@[i as int]@) is Some,
    ensures
        match r {
            Some(v) => fields@[i as int]@.len() > 0 && u64_in(fields@[i as int]@) == Some(v as int),
            None => fields@[i as int]@.len() == 0,
        },
{
    if fields[i].as_str().unicode_len() == 0 {
        None
    } else {
        parse_u64(fields[i].as_str())
    }
}

/// The number in an optional column of signed 64-bit whole numbers.
pub fn opt_whole_at(fields: &Vec<String>, i: usize) -> (r: Option<i64>)
    requires
        i < fields.len(),
        fields@[i as int]@.len() == 0 || i64_in(fields@[i as int]@) is Some,
    ensures
        match r {
            Some(v) => fields@[i as int]@.len() > 0 && i64_in(fields@[i as int]@) == Some(
                v as int,
            ),
            None => fields@[i as int]@.len() == 0,
        },
{
    if fields[i].as_str().unicode_len() == 0 {
        None
    } else {
        parse_i64(fields[i].as_str())
    }
}

} // verus!
