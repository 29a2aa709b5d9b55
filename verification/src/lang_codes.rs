//! Language codes.
use crate::batch::{Domain, Reading};
use crate::bulk::{Target, TargetView, insert_statement, insert_text, targets};
use crate::err::AppError;
use crate::line::{Column, Fault, Kind, check_line, column_fits, line_fault, req, required, texts};
use crate::load::{Loaded, import_source, source_outcome};
use crate::plan::{Step, plan_view, silent};
use crate::sql::{
    CREATE_LANG_CODES, CREATE_LANG_SRC_CODES, CREATE_SCHEMAS, DROP_LANG_SRC_CODES,
    TRANSFER_LANG_CODES,
};
use crate::text::{is_clean, lemma_normalized_is_clean, normalize_name, normalized};
use vstd::prelude::*;

verus! {

/// One language with its three codes, ready for storage.
#[derive(Debug)]
pub struct LangCodeRec {
    pub c3: String,
    pub c2: String,
    pub c1: String,
    pub name: String,
}

/// What a [`LangCodeRec`] holds.
pub struct LangCodeRow {
    pub c3: Seq<char>,
    pub c2: Seq<char>,
    pub c1: Seq<char>,
    pub name: Seq<char>,
}

impl View for LangCodeRec {
    type V = LangCodeRow;

    open spec fn view(&self) -> LangCodeRow {
        LangCodeRow { c3: self.c3@, c2: self.c2@, c1: self.c1@, name: self.name@ }
    }
}

/// The columns of many languages.
#[derive(Debug)]
pub struct LangCodeVecs {
    pub c3s: Vec<String>,
    pub c2s: Vec<String>,
    pub c1s: Vec<String>,
    pub names: Vec<String>,
    /// The number of rows that the columns were sized for.
    pub capacity: usize,
}

impl LangCodeVecs {
    /// Whether the columns have one length.
    pub open spec fn wf(&self) -> bool {
        self.c3s@.len() == self.c2s@.len() == self.c1s@.len() == self.names@.len()
    }

    /// The rows, in the order in which they were added.
    pub open spec fn rows(&self) -> Seq<LangCodeRow> {
        Seq::new(
            self.c3s@.len(),
            |i: int|
                LangCodeRow {
                    c3: self.c3s@[i]@,
                    c2: self.c2s@[i]@,
                    c1: self.c1s@[i]@,
                    name: self.names@[i]@,
                },
        )
    }

    /// Empty columns, sized for `vsize` rows.
    pub fn new(vsize: usize) -> (v: Self)
        ensures
            v.wf(),
            v.rows() == Seq::<LangCodeRow>::empty(),
            v.capacity == vsize,
    {
        LangCodeVecs {
            c3s: Vec::with_capacity(vsize),
            c2s: Vec::with_capacity(vsize),
            c1s: Vec::with_capacity(vsize),
            names: Vec::with_capacity(vsize),
            capacity: vsize,
        }
    }

    /// Adds one language at the end of every column.
    pub fn add_data(&mut self, r: &LangCodeRec)
        requires
            old(self).wf(),
        ensures
            final(self).wf(),
            final(self).rows() == old(self).rows().push(r@),
            final(self).capacity == old(self).capacity,
    {
        self.c3s.push(r.c3.clone());
        self.c2s.push(r.c2.clone());
        self.c1s.push(r.c1.clone());
        self.names.push(r.name.clone());
    }

    /// The number of rows.
    pub fn len(&self) -> (n: usize)
        requires
            self.wf(),
        ensures
            n == self.rows().len(),
    {
        self.c3s.len()
    }
}

/// The layout of a line: the code of three letters, the code of the older
/// standard, the code of two letters, the name.
pub open spec fn lang_code_layout() -> Seq<Column> {
    seq![req(Kind::Text), req(Kind::Text), req(Kind::Text), req(Kind::Text)]
}

/// The language that a well-formed line gives.
pub open spec fn lang_code_row(line: Seq<Seq<char>>) -> LangCodeRow {
    LangCodeRow { c3: line[0], c2: line[1], c1: line[2], name: normalized(line[3]) }
}

/// What becomes of a line: every well-formed line is kept.
pub open spec fn lang_code_reading(line: Seq<Seq<char>>) -> Reading<LangCodeRow> {
    match line_fault(line, lang_code_layout()) {
        Some(f) => Reading::Refused(f),
        None => Reading::Kept(lang_code_row(line)),
    }
}

/// Maps one line to a language.
pub fn map_lang_code_line(fields: &Vec<String>) -> (r: Result<LangCodeRec, Fault>)
    ensures
        match r {
            Ok(rec) => lang_code_reading(texts(fields@)) == Reading::Kept(rec@),
            Err(f) => lang_code_reading(texts(fields@)) == Reading::<LangCodeRow>::Refused(f),
        },
{
    let mut layout: Vec<Column> = Vec::with_capacity(4);
    layout.push(required(Kind::Text));
    layout.push(required(Kind::Text));
    layout.push(required(Kind::Text));
    layout.push(required(Kind::Text));
    assert(layout@ == lang_code_layout());
    match check_line(fields, &layout) {
        Err(f) => Err(f),
        Ok(_) => {
            assert(column_fits(texts(fields@), lang_code_layout(), 3));
            Ok(
                LangCodeRec {
                    c3: fields[0].clone(),
                    c2: fields[1].clone(),
                    c1: fields[2].clone(),
                    name: normalize_name(fields[3].as_str()),
                },
            )
        },
    }
}

/// The domain of language codes.
pub struct LangCodes;

impl Domain for LangCodes {
    type Record = LangCodeRec;

    type Row = LangCodeRow;

    type Batch = LangCodeVecs;

    open spec fn row_of(r: &LangCodeRec) -> LangCodeRow {
        r@
    }

    open spec fn batch_wf(b: &LangCodeVecs) -> bool {
        b.wf()
    }

    open spec fn batch_rows(b: &LangCodeVecs) -> Seq<LangCodeRow> {
        b.rows()
    }

    open spec fn batch_room(b: &LangCodeVecs) -> usize {
        b.capacity
    }

    open spec fn reading(&self, line: Seq<Seq<char>>) -> Reading<LangCodeRow> {
        lang_code_reading(line)
    }

    fn map_line(&self, fields: &Vec<String>) -> (r: Result<Option<LangCodeRec>, Fault>) {
        match map_lang_code_line(fields) {
            Ok(rec) => Ok(Some(rec)),
            Err(f) => Err(f),
        }
    }

    fn new_batch(vsize: usize) -> (b: LangCodeVecs) {
        LangCodeVecs::new(vsize)
    }

    fn add(b: &mut LangCodeVecs, r: &LangCodeRec) {
        b.add_data(r)
    }

    fn row_count(b: &LangCodeVecs) -> (n: usize) {
        b.len()
    }
}

/// The number of rows at which a batch of language codes is full.
pub const LANG_CODE_ROOM: usize = 2500;

/// Loads the bytes of a file of language codes into batches of at most
/// [`LANG_CODE_ROOM`] rows.
pub fn import_lang_code_data(data: &[u8]) -> (r: Result<Loaded<LangCodes>, AppError>)
    ensures
        source_outcome(&LangCodes, data@, LANG_CODE_ROOM, r),
{
    import_source(&LangCodes, data, LANG_CODE_ROOM)
}

/// The name of a record is clean, whatever the line.
pub proof fn lemma_lang_code_row_is_clean(line: Seq<Seq<char>>)
    ensures
        is_clean(lang_code_row(line).name),
{
    lemma_normalized_is_clean(line[3]);
}

/// The statements that make sure of the schemas, and drop and create the
/// tables of language codes.
pub fn create_lang_code_tables() -> (plan: Vec<Step>)
    ensures
        plan_view(plan@) == seq![
            (CREATE_SCHEMAS@, None::<Seq<char>>),
            (CREATE_LANG_SRC_CODES@, None::<Seq<char>>),
            (CREATE_LANG_CODES@, None::<Seq<char>>),
        ],
{
    let mut plan: Vec<Step> = Vec::new();
    plan.push(silent(CREATE_SCHEMAS));
    plan.push(silent(CREATE_LANG_SRC_CODES));
    plan.push(silent(CREATE_LANG_CODES));
    plan
}

/// The statements that give every language one row for each kind of code
/// that it has.
pub fn transfer_data() -> (plan: Vec<Step>)
    ensures
        plan_view(plan@) == seq![
            (TRANSFER_LANG_CODES@, None::<Seq<char>>),
        ],
{
    let mut plan: Vec<Step> = Vec::new();
    plan.push(silent(TRANSFER_LANG_CODES));
    plan
}

/// The statements that drop the staging table.
pub fn delete_src_table() -> (plan: Vec<Step>)
    ensures
        plan_view(plan@) == seq![
            (DROP_LANG_SRC_CODES@, None::<Seq<char>>),
        ],
{
    let mut plan: Vec<Step> = Vec::new();
    plan.push(silent(DROP_LANG_SRC_CODES));
    plan
}

/// The columns that a batch fills, in the order of its parameters.
pub open spec fn stored_columns() -> Seq<TargetView> {
    seq![
        TargetView { name: "c3"@, sql_type: "text"@ },
        TargetView { name: "c2"@, sql_type: "text"@ },
        TargetView { name: "c1"@, sql_type: "text"@ },
        TargetView { name: "name"@, sql_type: "text"@ },
    ]
}

/// Writes the statement that stores a batch in the staging table.
pub fn store_statement() -> (sql: String)
    ensures
        sql@ == insert_text("src.lang_src_codes"@, stored_columns()),
{
    let mut columns: Vec<Target> = Vec::new();
    columns.push(Target { name: "c3", sql_type: "text" });
    columns.push(Target { name: "c2", sql_type: "text" });
    columns.push(Target { name: "c1", sql_type: "text" });
    columns.push(Target { name: "name", sql_type: "text" });
    assert(targets(columns@) == stored_columns());
    insert_statement("src.lang_src_codes", &columns)
}

} // verus!
