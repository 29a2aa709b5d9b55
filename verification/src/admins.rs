//! Administrative areas of the first and second level.
use crate::batch::{Domain, Reading};
use crate::bulk::{Target, TargetView, insert_statement, insert_text, targets};
use crate::err::AppError;
use crate::line::{Column, Fault, Kind, check_line, line_fault, req, required, texts, whole_at};
use crate::load::{Loaded, import_source, source_outcome};
use crate::number::i64_in;
use crate::plan::{Step, plan_view, silent};
use crate::sql::{CREATE_ADM1S, CREATE_ADM2S};
use crate::text::{is_clean, lemma_normalized_is_clean, normalize_name, normalized, starts_with};
use vstd::prelude::*;

verus! {

/// One administrative area, ready for storage.
#[derive(Debug)]
pub struct AdminRec {
    pub id: i64,
    pub code: String,
    pub name: String,
}

/// What an [`AdminRec`] holds.
pub struct AdminRow {
    pub id: i64,
    pub code: Seq<char>,
    pub name: Seq<char>,
}

impl View for AdminRec {
    type V = AdminRow;

    open spec fn view(&self) -> AdminRow {
        AdminRow { id: self.id, code: self.code@, name: self.name@ }
    }
}

/// The columns of many administrative areas.
#[derive(Debug)]
pub struct AdminVecs {
    pub ids: Vec<i64>,
    pub codes: Vec<String>,
    pub names: Vec<String>,
    /// The number of rows that the columns were sized for.
    pub capacity: usize,
}

impl AdminVecs {
    /// Whether the columns have one length.
    pub open spec fn wf(&self) -> bool {
        self.ids@.len() == self.codes@.len() == self.names@.len()
    }

    /// The rows, in the order in which they were added.
    pub open spec fn rows(&self) -> Seq<AdminRow> {
        Seq::new(
            self.ids@.len(),
            |i: int| AdminRow { id: self.ids@[i], code: self.codes@[i]@, name: self.names@[i]@ },
        )
    }

    /// Empty columns, sized for `vsize` rows.
    pub fn new(vsize: usize) -> (v: Self)
        ensures
            v.wf(),
            v.rows() == Seq::<AdminRow>::empty(),
            v.capacity == vsize,
    {
        AdminVecs {
            ids: Vec::with_capacity(vsize),
            codes: Vec::with_capacity(vsize),
            names: Vec::with_capacity(vsize),
            capacity: vsize,
        }
    }

    /// Adds one area at the end of every column.
    pub fn add_data(&mut self, r: &AdminRec)
        requires
            old(self).wf(),
        ensures
            final(self).wf(),
            final(self).rows() == old(self).rows().push(r@),
            final(self).capacity == old(self).capacity,
    {
        self.ids.push(r.id);
        self.codes.push(r.code.clone());
        self.names.push(r.name.clone());
    }

    /// The number of rows.
    pub fn len(&self) -> (n: usize)
        requires
            self.wf(),
        ensures
            n == self.rows().len(),
    {
        self.ids.len()
    }
}

/// The layout of a line: code, name, name in ASCII, identifier.
pub open spec fn admin_layout() -> Seq<Column> {
    seq![req(Kind::Text), req(Kind::Text), req(Kind::Text), req(Kind::Whole64)]
}

/// The area that a well-formed line gives.
pub open spec fn admin_row(line: Seq<Seq<char>>) -> AdminRow {
    AdminRow { id: i64_in(line[3])->0 as i64, code: line[0], name: normalized(line[1]) }
}

/// What becomes of a line: every well-formed line is kept.
pub open spec fn admin_reading(line: Seq<Seq<char>>) -> Reading<AdminRow> {
    match line_fault(line, admin_layout()) {
        Some(f) => Reading::Refused(f),
        None => Reading::Kept(admin_row(line)),
    }
}

/// Maps one line to an area.
pub fn map_admin_line(fields: &Vec<String>) -> (r: Result<AdminRec, Fault>)
    ensures
        match r {
            Ok(rec) => admin_reading(texts(fields@)) == Reading::Kept(rec@),
            Err(f) => admin_reading(texts(fields@)) == Reading::<AdminRow>::Refused(f),
        },
{
    let mut layout: Vec<Column> = Vec::with_capacity(4);
    layout.push(required(Kind::Text));
    layout.push(required(Kind::Text));
    layout.push(required(Kind::Text));
    layout.push(required(Kind::Whole64));
    assert(layout@ == admin_layout());
    match check_line(fields, &layout) {
        Err(f) => Err(f),
        Ok(_) => {
            proof {
                let line = texts(fields@);
                assert(crate::line::column_fits(line, admin_layout(), 3));
            }
            Ok(
                AdminRec {
                    id: whole_at(fields, 3),
                    code: fields[0].clone(),
                    name: normalize_name(fields[1].as_str()),
                },
            )
        },
    }
}

/// The table that a source file fills: `adm1s` for a file whose name begins
/// with `admin1`, `adm2s` for every other.
pub open spec fn admin_table(source_file_name: Seq<char>) -> Seq<char> {
    if crate::text::has_prefix(source_file_name, "admin1"@) {
        "adm1s"@
    } else {
        "adm2s"@
    }
}

/// Picks the table for a source file.
pub fn table_for(source_file_name: &str) -> (t: &'static str)
    ensures
        t@ == admin_table(source_file_name@),
{
    if starts_with(source_file_name, "admin1") {
        "adm1s"
    } else {
        "adm2s"
    }
}

/// The domain of administrative areas.
pub struct Admins;

impl Domain for Admins {
    type Record = AdminRec;

    type Row = AdminRow;

    type Batch = AdminVecs;

    open spec fn row_of(r: &AdminRec) -> AdminRow {
        r@
    }

    open spec fn batch_wf(b: &AdminVecs) -> bool {
        b.wf()
    }

    open spec fn batch_rows(b: &AdminVecs) -> Seq<AdminRow> {
        b.rows()
    }

    open spec fn batch_room(b: &AdminVecs) -> usize {
        b.capacity
    }

    open spec fn reading(&self, line: Seq<Seq<char>>) -> Reading<AdminRow> {
        admin_reading(line)
    }

    fn map_line(&self, fields: &Vec<String>) -> (r: Result<Option<AdminRec>, Fault>) {
        match map_admin_line(fields) {
            Ok(rec) => Ok(Some(rec)),
            Err(f) => Err(f),
        }
    }

    fn new_batch(vsize: usize) -> (b: AdminVecs) {
        AdminVecs::new(vsize)
    }

    fn add(b: &mut AdminVecs, r: &AdminRec) {
        b.add_data(r)
    }

    fn row_count(b: &AdminVecs) -> (n: usize) {
        b.len()
    }
}

/// The number of rows at which a batch of administrative areas is full.
pub const ADMIN_ROOM: usize = 5000;

/// Loads the bytes of a file of administrative areas into batches of at most
/// [`ADMIN_ROOM`] rows.
pub fn import_admins_data(data: &[u8]) -> (r: Result<Loaded<Admins>, AppError>)
    ensures
        source_outcome(&Admins, data@, ADMIN_ROOM, r),
{
    import_source(&Admins, data, ADMIN_ROOM)
}

/// The name of a record is clean, whatever the line.
pub proof fn lemma_admin_row_is_clean(line: Seq<Seq<char>>)
    ensures
        is_clean(admin_row(line).name),
{
    lemma_normalized_is_clean(line[1]);
}

/// The statements that drop and create the tables of administrative areas.
pub fn create_admins_tables() -> (plan: Vec<Step>)
    ensures
        plan_view(plan@) == seq![
            (CREATE_ADM1S@, None::<Seq<char>>),
            (CREATE_ADM2S@, None::<Seq<char>>),
        ],
{
    let mut plan: Vec<Step> = Vec::new();
    plan.push(silent(CREATE_ADM1S));
    plan.push(silent(CREATE_ADM2S));
    plan
}

/// The columns that a batch fills, in the order of its parameters.
pub open spec fn stored_columns() -> Seq<TargetView> {
    seq![
        TargetView { name: "id"@, sql_type: "int"@ },
        TargetView { name: "code"@, sql_type: "text"@ },
        TargetView { name: "name"@, sql_type: "text"@ },
    ]
}

/// Writes the statement that stores a batch in the table `table_name` of
/// the schema `geo`.
pub fn store_statement(table_name: &str) -> (sql: String)
    ensures
        sql@ == insert_text("geo."@ + table_name@, stored_columns()),
{
    let mut columns: Vec<Target> = Vec::new();
    columns.push(Target { name: "id", sql_type: "int" });
    columns.push(Target { name: "code", sql_type: "text" });
    columns.push(Target { name: "name", sql_type: "text" });
    assert(targets(columns@) == stored_columns());
    let table = crate::text::joined("geo.", table_name);
    insert_statement(table.as_str(), &columns)
}

} // verus!
