//! Regions and continents, the scopes above the level of a country.
use crate::batch::{Domain, Reading};
use crate::bulk::{Target, TargetView, insert_statement, insert_text, targets};
use crate::err::AppError;
use crate::feature::{COL_CC2, COL_FEATURE_CODE, COL_ID, COL_NAME, feature_columns, feature_layout};
use crate::line::{
    Fault, check_line, column_fits, line_fault, opt_text_at, optional, texts, whole_at,
};
use crate::load::{Loaded, import_source, source_outcome};
use crate::number::i64_in;
use crate::plan::{Step, plan_view, silent};
use crate::sql::{CREATE_REGIONS, RESTORE_NOTICES};
use crate::text::{is_clean, lemma_normalized_is_clean, normalize_name, normalized, same_text};
use vstd::prelude::*;

verus! {

/// One region or continent, ready for storage.
#[derive(Debug)]
pub struct ScopeRec {
    pub id: i64,
    pub feature_code: String,
    pub name: String,
    pub members: Option<String>,
}

/// What a [`ScopeRec`] holds.
pub struct ScopeRow {
    pub id: i64,
    pub feature_code: Seq<char>,
    pub name: Seq<char>,
    pub members: Option<Seq<char>>,
}

/// The text of an optional string.
pub open spec fn opt_text(s: Option<String>) -> Option<Seq<char>> {
    match s {
        Some(t) => Some(t@),
        None => None,
    }
}

impl View for ScopeRec {
    type V = ScopeRow;

    open spec fn view(&self) -> ScopeRow {
        ScopeRow {
            id: self.id,
            feature_code: self.feature_code@,
            name: self.name@,
            members: opt_text(self.members),
        }
    }
}

/// The columns of many scopes.
#[derive(Debug)]
pub struct ScopeVecs {
    pub ids: Vec<i64>,
    pub feature_codes: Vec<String>,
    pub names: Vec<String>,
    pub members: Vec<Option<String>>,
    /// The number of rows that the columns were sized for.
    pub capacity: usize,
}

impl ScopeVecs {
    /// Whether the columns have one length.
    pub open spec fn wf(&self) -> bool {
        self.ids@.len() == self.feature_codes@.len() == self.names@.len() == self.members@.len()
    }

    /// The rows, in the order in which they were added.
    pub open spec fn rows(&self) -> Seq<ScopeRow> {
        Seq::new(
            self.ids@.len(),
            |i: int|
                ScopeRow {
                    id: self.ids@[i],
                    feature_code: self.feature_codes@[i]@,
                    name: self.names@[i]@,
                    members: opt_text(self.members@[i]),
                },
        )
    }

    /// Empty columns, sized for `vsize` rows.
    pub fn new(vsize: usize) -> (v: Self)
        ensures
            v.wf(),
            v.rows() == Seq::<ScopeRow>::empty(),
            v.capacity == vsize,
    {
        ScopeVecs {
            ids: Vec::with_capacity(vsize),
            feature_codes: Vec::with_capacity(vsize),
            names: Vec::with_capacity(vsize),
            members: Vec::with_capacity(vsize),
            capacity: vsize,
        }
    }

    /// Adds one scope at the end of every column.
    pub fn add_data(&mut self, r: &ScopeRec)
        requires
            old(self).wf(),
        ensures
            final(self).wf(),
            final(self).rows() == old(self).rows().push(r@),
            final(self).capacity == old(self).capacity,
    {
        self.ids.push(r.id);
        self.feature_codes.push(r.feature_code.clone());
        self.names.push(r.name.clone());
        let members = match &r.members {
            Some(m) => Some(m.clone()),
            None => None,
        };
        self.members.push(members);
    }

    /// The number of rows.
    pub fn len(&self) -> (n: usize)
        requires
            self.wf(),
        ensures
            n == self.rows().len(),
    {
        self.ids.len()
    }
}

/// Whether a feature code marks a scope: a region or a continent.
pub open spec fn is_scope_code(code: Seq<char>) -> bool {
    code == "RGN"@ || code == "CONT"@
}

/// The scope that a well-formed line with a scope's feature code gives.
pub open spec fn scope_row(line: Seq<Seq<char>>) -> ScopeRow {
    ScopeRow {
        id: i64_in(line[COL_ID as int])->0 as i64,
        feature_code: line[COL_FEATURE_CODE as int],
        name: normalized(line[COL_NAME as int]),
        members: optional(line[COL_CC2 as int]),
    }
}

/// What becomes of a line: a malformed line is refused, a well-formed line is
/// kept where its feature code marks a scope and left out otherwise.
pub open spec fn scope_reading(line: Seq<Seq<char>>) -> Reading<ScopeRow> {
    match line_fault(line, feature_layout()) {
        Some(f) => Reading::Refused(f),
        None => if is_scope_code(line[COL_FEATURE_CODE as int]) {
            Reading::Kept(scope_row(line))
        } else {
            Reading::Skipped
        },
    }
}

/// Maps one line to a scope, or to nothing where the line is not a scope's.
pub fn map_scope_line(fields: &Vec<String>) -> (r: Result<Option<ScopeRec>, Fault>)
    ensures
        match r {
            Ok(Some(rec)) => scope_reading(texts(fields@)) == Reading::Kept(rec@),
            Ok(None) => scope_reading(texts(fields@)) == Reading::<ScopeRow>::Skipped,
            Err(f) => scope_reading(texts(fields@)) == Reading::<ScopeRow>::Refused(f),
        },
{
    let layout = feature_columns();
    match check_line(fields, &layout) {
        Err(f) => Err(f),
        Ok(_) => {
            proof {
                let line = texts(fields@);
                assert(column_fits(line, feature_layout(), COL_CC2 as int));
            }
            let code = fields[COL_FEATURE_CODE].as_str();
            if same_text(code, "RGN") || same_text(code, "CONT") {
                Ok(
                    Some(
                        ScopeRec {
                            id: whole_at(fields, COL_ID),
                            feature_code: fields[COL_FEATURE_CODE].clone(),
                            name: normalize_name(fields[COL_NAME].as_str()),
                            members: opt_text_at(fields, COL_CC2),
                        },
                    ),
                )
            } else {
                Ok(None)
            }
        },
    }
}

/// The domain of scopes.
pub struct Scopes;

impl Domain for Scopes {
    type Record = ScopeRec;

    type Row = ScopeRow;

    type Batch = ScopeVecs;

    open spec fn row_of(r: &ScopeRec) -> ScopeRow {
        r@
    }

    open spec fn batch_wf(b: &ScopeVecs) -> bool {
        b.wf()
    }

    open spec fn batch_rows(b: &ScopeVecs) -> Seq<ScopeRow> {
        b.rows()
    }

    open spec fn batch_room(b: &ScopeVecs) -> usize {
        b.capacity
    }

    open spec fn reading(&self, line: Seq<Seq<char>>) -> Reading<ScopeRow> {
        scope_reading(line)
    }

    fn map_line(&self, fields: &Vec<String>) -> (r: Result<Option<ScopeRec>, Fault>) {
        map_scope_line(fields)
    }

    fn new_batch(vsize: usize) -> (b: ScopeVecs) {
        ScopeVecs::new(vsize)
    }

    fn add(b: &mut ScopeVecs, r: &ScopeRec) {
        b.add_data(r)
    }

    fn row_count(b: &ScopeVecs) -> (n: usize) {
        b.len()
    }
}

/// The number of rows at which a batch of regions and continents is full.
pub const SCOPE_ROOM: usize = 500;

/// Loads the bytes of a file of regions and continents into batches of at most
/// [`SCOPE_ROOM`] rows.
pub fn import_scope_data(data: &[u8]) -> (r: Result<Loaded<Scopes>, AppError>)
    ensures
        source_outcome(&Scopes, data@, SCOPE_ROOM, r),
{
    import_source(&Scopes, data, SCOPE_ROOM)
}

/// The name of a record is clean, whatever the line.
pub proof fn lemma_scope_row_is_clean(line: Seq<Seq<char>>)
    ensures
        is_clean(scope_row(line).name),
{
    lemma_normalized_is_clean(line[COL_NAME as int]);
}

/// The statements that drop and create the table of regions and
/// continents.
pub fn create_scope_tables() -> (plan: Vec<Step>)
    ensures
        plan_view(plan@) == seq![
            (CREATE_REGIONS@, None::<Seq<char>>),
        ],
{
    let mut plan: Vec<Step> = Vec::new();
    plan.push(silent(CREATE_REGIONS));
    plan
}

/// The statements that end a run: the store reports notices again.
pub fn after_import() -> (plan: Vec<Step>)
    ensures
        plan_view(plan@) == seq![
            (RESTORE_NOTICES@, None::<Seq<char>>),
        ],
{
    let mut plan: Vec<Step> = Vec::new();
    plan.push(silent(RESTORE_NOTICES));
    plan
}

/// The columns that a batch fills, in the order of its parameters.
pub open spec fn stored_columns() -> Seq<TargetView> {
    seq![
        TargetView { name: "id"@, sql_type: "int"@ },
        TargetView { name: "feature_code"@, sql_type: "text"@ },
        TargetView { name: "name"@, sql_type: "text"@ },
        TargetView { name: "members"@, sql_type: "text"@ },
    ]
}

/// Writes the statement that stores a batch in the table of regions and
/// continents.
pub fn store_statement() -> (sql: String)
    ensures
        sql@ == insert_text("src.regions"@, stored_columns()),
{
    let mut columns: Vec<Target> = Vec::new();
    columns.push(Target { name: "id", sql_type: "int" });
    columns.push(Target { name: "feature_code", sql_type: "text" });
    columns.push(Target { name: "name", sql_type: "text" });
    columns.push(Target { name: "members", sql_type: "text" });
    assert(targets(columns@) == stored_columns());
    insert_statement("src.regions", &columns)
}

} // verus!
