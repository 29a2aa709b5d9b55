//! Countries.
use crate::batch::{Domain, Reading};
use crate::bulk::{Target, TargetView, insert_statement, insert_text, targets};
use crate::err::AppError;
use crate::line::{
    Column, Fault, Kind, check_line, column_fits, line_fault, opt, or_empty, req, required, texts,
    whole_at,
};
use crate::load::{Loaded, import_source, source_outcome};
use crate::number::i64_in;
use crate::plan::{Step, counted, plan_view, silent};
use crate::sql::{
    ADD_MISSING_COUNTRY_NAMES, CREATE_COUNTRIES, DELETE_OBSOLETE_COUNTRIES,
    DELETE_OBSOLETE_COUNTRY_NAMES, JOIN_COUNTRY_NAMES, TRANSFER_COUNTRIES,
};
use crate::text::{is_clean, lemma_normalized_is_clean, normalize_name, normalized};
use vstd::prelude::*;

verus! {

/// Column of the two-letter code.
pub const COL_ISO: usize = 0;

/// Column of the country's name.
pub const COL_COUNTRY: usize = 4;

/// Column of the capital.
pub const COL_CAPITAL: usize = 5;

/// Column of the population.
pub const COL_POPULATION: usize = 7;

/// Column of the continent.
pub const COL_CONTINENT: usize = 8;

/// Column of the top-level domain.
pub const COL_TLD: usize = 9;

/// Column of the languages.
pub const COL_LANGUAGES: usize = 15;

/// Column of the identifier.
pub const COL_ID: usize = 16;

/// The population below which a country has rank 2.
pub const SMALL_POPULATION: i64 = 320000;

/// One country, ready for storage.
#[derive(Debug)]
pub struct CountryRec {
    pub id: i64,
    pub rank: i32,
    pub iso_code: String,
    pub country_name: String,
    pub continent: String,
    pub tld: String,
    pub languages: String,
    pub capital: String,
}

/// What a [`CountryRec`] holds.
pub struct CountryRow {
    pub id: i64,
    pub rank: i32,
    pub iso_code: Seq<char>,
    pub country_name: Seq<char>,
    pub continent: Seq<char>,
    pub tld: Seq<char>,
    pub languages: Seq<char>,
    pub capital: Seq<char>,
}

impl View for CountryRec {
    type V = CountryRow;

    open spec fn view(&self) -> CountryRow {
        CountryRow {
            id: self.id,
            rank: self.rank,
            iso_code: self.iso_code@,
            country_name: self.country_name@,
            continent: self.continent@,
            tld: self.tld@,
            languages: self.languages@,
            capital: self.capital@,
        }
    }
}

/// The columns of many countries.
#[derive(Debug)]
pub struct CountryVecs {
    pub ids: Vec<i64>,
    pub ranks: Vec<i32>,
    pub iso_codes: Vec<String>,
    pub country_names: Vec<String>,
    pub continents: Vec<String>,
    pub tlds: Vec<String>,
    pub languages: Vec<String>,
    pub capitals: Vec<String>,
    /// The number of rows that the columns were sized for.
    pub capacity: usize,
}

impl CountryVecs {
    /// Whether the columns have one length.
    pub open spec fn wf(&self) -> bool {
        let n = self.ids@.len();
        &&& self.ranks@.len() == n
        &&& self.iso_codes@.len() == n
        &&& self.country_names@.len() == n
        &&& self.continents@.len() == n
        &&& self.tlds@.len() == n
        &&& self.languages@.len() == n
        &&& self.capitals@.len() == n
    }

    /// The rows, in the order in which they were added.
    pub open spec fn rows(&self) -> Seq<CountryRow> {
        Seq::new(
            self.ids@.len(),
            |i: int|
                CountryRow {
                    id: self.ids@[i],
                    rank: self.ranks@[i],
                    iso_code: self.iso_codes@[i]@,
                    country_name: self.country_names@[i]@,
                    continent: self.continents@[i]@,
                    tld: self.tlds@[i]@,
                    languages: self.languages@[i]@,
                    capital: self.capitals@[i]@,
                },
        )
    }

    /// Empty columns, sized for `vsize` rows.
    pub fn new(vsize: usize) -> (v: Self)
        ensures
            v.wf(),
            v.rows() == Seq::<CountryRow>::empty(),
            v.capacity == vsize,
    {
        CountryVecs {
            ids: Vec::with_capacity(vsize),
            ranks: Vec::with_capacity(vsize),
            iso_codes: Vec::with_capacity(vsize),
            country_names: Vec::with_capacity(vsize),
            continents: Vec::with_capacity(vsize),
            tlds: Vec::with_capacity(vsize),
            languages: Vec::with_capacity(vsize),
            capitals: Vec::with_capacity(vsize),
            capacity: vsize,
        }
    }

    /// Adds one country at the end of every column.
    pub fn add_data(&mut self, r: &CountryRec)
        requires
            old(self).wf(),
        ensures
            final(self).wf(),
            final(self).rows() == old(self).rows().push(r@),
            final(self).capacity == old(self).capacity,
    {
        self.ids.push(r.id);
        self.ranks.push(r.rank);
        self.iso_codes.push(r.iso_code.clone());
        self.country_names.push(r.country_name.clone());
        self.continents.push(r.continent.clone());
        self.tlds.push(r.tld.clone());
        self.languages.push(r.languages.clone());
        self.capitals.push(r.capital.clone());
    }

    /// The number of rows.
    pub fn len(&self) -> (n: usize)
        requires
            self.wf(),
        ensures
            n == self.rows().len(),
    {
        self.ids.len()
    }
}

/// The rank of a country with the given population: 2 below
/// [`SMALL_POPULATION`], 1 from there on.
pub open spec fn rank_of(population: int) -> i32 {
    if population < SMALL_POPULATION {
        2
    } else {
        1
    }
}

/// Computes the rank of a country from its population.
pub fn rank_for(population: i64) -> (rank: i32)
    ensures
        rank == rank_of(population as int),
{
    if population < SMALL_POPULATION {
        2
    } else {
        1
    }
}

/// The nineteen columns of a country line: two-letter code, three-letter
/// code, numeric code, FIPS code, name, capital, area, population, continent,
/// top-level domain, currency code, currency name, telephone prefix, format
/// and pattern of postal codes, languages, identifier, neighbours, alternate
/// FIPS code.
pub open spec fn country_layout() -> Seq<Column> {
    seq![
        req(Kind::Text),
        req(Kind::Text),
        req(Kind::Whole32),
        opt(Kind::Text),
        req(Kind::Text),
        opt(Kind::Text),
        req(Kind::Fraction),
        req(Kind::Whole64),
        req(Kind::Text),
        opt(Kind::Text),
        opt(Kind::Text),
        opt(Kind::Text),
        opt(Kind::Text),
        opt(Kind::Text),
        opt(Kind::Text),
        opt(Kind::Text),
        req(Kind::Whole64),
        opt(Kind::Text),
        opt(Kind::Text),
    ]
}

/// Builds the layout of a country line.
pub fn country_columns() -> (v: Vec<Column>)
    ensures
        v@ == country_layout(),
{
    let mut v: Vec<Column> = Vec::with_capacity(19);
    v.push(required(Kind::Text));
    v.push(required(Kind::Text));
    v.push(required(Kind::Whole32));
    v.push(or_empty(Kind::Text));
    v.push(required(Kind::Text));
    v.push(or_empty(Kind::Text));
    v.push(required(Kind::Fraction));
    v.push(required(Kind::Whole64));
    v.push(required(Kind::Text));
    let mut i: usize = 9;
    while i < 16
        invariant
            9 <= i <= 16,
            v@.len() == i,
            v@.take(9) == country_layout().take(9),
            forall|j: int| 9 <= j < i ==> v@[j] == opt(Kind::Text),
        decreases 16 - i,
    {
        v.push(or_empty(Kind::Text));
        i += 1;
    }
    v.push(required(Kind::Whole64));
    v.push(or_empty(Kind::Text));
    v.push(or_empty(Kind::Text));
    assert(v@ == country_layout()) by {
        assert forall|j: int| 0 <= j < 19 implies v@[j] == country_layout()[j] by {
            if j < 9 {
                assert(country_layout()[j] == country_layout().take(9)[j]);
            }
        }
    }
    v
}

/// The country that a well-formed line gives. An optional text that is left
/// empty gives the empty text.
pub open spec fn country_row(line: Seq<Seq<char>>) -> CountryRow {
    CountryRow {
        id: i64_in(line[COL_ID as int])->0 as i64,
        rank: rank_of(i64_in(line[COL_POPULATION as int])->0),
        iso_code: line[COL_ISO as int],
        country_name: normalized(line[COL_COUNTRY as int]),
        continent: line[COL_CONTINENT as int],
        tld: line[COL_TLD as int],
        languages: line[COL_LANGUAGES as int],
        capital: normalized(line[COL_CAPITAL as int]),
    }
}

/// What becomes of a line: every well-formed line is kept.
pub open spec fn country_reading(line: Seq<Seq<char>>) -> Reading<CountryRow> {
    match line_fault(line, country_layout()) {
        Some(f) => Reading::Refused(f),
        None => Reading::Kept(country_row(line)),
    }
}

/// Maps one line to a country.
pub fn map_country_line(fields: &Vec<String>) -> (r: Result<CountryRec, Fault>)
    ensures
        match r {
            Ok(rec) => country_reading(texts(fields@)) == Reading::Kept(rec@),
            Err(f) => country_reading(texts(fields@)) == Reading::<CountryRow>::Refused(f),
        },
{
    let layout = country_columns();
    match check_line(fields, &layout) {
        Err(f) => Err(f),
        Ok(_) => {
            proof {
                let line = texts(fields@);
                assert(column_fits(line, country_layout(), COL_ID as int));
                assert(column_fits(line, country_layout(), COL_POPULATION as int));
            }
            Ok(
                CountryRec {
                    id: whole_at(fields, COL_ID),
                    rank: rank_for(whole_at(fields, COL_POPULATION)),
                    iso_code: fields[COL_ISO].clone(),
                    country_name: normalize_name(fields[COL_COUNTRY].as_str()),
                    continent: fields[COL_CONTINENT].clone(),
                    tld: fields[COL_TLD].clone(),
                    languages: fields[COL_LANGUAGES].clone(),
                    capital: normalize_name(fields[COL_CAPITAL].as_str()),
                },
            )
        },
    }
}

/// The domain of countries.
pub struct Countries;

impl Domain for Countries {
    type Record = CountryRec;

    type Row = CountryRow;

    type Batch = CountryVecs;

    open spec fn row_of(r: &CountryRec) -> CountryRow {
        r@
    }

    open spec fn batch_wf(b: &CountryVecs) -> bool {
        b.wf()
    }

    open spec fn batch_rows(b: &CountryVecs) -> Seq<CountryRow> {
        b.rows()
    }

    open spec fn batch_room(b: &CountryVecs) -> usize {
        b.capacity
    }

    open spec fn reading(&self, line: Seq<Seq<char>>) -> Reading<CountryRow> {
        country_reading(line)
    }

    fn map_line(&self, fields: &Vec<String>) -> (r: Result<Option<CountryRec>, Fault>) {
        match map_country_line(fields) {
            Ok(rec) => Ok(Some(rec)),
            Err(f) => Err(f),
        }
    }

    fn new_batch(vsize: usize) -> (b: CountryVecs) {
        CountryVecs::new(vsize)
    }

    fn add(b: &mut CountryVecs, r: &CountryRec) {
        b.add_data(r)
    }

    fn row_count(b: &CountryVecs) -> (n: usize) {
        b.len()
    }
}

/// The number of rows at which a batch of countries is full.
pub const COUNTRY_ROOM: usize = 500;

/// Loads the bytes of a file of countries into batches of at most
/// [`COUNTRY_ROOM`] rows.
pub fn import_countries_data(data: &[u8]) -> (r: Result<Loaded<Countries>, AppError>)
    ensures
        source_outcome(&Countries, data@, COUNTRY_ROOM, r),
{
    import_source(&Countries, data, COUNTRY_ROOM)
}

/// The names of a record are clean, whatever the line.
pub proof fn lemma_country_row_is_clean(line: Seq<Seq<char>>)
    ensures
        is_clean(country_row(line).country_name),
        is_clean(country_row(line).capital),
{
    lemma_normalized_is_clean(line[COL_COUNTRY as int]);
    lemma_normalized_is_clean(line[COL_CAPITAL as int]);
}

/// The statements that drop and create the tables of countries and of
/// their names.
pub fn create_country_tables() -> (plan: Vec<Step>)
    ensures
        plan_view(plan@) == seq![
            (CREATE_COUNTRIES@, None::<Seq<char>>),
        ],
{
    let mut plan: Vec<Step> = Vec::new();
    plan.push(silent(CREATE_COUNTRIES));
    plan
}

/// The statements that copy the countries in the order of their names.
pub fn transfer_countries() -> (plan: Vec<Step>)
    ensures
        plan_view(plan@) == seq![
            (TRANSFER_COUNTRIES@, Some("country records transferred to geo schema"@)),
        ],
{
    let mut plan: Vec<Step> = Vec::new();
    plan.push(counted(TRANSFER_COUNTRIES, "country records transferred to geo schema"));
    plan
}

/// The statements that give every country a row for each of its alternate
/// names.
pub fn create_country_names() -> (plan: Vec<Step>)
    ensures
        plan_view(plan@) == seq![
            (JOIN_COUNTRY_NAMES@, Some("country name records created"@)),
        ],
{
    let mut plan: Vec<Step> = Vec::new();
    plan.push(counted(JOIN_COUNTRY_NAMES, "country name records created"));
    plan
}

/// The statements that give every country its own name as a name, and then
/// delete three countries that for most purposes are none.
pub fn adjust_names() -> (plan: Vec<Step>)
    ensures
        plan_view(plan@) == seq![
            (ADD_MISSING_COUNTRY_NAMES@, Some("missing country name records added"@)),
            (DELETE_OBSOLETE_COUNTRIES@, None::<Seq<char>>),
            (DELETE_OBSOLETE_COUNTRY_NAMES@, None::<Seq<char>>),
        ],
{
    let mut plan: Vec<Step> = Vec::new();
    plan.push(counted(ADD_MISSING_COUNTRY_NAMES, "missing country name records added"));
    plan.push(silent(DELETE_OBSOLETE_COUNTRIES));
    plan.push(silent(DELETE_OBSOLETE_COUNTRY_NAMES));
    plan
}

/// The columns that a batch fills, in the order of its parameters.
pub open spec fn stored_columns() -> Seq<TargetView> {
    seq![
        TargetView { name: "id"@, sql_type: "int"@ },
        TargetView { name: "rank"@, sql_type: "int"@ },
        TargetView { name: "iso_code"@, sql_type: "text"@ },
        TargetView { name: "country_name"@, sql_type: "text"@ },
        TargetView { name: "continent"@, sql_type: "text"@ },
        TargetView { name: "tld"@, sql_type: "text"@ },
        TargetView { name: "languages"@, sql_type: "text"@ },
        TargetView { name: "capital"@, sql_type: "text"@ },
    ]
}

/// Writes the statement that stores a batch in the table of countries.
pub fn store_statement() -> (sql: String)
    ensures
        sql@ == insert_text("geo.countries"@, stored_columns()),
{
    let mut columns: Vec<Target> = Vec::new();
    columns.push(Target { name: "id", sql_type: "int" });
    columns.push(Target { name: "rank", sql_type: "int" });
    columns.push(Target { name: "iso_code", sql_type: "text" });
    columns.push(Target { name: "country_name", sql_type: "text" });
    columns.push(Target { name: "continent", sql_type: "text" });
    columns.push(Target { name: "tld", sql_type: "text" });
    columns.push(Target { name: "languages", sql_type: "text" });
    columns.push(Target { name: "capital", sql_type: "text" });
    assert(targets(columns@) == stored_columns());
    insert_statement("geo.countries", &columns)
}

} // verus!
