//! Populated places.
use crate::batch::{Domain, Reading};
use crate::bulk::{Target, TargetView, insert_statement, insert_text, targets};
use crate::err::AppError;
use crate::feature::{
    COL_ADMIN1, COL_ADMIN2, COL_COUNTRY, COL_ID, COL_LAT, COL_LNG, COL_NAME, COL_POPULATION,
    feature_columns, feature_layout,
};
use crate::line::{
    Fault, check_line, column_fits, line_fault, opt_text_at, opt_whole_at, optional, texts,
    whole_at,
};
use crate::load::{Loaded, import_source, source_outcome};
use crate::number::i64_in;
use crate::plan::{Step, counted, plan_view, silent};
use crate::scopes::opt_text;
use crate::sql::{
    CREATE_CITIES, CREATE_CITY_NAMES, DELETE_DUP_CITY_NAMES, FIND_DUP_CITY_NAMES, JOIN_CITY_NAMES,
    TRANSFER_CITY_NAMES,
};
use crate::text::{is_clean, lemma_normalized_is_clean, normalize_name, normalized, same_text};
use vstd::prelude::*;
use vstd::string::StringExecFns;

verus! {

/// One populated place, ready for storage. The coordinates are carried as
/// the text of the source line.
#[derive(Debug)]
pub struct CityRec {
    pub id: i64,
    pub name: String,
    pub disamb_type: String,
    pub disamb_code: String,
    pub country_code: String,
    pub lat: Option<String>,
    pub lng: Option<String>,
    pub population: Option<i64>,
}

/// The stored columns of a [`CityRec`].
pub struct CityRow {
    pub id: i64,
    pub name: Seq<char>,
    pub disamb_type: Seq<char>,
    pub disamb_code: Seq<char>,
    pub country_code: Seq<char>,
    pub lat: Option<Seq<char>>,
    pub lng: Option<Seq<char>>,
}

impl CityRec {
    /// The stored columns of the place.
    pub open spec fn row(&self) -> CityRow {
        CityRow {
            id: self.id,
            name: self.name@,
            disamb_type: self.disamb_type@,
            disamb_code: self.disamb_code@,
            country_code: self.country_code@,
            lat: opt_text(self.lat),
            lng: opt_text(self.lng),
        }
    }
}

/// The columns of many populated places.
#[derive(Debug)]
pub struct CityVecs {
    pub ids: Vec<i64>,
    pub names: Vec<String>,
    pub disamb_types: Vec<String>,
    pub disamb_codes: Vec<String>,
    pub country_codes: Vec<String>,
    pub lats: Vec<Option<String>>,
    pub lngs: Vec<Option<String>>,
    /// The number of rows that the columns were sized for.
    pub capacity: usize,
}

/// A copy of an optional string.
pub fn copy_opt(s: &Option<String>) -> (r: Option<String>)
    ensures
        opt_text(r) == opt_text(*s),
{
    match s {
        Some(t) => Some(t.clone()),
        None => None,
    }
}

impl CityVecs {
    /// Whether the columns have one length.
    pub open spec fn wf(&self) -> bool {
        let n = self.ids@.len();
        &&& self.names@.len() == n
        &&& self.disamb_types@.len() == n
        &&& self.disamb_codes@.len() == n
        &&& self.country_codes@.len() == n
        &&& self.lats@.len() == n
        &&& self.lngs@.len() == n
    }

    /// The rows, in the order in which they were added.
    pub open spec fn rows(&self) -> Seq<CityRow> {
        Seq::new(
            self.ids@.len(),
            |i: int|
                CityRow {
                    id: self.ids@[i],
                    name: self.names@[i]@,
                    disamb_type: self.disamb_types@[i]@,
                    disamb_code: self.disamb_codes@[i]@,
                    country_code: self.country_codes@[i]@,
                    lat: opt_text(self.lats@[i]),
                    lng: opt_text(self.lngs@[i]),
                },
        )
    }

    /// Empty columns, sized for `vsize` rows.
    pub fn new(vsize: usize) -> (v: Self)
        ensures
            v.wf(),
            v.rows() == Seq::<CityRow>::empty(),
            v.capacity == vsize,
    {
        CityVecs {
            ids: Vec::with_capacity(vsize),
            names: Vec::with_capacity(vsize),
            disamb_types: Vec::with_capacity(vsize),
            disamb_codes: Vec::with_capacity(vsize),
            country_codes: Vec::with_capacity(vsize),
            lats: Vec::with_capacity(vsize),
            lngs: Vec::with_capacity(vsize),
            capacity: vsize,
        }
    }

    /// Adds one place at the end of every column.
    pub fn add_data(&mut self, r: &CityRec)
        requires
            old(self).wf(),
        ensures
            final(self).wf(),
            final(self).rows() == old(self).rows().push(r.row()),
            final(self).capacity == old(self).capacity,
    {
        self.ids.push(r.id);
        self.names.push(r.name.clone());
        self.disamb_types.push(r.disamb_type.clone());
        self.disamb_codes.push(r.disamb_code.clone());
        self.country_codes.push(r.country_code.clone());
        self.lats.push(copy_opt(&r.lat));
        self.lngs.push(copy_opt(&r.lng));
    }

    /// The number of rows.
    pub fn len(&self) -> (n: usize)
        requires
            self.wf(),
        ensures
            n == self.rows().len(),
    {
        self.ids.len()
    }
}

/// How a place is told apart from others of the same name: the level of the
/// administrative area that does it, the code of that area, and the country.
#[derive(Debug)]
pub struct Disambiguation {
    pub disamb_type: String,
    pub disamb_code: String,
    pub country_code: String,
}

/// What a [`Disambiguation`] holds.
pub struct DisambiguationView {
    pub disamb_type: Seq<char>,
    pub disamb_code: Seq<char>,
    pub country_code: Seq<char>,
}

impl View for Disambiguation {
    type V = DisambiguationView;

    open spec fn view(&self) -> DisambiguationView {
        DisambiguationView {
            disamb_type: self.disamb_type@,
            disamb_code: self.disamb_code@,
            country_code: self.country_code@,
        }
    }
}

/// Whether places of this country are told apart by their second-level area.
pub open spec fn needs_admin2(country: Seq<char>) -> bool {
    country == "GB"@ || country == "FR"@
}

/// The disambiguation of a place. Without a country everything is `none`.
/// With one, the level is `admin1`, and `admin2` for the countries of
/// [`needs_admin2`]; the code joins the country and the area codes down to
/// that level with full stops, and is `none` where one of them is absent.
pub open spec fn disambiguation(
    country: Option<Seq<char>>,
    admin1: Option<Seq<char>>,
    admin2: Option<Seq<char>>,
) -> DisambiguationView {
    match country {
        None => DisambiguationView {
            disamb_type: "none"@,
            disamb_code: "none"@,
            country_code: "none"@,
        },
        Some(c) => if needs_admin2(c) {
            DisambiguationView {
                disamb_type: "admin2"@,
                disamb_code: if admin1 is Some && admin2 is Some {
                    c + "."@ + admin1->0 + "."@ + admin2->0
                } else {
                    "none"@
                },
                country_code: c,
            }
        } else {
            DisambiguationView {
                disamb_type: "admin1"@,
                disamb_code: if admin1 is Some {
                    c + "."@ + admin1->0
                } else {
                    "none"@
                },
                country_code: c,
            }
        },
    }
}

/// Computes the disambiguation of a place.
pub fn disambiguate(
    country: &Option<String>,
    admin1: &Option<String>,
    admin2: &Option<String>,
) -> (d: Disambiguation)
    ensures
        d@ == disambiguation(opt_text(*country), opt_text(*admin1), opt_text(*admin2)),
{
    match country {
        None => Disambiguation {
            disamb_type: String::from_str("none"),
            disamb_code: String::from_str("none"),
            country_code: String::from_str("none"),
        },
        Some(c) => {
            let second = same_text(c.as_str(), "GB") || same_text(c.as_str(), "FR");
            let mut code = String::from_str("none");
            match admin1 {
                None => {},
                Some(a1) => {
                    if !second {
                        code = c.clone();
                        code.append(".");
                        code.append(a1.as_str());
                    } else {
                        match admin2 {
                            None => {},
                            Some(a2) => {
                                code = c.clone();
                                code.append(".");
                                code.append(a1.as_str());
                                code.append(".");
                                code.append(a2.as_str());
                            },
                        }
                    }
                },
            }
            Disambiguation {
                disamb_type: if second {
                    String::from_str("admin2")
                } else {
                    String::from_str("admin1")
                },
                disamb_code: code,
                country_code: c.clone(),
            }
        },
    }
}

/// The stored columns that a well-formed line gives.
pub open spec fn city_row(line: Seq<Seq<char>>) -> CityRow {
    let d = disambiguation(
        optional(line[COL_COUNTRY as int]),
        optional(line[COL_ADMIN1 as int]),
        optional(line[COL_ADMIN2 as int]),
    );
    CityRow {
        id: i64_in(line[COL_ID as int])->0 as i64,
        name: normalized(line[COL_NAME as int]),
        disamb_type: d.disamb_type,
        disamb_code: d.disamb_code,
        country_code: d.country_code,
        lat: optional(line[COL_LAT as int]),
        lng: optional(line[COL_LNG as int]),
    }
}

/// The population that a well-formed line gives.
pub open spec fn city_population(line: Seq<Seq<char>>) -> Option<i64> {
    if line[COL_POPULATION as int].len() == 0 {
        None
    } else {
        Some(i64_in(line[COL_POPULATION as int])->0 as i64)
    }
}

/// What becomes of a line: every well-formed line is kept.
pub open spec fn city_reading(line: Seq<Seq<char>>) -> Reading<CityRow> {
    match line_fault(line, feature_layout()) {
        Some(f) => Reading::Refused(f),
        None => Reading::Kept(city_row(line)),
    }
}

/// Maps one line to a populated place.
pub fn map_city_line(fields: &Vec<String>) -> (r: Result<CityRec, Fault>)
    ensures
        match r {
            Ok(rec) => {
                &&& city_reading(texts(fields@)) == Reading::Kept(rec.row())
                &&& rec.population == city_population(texts(fields@))
            },
            Err(f) => city_reading(texts(fields@)) == Reading::<CityRow>::Refused(f),
        },
{
    let layout = feature_columns();
    match check_line(fields, &layout) {
        Err(f) => Err(f),
        Ok(_) => {
            proof {
                let line = texts(fields@);
                assert(column_fits(line, feature_layout(), COL_POPULATION as int));
            }
            let country = opt_text_at(fields, COL_COUNTRY);
            let admin1 = opt_text_at(fields, COL_ADMIN1);
            let admin2 = opt_text_at(fields, COL_ADMIN2);
            let d = disambiguate(&country, &admin1, &admin2);
            Ok(
                CityRec {
                    id: whole_at(fields, COL_ID),
                    name: normalize_name(fields[COL_NAME].as_str()),
                    disamb_type: d.disamb_type,
                    disamb_code: d.disamb_code,
                    country_code: d.country_code,
                    lat: opt_text_at(fields, COL_LAT),
                    lng: opt_text_at(fields, COL_LNG),
                    population: opt_whole_at(fields, COL_POPULATION),
                },
            )
        },
    }
}

/// The domain of populated places.
pub struct Cities;

impl Domain for Cities {
    type Record = CityRec;

    type Row = CityRow;

    type Batch = CityVecs;

    open spec fn row_of(r: &CityRec) -> CityRow {
        r.row()
    }

    open spec fn batch_wf(b: &CityVecs) -> bool {
        b.wf()
    }

    open spec fn batch_rows(b: &CityVecs) -> Seq<CityRow> {
        b.rows()
    }

    open spec fn batch_room(b: &CityVecs) -> usize {
        b.capacity
    }

    open spec fn reading(&self, line: Seq<Seq<char>>) -> Reading<CityRow> {
        city_reading(line)
    }

    fn map_line(&self, fields: &Vec<String>) -> (r: Result<Option<CityRec>, Fault>) {
        match map_city_line(fields) {
            Ok(rec) => Ok(Some(rec)),
            Err(f) => Err(f),
        }
    }

    fn new_batch(vsize: usize) -> (b: CityVecs) {
        CityVecs::new(vsize)
    }

    fn add(b: &mut CityVecs, r: &CityRec) {
        b.add_data(r)
    }

    fn row_count(b: &CityVecs) -> (n: usize) {
        b.len()
    }
}

/// The number of rows at which a batch of populated places is full.
pub const CITY_ROOM: usize = 10000;

/// Loads the bytes of a file of populated places into batches of at most
/// [`CITY_ROOM`] rows.
pub fn import_cities_data(data: &[u8]) -> (r: Result<Loaded<Cities>, AppError>)
    ensures
        source_outcome(&Cities, data@, CITY_ROOM, r),
{
    import_source(&Cities, data, CITY_ROOM)
}

/// The name of a record is clean, whatever the line.
pub proof fn lemma_city_row_is_clean(line: Seq<Seq<char>>)
    ensures
        is_clean(city_row(line).name),
{
    lemma_normalized_is_clean(line[COL_NAME as int]);
}

/// The statements that drop and create the tables of places and of their
/// names.
pub fn create_city_tables() -> (plan: Vec<Step>)
    ensures
        plan_view(plan@) == seq![
            (CREATE_CITIES@, None::<Seq<char>>),
            (CREATE_CITY_NAMES@, None::<Seq<char>>),
        ],
{
    let mut plan: Vec<Step> = Vec::new();
    plan.push(silent(CREATE_CITIES));
    plan.push(silent(CREATE_CITY_NAMES));
    plan
}

/// The statements that give every place a row for each of its alternate
/// names.
pub fn create_city_names() -> (plan: Vec<Step>)
    ensures
        plan_view(plan@) == seq![
            (JOIN_CITY_NAMES@, Some("city name records created"@)),
        ],
{
    let mut plan: Vec<Step> = Vec::new();
    plan.push(counted(JOIN_CITY_NAMES, "city name records created"));
    plan
}

/// The statements that delete the names that occur more than once within
/// one country, where they are not the canonical name of their place.
pub fn delete_dup_city_names() -> (plan: Vec<Step>)
    ensures
        plan_view(plan@) == seq![
            (FIND_DUP_CITY_NAMES@, None::<Seq<char>>),
            (DELETE_DUP_CITY_NAMES@, Some("duplicate non-default city name records deleted (same country, name)"@)),
        ],
{
    let mut plan: Vec<Step> = Vec::new();
    plan.push(silent(FIND_DUP_CITY_NAMES));
    plan.push(counted(DELETE_DUP_CITY_NAMES, "duplicate non-default city name records deleted (same country, name)"));
    plan
}

/// The statements that fill the table of names that consumers read.
pub fn transfer_names_to_mdr() -> (plan: Vec<Step>)
    ensures
        plan_view(plan@) == seq![
            (TRANSFER_CITY_NAMES@, None::<Seq<char>>),
        ],
{
    let mut plan: Vec<Step> = Vec::new();
    plan.push(silent(TRANSFER_CITY_NAMES));
    plan
}

/// The columns that a batch fills, in the order of its parameters.
pub open spec fn stored_columns() -> Seq<TargetView> {
    seq![
        TargetView { name: "id"@, sql_type: "int"@ },
        TargetView { name: "name"@, sql_type: "text"@ },
        TargetView { name: "disamb_type"@, sql_type: "text"@ },
        TargetView { name: "disamb_code"@, sql_type: "text"@ },
        TargetView { name: "country_code"@, sql_type: "text"@ },
        TargetView { name: "lat"@, sql_type: "float"@ },
        TargetView { name: "lng"@, sql_type: "float"@ },
    ]
}

/// Writes the statement that stores a batch in the table of places.
pub fn store_statement() -> (sql: String)
    ensures
        sql@ == insert_text("geo.cities"@, stored_columns()),
{
    let mut columns: Vec<Target> = Vec::new();
    columns.push(Target { name: "id", sql_type: "int" });
    columns.push(Target { name: "name", sql_type: "text" });
    columns.push(Target { name: "disamb_type", sql_type: "text" });
    columns.push(Target { name: "disamb_code", sql_type: "text" });
    columns.push(Target { name: "country_code", sql_type: "text" });
    columns.push(Target { name: "lat", sql_type: "float" });
    columns.push(Target { name: "lng", sql_type: "float" });
    assert(targets(columns@) == stored_columns());
    insert_statement("geo.cities", &columns)
}

} // verus!
