//! The table of places after loading: the placeholder of a missing code is
//! replaced by nothing, and the names and identifiers of countries and
//! administrative areas are attached by their codes.
use crate::dedup::text_of;
use crate::text::same_text;
use vstd::prelude::*;

verus! {

/// One row of the table of places.
#[derive(Debug)]
pub struct CityEntry {
    pub id: i64,
    pub name: String,
    pub disamb_type: String,
    pub disamb_id: Option<i64>,
    pub disamb_code: Option<String>,
    pub disamb_name: Option<String>,
    pub country_id: Option<i64>,
    pub country_code: Option<String>,
    pub country_name: Option<String>,
}

/// What a [`CityEntry`] holds.
pub struct CityEntryRow {
    pub id: i64,
    pub name: Seq<char>,
    pub disamb_type: Seq<char>,
    pub disamb_id: Option<i64>,
    pub disamb_code: Option<Seq<char>>,
    pub disamb_name: Option<Seq<char>>,
    pub country_id: Option<i64>,
    pub country_code: Option<Seq<char>>,
    pub country_name: Option<Seq<char>>,
}

impl View for CityEntry {
    type V = CityEntryRow;

    open spec fn view(&self) -> CityEntryRow {
        CityEntryRow {
            id: self.id,
            name: self.name@,
            disamb_type: self.disamb_type@,
            disamb_id: self.disamb_id,
            disamb_code: text_of(self.disamb_code),
            disamb_name: text_of(self.disamb_name),
            country_id: self.country_id,
            country_code: text_of(self.country_code),
            country_name: text_of(self.country_name),
        }
    }
}

/// The rows of a list.
pub open spec fn entry_rows(rows: Seq<CityEntry>) -> Seq<CityEntryRow> {
    Seq::new(rows.len(), |i: int| rows[i]@)
}

/// A country or an administrative area to refer to: its code, its
/// identifier and its name.
#[derive(Debug)]
pub struct Reference {
    pub code: String,
    pub id: i64,
    pub name: String,
}

/// What a [`Reference`] holds.
pub struct ReferenceRow {
    pub code: Seq<char>,
    pub id: i64,
    pub name: Seq<char>,
}

impl View for Reference {
    type V = ReferenceRow;

    open spec fn view(&self) -> ReferenceRow {
        ReferenceRow { code: self.code@, id: self.id, name: self.name@ }
    }
}

/// The rows of a list of references.
pub open spec fn reference_rows(refs: Seq<Reference>) -> Seq<ReferenceRow> {
    Seq::new(refs.len(), |i: int| refs[i]@)
}

/// A code without the placeholder: `none` stands for no code.
pub open spec fn without_placeholder(code: Option<Seq<char>>) -> Option<Seq<char>> {
    if code == Some("none"@) {
        None
    } else {
        code
    }
}

/// A row with no placeholder in the code of its area or of its country; a
/// row without a country has no country identifier either.
pub open spec fn nulled(e: CityEntryRow) -> CityEntryRow {
    CityEntryRow {
        disamb_code: without_placeholder(e.disamb_code),
        country_code: without_placeholder(e.country_code),
        country_id: if e.country_code == Some("none"@) {
            None
        } else {
            e.country_id
        },
        ..e
    }
}

/// The first of the references `0` to `n - 1` that has the code `code`.
pub open spec fn find_reference(refs: Seq<ReferenceRow>, code: Seq<char>, n: int) -> Option<int>
    decreases n,
{
    if n <= 0 {
        None
    } else {
        match find_reference(refs, code, n - 1) {
            Some(k) => Some(k),
            None => if refs[n - 1].code == code {
                Some(n - 1)
            } else {
                None
            },
        }
    }
}

/// The reference for an optional code: the first with that code, if the
/// code is there and a reference has it.
pub open spec fn reference_for(refs: Seq<ReferenceRow>, code: Option<Seq<char>>) -> Option<
    ReferenceRow,
> {
    match code {
        None => None,
        Some(c) => match find_reference(refs, c, refs.len() as int) {
            Some(k) => Some(refs[k]),
            None => None,
        },
    }
}

/// A row with the identifier and name of its country attached, where a
/// country has its code.
pub open spec fn with_country(e: CityEntryRow, countries: Seq<ReferenceRow>) -> CityEntryRow {
    match reference_for(countries, e.country_code) {
        Some(c) => CityEntryRow { country_id: Some(c.id), country_name: Some(c.name), ..e },
        None => e,
    }
}

/// Whether a row takes its area from `areas`: it is disambiguated at
/// `level`, and an area has its code.
pub open spec fn takes_area(e: CityEntryRow, areas: Seq<ReferenceRow>, level: Seq<char>) -> bool {
    e.disamb_type == level && reference_for(areas, e.disamb_code) is Some
}

/// A row with the identifier and name of its area attached, where it takes
/// its area from `areas`.
pub open spec fn with_area(e: CityEntryRow, areas: Seq<ReferenceRow>, level: Seq<char>) -> CityEntryRow {
    if takes_area(e, areas, level) {
        let a = reference_for(areas, e.disamb_code)->0;
        CityEntryRow { disamb_id: Some(a.id), disamb_name: Some(a.name), ..e }
    } else {
        e
    }
}

/// A row after the whole update.
pub open spec fn updated(
    e: CityEntryRow,
    countries: Seq<ReferenceRow>,
    adm1s: Seq<ReferenceRow>,
    adm2s: Seq<ReferenceRow>,
) -> CityEntryRow {
    with_area(
        with_area(with_country(nulled(e), countries), adm1s, "admin1"@),
        adm2s,
        "admin2"@,
    )
}

/// The number of rows among the first `n` that take their area from `areas`
/// once the placeholders are gone.
pub open spec fn area_count(
    rows: Seq<CityEntryRow>,
    areas: Seq<ReferenceRow>,
    level: Seq<char>,
    n: int,
) -> nat
    decreases n,
{
    if n <= 0 {
        0
    } else {
        area_count(rows, areas, level, n - 1) + if takes_area(nulled(rows[n - 1]), areas, level) {
            1nat
        } else {
            0nat
        }
    }
}

/// How many rows an update gave an area of the first and of the second
/// level.
#[derive(Clone, Copy, Debug, PartialEq, Eq, Structural)]
pub struct UpdateCounts {
    pub admin1: usize,
    pub admin2: usize,
}

/// Removes the placeholder from an optional code.
pub fn drop_placeholder(code: &Option<String>) -> (r: Option<String>)
    ensures
        text_of(r) == without_placeholder(text_of(*code)),
{
    match code {
        None => None,
        Some(c) => if same_text(c.as_str(), "none") {
            None
        } else {
            Some(c.clone())
        },
    }
}

/// Looks a code up among references.
pub fn lookup(refs: &Vec<Reference>, code: &Option<String>) -> (r: Option<usize>)
    ensures
        match r {
            Some(k) => k < refs@.len() && reference_for(reference_rows(refs@), text_of(*code))
                == Some(refs@[k as int]@),
            None => reference_for(reference_rows(refs@), text_of(*code)) is None,
        },
{
    match code {
        None => None,
        Some(c) => {
            let ghost all = reference_rows(refs@);
            let mut k: usize = 0;
            while k < refs.len()
                invariant
                    k <= refs.len(),
                    all == reference_rows(refs@),
                    text_of(*code) == Some(c@),
                    find_reference(all, c@, k as int) is None,
                decreases refs.len() - k,
            {
                if same_text(refs[k].code.as_str(), c.as_str()) {
                    proof {
                        lemma_found_stays(all, c@, k + 1, refs.len() as int);
                    }
                    return Some(k);
                }
                k += 1;
            }
            None
        },
    }
}

/// What was found among the first references is what is found among all.
pub proof fn lemma_found_stays(refs: Seq<ReferenceRow>, code: Seq<char>, n: int, m: int)
    requires
        0 <= n <= m,
        find_reference(refs, code, n) is Some,
    ensures
        find_reference(refs, code, m) == find_reference(refs, code, n),
    decreases m - n,
{
    if n < m {
        lemma_found_stays(refs, code, n, m - 1);
    }
}

fn copy_text(s: &Option<String>) -> (r: Option<String>)
    ensures
        text_of(r) == text_of(*s),
{
    match s {
        Some(t) => Some(t.clone()),
        None => None,
    }
}

/// Updates one row.
fn update_entry(
    e: &CityEntry,
    countries: &Vec<Reference>,
    adm1s: &Vec<Reference>,
    adm2s: &Vec<Reference>,
) -> (r: (CityEntry, bool, bool))
    ensures
        r.0@ == updated(
            e@,
            reference_rows(countries@),
            reference_rows(adm1s@),
            reference_rows(adm2s@),
        ),
        r.1 == takes_area(nulled(e@), reference_rows(adm1s@), "admin1"@),
        r.2 == takes_area(nulled(e@), reference_rows(adm2s@), "admin2"@),
{
    let disamb_code = drop_placeholder(&e.disamb_code);
    let country_code = drop_placeholder(&e.country_code);
    let mut country_id = match &e.country_code {
        Some(c) => if same_text(c.as_str(), "none") {
            None
        } else {
            e.country_id
        },
        None => e.country_id,
    };
    let mut country_name = copy_text(&e.country_name);
    match lookup(countries, &country_code) {
        Some(k) => {
            country_id = Some(countries[k].id);
            country_name = Some(countries[k].name.clone());
        },
        None => {},
    }
    let mut disamb_id = e.disamb_id;
    let mut disamb_name = copy_text(&e.disamb_name);
    let mut first = false;
    let mut second = false;
    if same_text(e.disamb_type.as_str(), "admin1") {
        match lookup(adm1s, &disamb_code) {
            Some(k) => {
                disamb_id = Some(adm1s[k].id);
                disamb_name = Some(adm1s[k].name.clone());
                first = true;
            },
            None => {},
        }
    }
    if same_text(e.disamb_type.as_str(), "admin2") {
        match lookup(adm2s, &disamb_code) {
            Some(k) => {
                disamb_id = Some(adm2s[k].id);
                disamb_name = Some(adm2s[k].name.clone());
                second = true;
            },
            None => {},
        }
    }
    proof {
        reveal_strlit("admin1");
        reveal_strlit("admin2");
    }
    (
        CityEntry {
            id: e.id,
            name: e.name.clone(),
            disamb_type: e.disamb_type.clone(),
            disamb_id,
            disamb_code,
            disamb_name,
            country_id,
            country_code,
            country_name,
        },
        first,
        second,
    )
}

/// Updates the table of places: placeholders go, countries and areas are
/// attached. Gives the rows after the update, in their order, and how many
/// of them were given an area of each level.
pub fn update_cities_data(
    rows: &Vec<CityEntry>,
    countries: &Vec<Reference>,
    adm1s: &Vec<Reference>,
    adm2s: &Vec<Reference>,
) -> (r: (Vec<CityEntry>, UpdateCounts))
    ensures
        r.0@.len() == rows@.len(),
        forall|i: int|
            0 <= i < rows@.len() ==> (#[trigger] r.0@[i])@ == updated(
                rows@[i]@,
                reference_rows(countries@),
                reference_rows(adm1s@),
                reference_rows(adm2s@),
            ),
        r.1.admin1 == area_count(
            entry_rows(rows@),
            reference_rows(adm1s@),
            "admin1"@,
            rows@.len() as int,
        ),
        r.1.admin2 == area_count(
            entry_rows(rows@),
            reference_rows(adm2s@),
            "admin2"@,
            rows@.len() as int,
        ),
{
    let mut out: Vec<CityEntry> = Vec::with_capacity(rows.len());
    let mut admin1: usize = 0;
    let mut admin2: usize = 0;
    let mut i: usize = 0;
    while i < rows.len()
        invariant
            i <= rows.len(),
            out@.len() == i,
            forall|k: int|
                0 <= k < i ==> (#[trigger] out@[k])@ == updated(
                    rows@[k]@,
                    reference_rows(countries@),
                    reference_rows(adm1s@),
                    reference_rows(adm2s@),
                ),
            admin1 == area_count(entry_rows(rows@), reference_rows(adm1s@), "admin1"@, i as int),
            admin2 == area_count(entry_rows(rows@), reference_rows(adm2s@), "admin2"@, i as int),
            admin1 <= i,
            admin2 <= i,
        decreases rows.len() - i,
    {
        let (entry, first, second) = update_entry(&rows[i], countries, adm1s, adm2s);
        out.push(entry);
        if first {
            admin1 += 1;
        }
        if second {
            admin2 += 1;
        }
        i += 1;
    }
    (out, UpdateCounts { admin1, admin2 })
}

/// After the update no row has the placeholder for the code of its area or
/// of its country.
pub proof fn lemma_no_placeholder_left(
    e: CityEntryRow,
    countries: Seq<ReferenceRow>,
    adm1s: Seq<ReferenceRow>,
    adm2s: Seq<ReferenceRow>,
)
    ensures
        updated(e, countries, adm1s, adm2s).disamb_code != Some("none"@),
        updated(e, countries, adm1s, adm2s).country_code != Some("none"@),
{
}

} // verus!
