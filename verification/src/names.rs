//! The table of names: every entity with its canonical name and one of its
//! alternate names per row, and the backfill of missing default names.
use crate::dedup::text_of;
use crate::text::same_text;
use vstd::prelude::*;

verus! {

/// One row of the table of names.
#[derive(Debug)]
pub struct NameEntry {
    /// The identifier of the entity.
    pub id: i64,
    /// The canonical name of the entity.
    pub canonical: String,
    pub disamb_id: Option<i64>,
    pub disamb_name: Option<String>,
    pub country_id: Option<i64>,
    pub country_name: Option<String>,
    /// One of the names of the entity.
    pub alt_name: String,
    /// The languages in which the name is used.
    pub langlist: Option<String>,
}

/// What a [`NameEntry`] holds.
pub struct NameRow {
    pub id: i64,
    pub canonical: Seq<char>,
    pub disamb_id: Option<i64>,
    pub disamb_name: Option<Seq<char>>,
    pub country_id: Option<i64>,
    pub country_name: Option<Seq<char>>,
    pub alt_name: Seq<char>,
    pub langlist: Option<Seq<char>>,
}

impl View for NameEntry {
    type V = NameRow;

    open spec fn view(&self) -> NameRow {
        NameRow {
            id: self.id,
            canonical: self.canonical@,
            disamb_id: self.disamb_id,
            disamb_name: text_of(self.disamb_name),
            country_id: self.country_id,
            country_name: text_of(self.country_name),
            alt_name: self.alt_name@,
            langlist: text_of(self.langlist),
        }
    }
}

/// The rows of a list.
pub open spec fn name_rows(rows: Seq<NameEntry>) -> Seq<NameRow> {
    Seq::new(rows.len(), |i: int| rows[i]@)
}

/// Whether a row gives the canonical name as a name of its entity.
pub open spec fn is_default(r: NameRow) -> bool {
    r.alt_name == r.canonical
}

/// Whether the entity `id` has a row that gives its canonical name as one of
/// its names.
pub open spec fn has_default(rows: Seq<NameRow>, id: i64) -> bool {
    exists|m: int| 0 <= m < rows.len() && (#[trigger] rows[m]).id == id && is_default(rows[m])
}

/// The row that gives the entity of `r` its canonical name as a name, in no
/// language.
pub open spec fn default_of(r: NameRow) -> NameRow {
    NameRow {
        id: r.id,
        canonical: r.canonical,
        disamb_id: r.disamb_id,
        disamb_name: r.disamb_name,
        country_id: r.country_id,
        country_name: r.country_name,
        alt_name: r.canonical,
        langlist: None,
    }
}

/// The rows to add on account of the first `n` rows: the default row of
/// every row whose entity has no default, each one once.
pub open spec fn additions(rows: Seq<NameRow>, n: int) -> Seq<NameRow>
    decreases n,
{
    if n <= 0 {
        Seq::empty()
    } else {
        let before = additions(rows, n - 1);
        let wanted = default_of(rows[n - 1]);
        if !has_default(rows, rows[n - 1].id) && !before.contains(wanted) {
            before.push(wanted)
        } else {
            before
        }
    }
}

/// The table after the backfill: the rows as they were, then the additions.
pub open spec fn backfilled(rows: Seq<NameRow>) -> Seq<NameRow> {
    rows + additions(rows, rows.len() as int)
}

/// Tests two optional texts for equality.
fn same_opt(a: &Option<String>, b: &Option<String>) -> (r: bool)
    ensures
        r == (text_of(*a) == text_of(*b)),
{
    match a {
        None => b.is_none(),
        Some(x) => match b {
            None => false,
            Some(y) => same_text(x.as_str(), y.as_str()),
        },
    }
}

/// Tests two optional numbers for equality.
fn same_number(a: Option<i64>, b: Option<i64>) -> (r: bool)
    ensures
        r == (a == b),
{
    match a {
        None => b.is_none(),
        Some(x) => match b {
            None => false,
            Some(y) => x == y,
        },
    }
}

/// Tests two rows for holding the same values.
pub fn same_entry(a: &NameEntry, b: &NameEntry) -> (r: bool)
    ensures
        r == (a@ == b@),
{
    a.id == b.id && same_text(a.canonical.as_str(), b.canonical.as_str()) && same_number(
        a.disamb_id,
        b.disamb_id,
    ) && same_opt(&a.disamb_name, &b.disamb_name) && same_number(a.country_id, b.country_id)
        && same_opt(&a.country_name, &b.country_name) && same_text(
        a.alt_name.as_str(),
        b.alt_name.as_str(),
    ) && same_opt(&a.langlist, &b.langlist)
}

/// Tests whether an entity has a row with its canonical name as a name.
pub fn entity_has_default(rows: &Vec<NameEntry>, id: i64) -> (r: bool)
    ensures
        r == has_default(name_rows(rows@), id),
{
    let ghost all = name_rows(rows@);
    let mut m: usize = 0;
    while m < rows.len()
        invariant
            m <= rows.len(),
            all == name_rows(rows@),
            forall|k: int| 0 <= k < m ==> !((#[trigger] all[k]).id == id && is_default(all[k])),
        decreases rows.len() - m,
    {
        if rows[m].id == id && same_text(rows[m].alt_name.as_str(), rows[m].canonical.as_str()) {
            assert(all[m as int].id == id && is_default(all[m as int]));
            return true;
        }
        m += 1;
    }
    false
}

/// The default row of an entry.
fn default_entry(r: &NameEntry) -> (d: NameEntry)
    ensures
        d@ == default_of(r@),
{
    NameEntry {
        id: r.id,
        canonical: r.canonical.clone(),
        disamb_id: r.disamb_id,
        disamb_name: match &r.disamb_name {
            Some(s) => Some(s.clone()),
            None => None,
        },
        country_id: r.country_id,
        country_name: match &r.country_name {
            Some(s) => Some(s.clone()),
            None => None,
        },
        alt_name: r.canonical.clone(),
        langlist: None,
    }
}

/// Tests whether a list holds a row with the values of `wanted`.
fn holds_entry(list: &Vec<NameEntry>, wanted: &NameEntry) -> (r: bool)
    ensures
        r == name_rows(list@).contains(wanted@),
{
    let ghost all = name_rows(list@);
    let mut k: usize = 0;
    while k < list.len()
        invariant
            k <= list.len(),
            all == name_rows(list@),
            forall|j: int| 0 <= j < k ==> all[j] != wanted@,
        decreases list.len() - k,
    {
        if same_entry(&list[k], wanted) {
            assert(all[k as int] == wanted@);
            return true;
        }
        k += 1;
    }
    false
}

/// The rows to add to a table of names so that every entity in it has its
/// canonical name among its names. The table after the step is the table
/// before it followed by these rows.
pub fn add_missing_city_names(rows: &Vec<NameEntry>) -> (added: Vec<NameEntry>)
    ensures
        name_rows(added@) == additions(name_rows(rows@), rows@.len() as int),
{
    let ghost all = name_rows(rows@);
    let mut added: Vec<NameEntry> = Vec::new();
    let mut i: usize = 0;
    while i < rows.len()
        invariant
            i <= rows.len(),
            all == name_rows(rows@),
            name_rows(added@) == additions(all, i as int),
        decreases rows.len() - i,
    {
        if !entity_has_default(rows, rows[i].id) {
            let wanted = default_entry(&rows[i]);
            if !holds_entry(&added, &wanted) {
                added.push(wanted);
            }
        }
        i += 1;
    }
    added
}

/// The additions hold the default row of every row whose entity has no
/// default.
pub proof fn lemma_additions_cover(rows: Seq<NameRow>, n: int, i: int)
    requires
        0 <= i < n <= rows.len(),
        !has_default(rows, rows[i].id),
    ensures
        additions(rows, n).contains(default_of(rows[i])),
    decreases n,
{
    let before = additions(rows, n - 1);
    let now = additions(rows, n);
    if i < n - 1 {
        lemma_additions_cover(rows, n - 1, i);
        let k = choose|k: int| 0 <= k < before.len() && before[k] == default_of(rows[i]);
        assert(now[k] == default_of(rows[i]));
    } else {
        if before.contains(default_of(rows[i])) {
            let k = choose|k: int| 0 <= k < before.len() && before[k] == default_of(rows[i]);
        } else {
            assert(now[now.len() - 1] == default_of(rows[i]));
        }
    }
}

/// After the backfill every entity of the table has a row that gives its
/// canonical name as one of its names.
pub proof fn lemma_backfill_gives_every_entity_its_name(rows: Seq<NameRow>, i: int)
    requires
        0 <= i < rows.len(),
    ensures
        has_default(backfilled(rows), rows[i].id),
{
    let out = backfilled(rows);
    let extra = additions(rows, rows.len() as int);
    if has_default(rows, rows[i].id) {
        let m = choose|m: int|
            0 <= m < rows.len() && (#[trigger] rows[m]).id == rows[i].id && is_default(rows[m]);
        assert(out[m] == rows[m]);
    } else {
        lemma_additions_cover(rows, rows.len() as int, i);
        let k = choose|k: int| 0 <= k < extra.len() && extra[k] == default_of(rows[i]);
        let m = rows.len() + k;
        assert(out[m] == default_of(rows[i]));
    }
}

/// The backfill adds no row for an entity that has its canonical name among
/// its names already, and changes no row that is there.
pub proof fn lemma_additions_only_for_missing(rows: Seq<NameRow>, n: int)
    requires
        0 <= n <= rows.len(),
    ensures
        forall|k: int|
            0 <= k < additions(rows, n).len() ==> !has_default(
                rows,
                (#[trigger] additions(rows, n)[k]).id,
            ) && is_default(additions(rows, n)[k]),
    decreases n,
{
    if n > 0 {
        lemma_additions_only_for_missing(rows, n - 1);
    }
}

} // verus!
