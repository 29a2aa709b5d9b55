//! Collapsing duplicates: of the rows that share a scope key, only the one
//! with the smallest identifier stays.
use crate::text::same_text;
use vstd::prelude::*;

verus! {

/// A row as far as the collapse reads it: the identifier, and the three
/// parts of the scope key, of which the last two may be missing.
#[derive(Debug)]
pub struct Scoped {
    pub id: i64,
    pub name: String,
    pub country_name: Option<String>,
    pub disamb_name: Option<String>,
}

/// What a [`Scoped`] row holds.
pub struct ScopedRow {
    pub id: i64,
    pub name: Seq<char>,
    pub country_name: Option<Seq<char>>,
    pub disamb_name: Option<Seq<char>>,
}

/// The text of an optional string.
pub open spec fn text_of(s: Option<String>) -> Option<Seq<char>> {
    match s {
        Some(t) => Some(t@),
        None => None,
    }
}

impl View for Scoped {
    type V = ScopedRow;

    open spec fn view(&self) -> ScopedRow {
        ScopedRow {
            id: self.id,
            name: self.name@,
            country_name: text_of(self.country_name),
            disamb_name: text_of(self.disamb_name),
        }
    }
}

/// The rows of a list.
pub open spec fn scoped_rows(rows: Seq<Scoped>) -> Seq<ScopedRow> {
    Seq::new(rows.len(), |i: int| rows[i]@)
}

/// Whether two rows share a scope key: the same name, the same country and
/// the same disambiguation area. A row whose country or area is missing
/// shares its key with no row, not even with itself.
pub open spec fn same_scope(a: ScopedRow, b: ScopedRow) -> bool {
    &&& a.name == b.name
    &&& a.country_name is Some
    &&& a.country_name == b.country_name
    &&& a.disamb_name is Some
    &&& a.disamb_name == b.disamb_name
}

/// Whether row `i` is a duplicate to delete: a row of the same scope has a
/// smaller identifier.
pub open spec fn shadowed(rows: Seq<ScopedRow>, i: int) -> bool {
    exists|j: int|
        0 <= j < rows.len() && same_scope(#[trigger] rows[j], rows[i]) && rows[j].id < rows[i].id
}

/// The rows among the first `n` that stay, in their order.
pub open spec fn survivors(rows: Seq<ScopedRow>, n: int) -> Seq<ScopedRow>
    decreases n,
{
    if n <= 0 {
        Seq::empty()
    } else if shadowed(rows, n - 1) {
        survivors(rows, n - 1)
    } else {
        survivors(rows, n - 1).push(rows[n - 1])
    }
}

/// The rows that stay after the collapse.
pub open spec fn collapsed(rows: Seq<ScopedRow>) -> Seq<ScopedRow> {
    survivors(rows, rows.len() as int)
}

/// Whether no identifier occurs twice.
pub open spec fn distinct_ids(rows: Seq<ScopedRow>) -> bool {
    forall|i: int, j: int|
        0 <= i < rows.len() && 0 <= j < rows.len() && i != j ==> (#[trigger] rows[i]).id != (
        #[trigger] rows[j]).id
}

/// Whether row `i` has the smallest identifier of its scope.
pub open spec fn least_of_scope(rows: Seq<ScopedRow>, i: int) -> bool {
    forall|j: int|
        0 <= j < rows.len() && same_scope(#[trigger] rows[j], rows[i]) ==> rows[i].id <= rows[j].id
}

/// Tests two optional texts for being present and equal.
fn both_same(a: &Option<String>, b: &Option<String>) -> (r: bool)
    ensures
        r == (text_of(*a) is Some && text_of(*a) == text_of(*b)),
{
    match a {
        None => false,
        Some(x) => match b {
            None => false,
            Some(y) => same_text(x.as_str(), y.as_str()),
        },
    }
}

/// Tests two rows for the same scope.
pub fn shares_scope(a: &Scoped, b: &Scoped) -> (r: bool)
    ensures
        r == same_scope(a@, b@),
{
    same_text(a.name.as_str(), b.name.as_str()) && both_same(&a.country_name, &b.country_name)
        && both_same(&a.disamb_name, &b.disamb_name)
}

/// Tests whether row `i` is a duplicate to delete.
pub fn is_shadowed(rows: &Vec<Scoped>, i: usize) -> (r: bool)
    requires
        i < rows.len(),
    ensures
        r == shadowed(scoped_rows(rows@), i as int),
{
    let ghost all = scoped_rows(rows@);
    let mut j: usize = 0;
    while j < rows.len()
        invariant
            j <= rows.len(),
            i < rows.len(),
            all == scoped_rows(rows@),
            forall|k: int| 0 <= k < j ==> !(same_scope(#[trigger] all[k], all[i as int]) && all[k].id
                < all[i as int].id),
        decreases rows.len() - j,
    {
        if rows[j].id < rows[i].id && shares_scope(&rows[j], &rows[i]) {
            assert(same_scope(all[j as int], all[i as int]) && all[j as int].id < all[i as int].id);
            return true;
        }
        j += 1;
    }
    false
}

/// Copies a row.
fn copy_of(r: &Scoped) -> (c: Scoped)
    ensures
        c@ == r@,
{
    Scoped {
        id: r.id,
        name: r.name.clone(),
        country_name: match &r.country_name {
            Some(s) => Some(s.clone()),
            None => None,
        },
        disamb_name: match &r.disamb_name {
            Some(s) => Some(s.clone()),
            None => None,
        },
    }
}

/// Whether `id` is the identifier of a duplicate among the first `n` rows.
pub open spec fn is_duplicate_id(rows: Seq<ScopedRow>, n: int, id: i64) -> bool {
    exists|p: int| 0 <= p < n && shadowed(rows, p) && (#[trigger] rows[p]).id == id
}

/// Collapses the duplicates of a table: the rows that stay, in their order,
/// and the identifiers of the rows to delete, which are those of the
/// duplicates.
pub fn remove_dup_cities(rows: &Vec<Scoped>) -> (r: (Vec<Scoped>, Vec<i64>))
    ensures
        scoped_rows(r.0@) == collapsed(scoped_rows(rows@)),
        r.0@.len() + r.1@.len() == rows@.len(),
        forall|i: int|
            0 <= i < rows@.len() && shadowed(scoped_rows(rows@), i) ==> r.1@.contains(
                (#[trigger] scoped_rows(rows@)[i]).id,
            ),
        forall|k: int|
            0 <= k < r.1@.len() ==> is_duplicate_id(
                scoped_rows(rows@),
                rows@.len() as int,
                #[trigger] r.1@[k],
            ),
{
    let ghost all = scoped_rows(rows@);
    let mut kept: Vec<Scoped> = Vec::new();
    let mut deleted: Vec<i64> = Vec::new();
    let mut i: usize = 0;
    while i < rows.len()
        invariant
            i <= rows.len(),
            all == scoped_rows(rows@),
            scoped_rows(kept@) == survivors(all, i as int),
            kept@.len() + deleted@.len() == i,
            forall|p: int|
                0 <= p < i && shadowed(all, p) ==> deleted@.contains((#[trigger] all[p]).id),
            forall|k: int|
                0 <= k < deleted@.len() ==> is_duplicate_id(all, i as int, #[trigger] deleted@[k]),
        decreases rows.len() - i,
    {
        let ghost old_deleted = deleted@;
        if is_shadowed(rows, i) {
            deleted.push(rows[i].id);
            assert(deleted@[old_deleted.len() as int] == all[i as int].id);
            assert forall|p: int| 0 <= p < i + 1 && shadowed(all, p) implies deleted@.contains(
                (#[trigger] all[p]).id,
            ) by {
                if p < i {
                    let k = choose|k: int|
                        0 <= k < old_deleted.len() && old_deleted[k] == all[p].id;
                    assert(deleted@[k] == all[p].id);
                }
            }
        } else {
            kept.push(copy_of(&rows[i]));
        }
        i += 1;
    }
    (kept, deleted)
}

/// Every row that stays was a row of the table that no other row shadowed,
/// and every such row of the table stays.
pub proof fn lemma_survivors_are_unshadowed(rows: Seq<ScopedRow>, n: int)
    requires
        0 <= n <= rows.len(),
    ensures
        forall|p: int|
            0 <= p < survivors(rows, n).len() ==> exists|i: int|
                0 <= i < n && !shadowed(rows, i) && rows[i] == #[trigger] survivors(rows, n)[p],
        forall|i: int|
            0 <= i < n && !shadowed(rows, i) ==> survivors(rows, n).contains(#[trigger] rows[i]),
    decreases n,
{
    if n > 0 {
        lemma_survivors_are_unshadowed(rows, n - 1);
        let before = survivors(rows, n - 1);
        let now = survivors(rows, n);
        assert forall|i: int| 0 <= i < n && !shadowed(rows, i) implies now.contains(
            #[trigger] rows[i],
        ) by {
            if i < n - 1 {
                let p = choose|p: int| 0 <= p < before.len() && before[p] == rows[i];
                assert(now[p] == rows[i]);
            } else {
                assert(now[now.len() - 1] == rows[i]);
            }
        }
    }
}

/// Every row of a scope has in its scope a row that no other row shadows
/// and whose identifier is the smallest of the scope.
pub proof fn lemma_scope_has_least(rows: Seq<ScopedRow>, i: int) -> (k: int)
    requires
        0 <= i < rows.len(),
        same_scope(rows[i], rows[i]),
    ensures
        0 <= k < rows.len(),
        same_scope(rows[k], rows[i]),
        !shadowed(rows, k),
        least_of_scope(rows, k),
        rows[k].id <= rows[i].id,
    decreases rows[i].id - i64::MIN,
{
    if shadowed(rows, i) {
        let j = choose|j: int|
            0 <= j < rows.len() && same_scope(#[trigger] rows[j], rows[i]) && rows[j].id
                < rows[i].id;
        lemma_scope_has_least(rows, j)
    } else {
        i
    }
}

/// In a table without repeated identifiers, no identifier is repeated among
/// the rows that stay.
pub proof fn lemma_survivors_are_distinct(rows: Seq<ScopedRow>, n: int)
    requires
        distinct_ids(rows),
        0 <= n <= rows.len(),
    ensures
        distinct_ids(survivors(rows, n)),
    decreases n,
{
    if n > 0 {
        lemma_survivors_are_distinct(rows, n - 1);
        lemma_survivors_are_unshadowed(rows, n - 1);
    }
}

/// After the collapse exactly one row of each scope is left, and it is the
/// one with the smallest identifier: in a table without repeated
/// identifiers, for every row with a scope key, the rows that stay hold a
/// row of that scope whose identifier is the smallest of the scope, and
/// they hold no second row of that scope.
pub proof fn lemma_collapse_keeps_exactly_the_least(rows: Seq<ScopedRow>, i: int)
    requires
        distinct_ids(rows),
        0 <= i < rows.len(),
        same_scope(rows[i], rows[i]),
    ensures
        exists|k: int|
            0 <= k < rows.len() && same_scope(#[trigger] rows[k], rows[i]) && least_of_scope(
                rows,
                k,
            ) && collapsed(rows).contains(rows[k]),
        forall|p: int, q: int|
            0 <= p < collapsed(rows).len() && 0 <= q < collapsed(rows).len() && same_scope(
                #[trigger] collapsed(rows)[p],
                rows[i],
            ) && same_scope(#[trigger] collapsed(rows)[q], rows[i]) ==> p == q,
{
    lemma_survivors_are_unshadowed(rows, rows.len() as int);
    lemma_survivors_are_distinct(rows, rows.len() as int);
    lemma_scope_has_least(rows, i);
}

} // verus!
