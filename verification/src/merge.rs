//! Aggregating a chunk of alternate names: the rows that share feature,
//! name and historic note become one row, which lists the languages of the
//! name.
use crate::alt_names::{ids_of, AltRec, AltRow};
use crate::chunk::{
    chunked, grouped, lemma_chunk_members, lemma_chunked_flat, lemma_group_in_one_chunk,
};
use crate::dedup::text_of;
use crate::text::same_text;
use vstd::prelude::*;
use vstd::string::StringExecFns;

verus! {

/// A language with a two-letter code.
#[derive(Debug)]
pub struct Language {
    pub code: String,
    pub name: String,
}

/// What a [`Language`] holds.
pub struct LanguageView {
    pub code: Seq<char>,
    pub name: Seq<char>,
}

impl View for Language {
    type V = LanguageView;

    open spec fn view(&self) -> LanguageView {
        LanguageView { code: self.code@, name: self.name@ }
    }
}

/// The languages of a list.
pub open spec fn language_views(langs: Seq<Language>) -> Seq<LanguageView> {
    Seq::new(langs.len(), |i: int| langs[i]@)
}

/// The rows of a list of records.
pub open spec fn alt_rows(rows: Seq<AltRec>) -> Seq<AltRow> {
    Seq::new(rows.len(), |i: int| rows[i]@)
}

/// One aggregated name: a feature, one of its names, the languages in which
/// the name is used, and the note on its use in the past.
#[derive(Debug)]
pub struct AltName {
    pub id: i64,
    pub alt_name: String,
    pub langs: Option<String>,
    pub historic: String,
}

/// What an [`AltName`] holds.
pub struct AltNameRow {
    pub id: i64,
    pub alt_name: Seq<char>,
    pub langs: Option<Seq<char>>,
    pub historic: Seq<char>,
}

impl View for AltName {
    type V = AltNameRow;

    open spec fn view(&self) -> AltNameRow {
        AltNameRow {
            id: self.id,
            alt_name: self.alt_name@,
            langs: text_of(self.langs),
            historic: self.historic@,
        }
    }
}

/// The aggregated names of a list.
pub open spec fn name_views(names: Seq<AltName>) -> Seq<AltNameRow> {
    Seq::new(names.len(), |i: int| names[i]@)
}

/// The name of the first of the languages `0` to `n - 1` that has the code
/// `code`.
pub open spec fn language_name(langs: Seq<LanguageView>, code: Seq<char>, n: int) -> Option<
    Seq<char>,
>
    decreases n,
{
    if n <= 0 {
        None
    } else {
        match language_name(langs, code, n - 1) {
            Some(name) => Some(name),
            None => if langs[n - 1].code == code {
                Some(langs[n - 1].name)
            } else {
                None
            },
        }
    }
}

/// A list of languages with one more: the names are separated by a comma
/// and a blank, and a row without a language adds nothing.
pub open spec fn with_language(list: Option<Seq<char>>, name: Option<Seq<char>>) -> Option<
    Seq<char>,
> {
    match name {
        None => list,
        Some(n) => match list {
            None => Some(n),
            Some(l) => Some(l + ", "@ + n),
        },
    }
}

/// Whether a row belongs to an aggregated name: feature, name and historic
/// note are the same.
pub open spec fn in_group(g: AltNameRow, r: AltRow) -> bool {
    g.id == r.geo_id && g.alt_name == r.name && g.historic == r.historic
}

/// The first of the aggregated names `0` to `n - 1` to which a row belongs.
pub open spec fn group_index(groups: Seq<AltNameRow>, r: AltRow, n: int) -> Option<int>
    decreases n,
{
    if n <= 0 {
        None
    } else {
        match group_index(groups, r, n - 1) {
            Some(k) => Some(k),
            None => if in_group(groups[n - 1], r) {
                Some(n - 1)
            } else {
                None
            },
        }
    }
}

/// The aggregated names with one more row taken in: the row adds its
/// language to the name it belongs to, or opens a new name at the end.
pub open spec fn merged(groups: Seq<AltNameRow>, r: AltRow, langs: Seq<LanguageView>) -> Seq<
    AltNameRow,
> {
    let name = language_name(langs, r.lang, langs.len() as int);
    match group_index(groups, r, groups.len() as int) {
        Some(k) => groups.update(
            k,
            AltNameRow { langs: with_language(groups[k].langs, name), ..groups[k] },
        ),
        None => groups.push(
            AltNameRow {
                id: r.geo_id,
                alt_name: r.name,
                langs: with_language(None, name),
                historic: r.historic,
            },
        ),
    }
}

/// The aggregated names of the first `n` rows, in the order in which the
/// names first occur.
pub open spec fn aggregated(rows: Seq<AltRow>, langs: Seq<LanguageView>, n: int) -> Seq<AltNameRow>
    decreases n,
{
    if n <= 0 {
        Seq::empty()
    } else {
        merged(aggregated(rows, langs, n - 1), rows[n - 1], langs)
    }
}

/// Looks up the name of a language by its code.
pub fn language_of(langs: &Vec<Language>, code: &str) -> (r: Option<String>)
    ensures
        text_of(r) == language_name(language_views(langs@), code@, langs@.len() as int),
{
    let ghost all = language_views(langs@);
    let mut k: usize = 0;
    while k < langs.len()
        invariant
            k <= langs.len(),
            all == language_views(langs@),
            language_name(all, code@, k as int) is None,
        decreases langs.len() - k,
    {
        if same_text(langs[k].code.as_str(), code) {
            proof {
                lemma_language_stays(all, code@, k + 1, langs.len() as int);
            }
            return Some(langs[k].name.clone());
        }
        k += 1;
    }
    None
}

/// The language found among the first is the language found among all.
pub proof fn lemma_language_stays(langs: Seq<LanguageView>, code: Seq<char>, n: int, m: int)
    requires
        0 <= n <= m,
        language_name(langs, code, n) is Some,
    ensures
        language_name(langs, code, m) == language_name(langs, code, n),
    decreases m - n,
{
    if n < m {
        lemma_language_stays(langs, code, n, m - 1);
    }
}

/// The group found among the first is the group found among all.
pub proof fn lemma_group_stays(groups: Seq<AltNameRow>, r: AltRow, n: int, m: int)
    requires
        0 <= n <= m,
        group_index(groups, r, n) is Some,
    ensures
        group_index(groups, r, m) == group_index(groups, r, n),
    decreases m - n,
{
    if n < m {
        lemma_group_stays(groups, r, n, m - 1);
    }
}

/// Finds the aggregated name to which a record belongs.
fn find_group(groups: &Vec<AltName>, r: &AltRec) -> (found: Option<usize>)
    ensures
        match found {
            Some(k) => k < groups@.len() && group_index(
                name_views(groups@),
                r@,
                groups@.len() as int,
            ) == Some(k as int),
            None => group_index(name_views(groups@), r@, groups@.len() as int) is None,
        },
{
    let ghost all = name_views(groups@);
    let mut k: usize = 0;
    while k < groups.len()
        invariant
            k <= groups.len(),
            all == name_views(groups@),
            group_index(all, r@, k as int) is None,
        decreases groups.len() - k,
    {
        if groups[k].id == r.geo_id && same_text(groups[k].alt_name.as_str(), r.name.as_str())
            && same_text(groups[k].historic.as_str(), r.historic.as_str()) {
            proof {
                lemma_group_stays(all, r@, k + 1, groups.len() as int);
            }
            return Some(k);
        }
        k += 1;
    }
    None
}

/// Adds a language to a list of languages.
fn add_language(list: &Option<String>, name: Option<String>) -> (r: Option<String>)
    ensures
        text_of(r) == with_language(text_of(*list), text_of(name)),
{
    match name {
        None => match list {
            Some(l) => Some(l.clone()),
            None => None,
        },
        Some(n) => match list {
            None => Some(n),
            Some(l) => {
                let mut s = l.clone();
                s.append(", ");
                s.append(n.as_str());
                Some(s)
            },
        },
    }
}

/// Aggregates the rows of a chunk: one aggregated name for each feature,
/// name and historic note that occurs, in the order of first occurrence,
/// each with the languages of its rows in their order.
pub fn aggregate(rows: &Vec<AltRec>, langs: &Vec<Language>) -> (names: Vec<AltName>)
    ensures
        name_views(names@) == aggregated(
            alt_rows(rows@),
            language_views(langs@),
            rows@.len() as int,
        ),
{
    let ghost all = alt_rows(rows@);
    let ghost known = language_views(langs@);
    let mut names: Vec<AltName> = Vec::new();
    let mut i: usize = 0;
    while i < rows.len()
        invariant
            i <= rows.len(),
            all == alt_rows(rows@),
            known == language_views(langs@),
            name_views(names@) == aggregated(all, known, i as int),
        decreases rows.len() - i,
    {
        let r = &rows[i];
        let name = language_of(langs, r.lang.as_str());
        match find_group(&names, r) {
            Some(k) => {
                let grown = AltName {
                    id: names[k].id,
                    alt_name: names[k].alt_name.clone(),
                    langs: add_language(&names[k].langs, name),
                    historic: names[k].historic.clone(),
                };
                names.set(k, grown);
            },
            None => {
                names.push(
                    AltName {
                        id: r.geo_id,
                        alt_name: r.name.clone(),
                        langs: add_language(&None, name),
                        historic: r.historic.clone(),
                    },
                );
            },
        }
        i += 1;
    }
    names
}

/// What is aggregated of the first `n` rows depends on those rows alone.
pub proof fn lemma_aggregated_of_prefix(
    rows: Seq<AltRow>,
    more: Seq<AltRow>,
    langs: Seq<LanguageView>,
    n: int,
)
    requires
        0 <= n <= rows.len(),
    ensures
        aggregated(rows + more, langs, n) == aggregated(rows, langs, n),
    decreases n,
{
    if n > 0 {
        lemma_aggregated_of_prefix(rows, more, langs, n - 1);
    }
}

/// Every aggregated name is the name of a feature of one of the rows.
pub proof fn lemma_aggregated_features(rows: Seq<AltRow>, langs: Seq<LanguageView>, n: int)
    requires
        0 <= n <= rows.len(),
    ensures
        forall|k: int|
            0 <= k < aggregated(rows, langs, n).len() ==> exists|i: int|
                0 <= i < n && (#[trigger] rows[i]).geo_id == (#[trigger] aggregated(
                    rows,
                    langs,
                    n,
                )[k]).id,
    decreases n,
{
    if n > 0 {
        lemma_aggregated_features(rows, langs, n - 1);
        let before = aggregated(rows, langs, n - 1);
        let now = aggregated(rows, langs, n);
        lemma_group_index_bounds(before, rows[n - 1], before.len() as int);
        assert forall|k: int| 0 <= k < now.len() implies exists|i: int|
            0 <= i < n && (#[trigger] rows[i]).geo_id == (#[trigger] now[k]).id by {
            if k < before.len() {
                assert(now[k].id == before[k].id);
                let i = choose|i: int| 0 <= i < n - 1 && (#[trigger] rows[i]).geo_id == before[k].id;
            }
        }
    }
}

/// A group that is found is one of the groups, and the row belongs to it.
pub proof fn lemma_group_index_bounds(groups: Seq<AltNameRow>, r: AltRow, n: int)
    requires
        0 <= n <= groups.len(),
    ensures
        group_index(groups, r, n) matches Some(k) ==> 0 <= k < n && in_group(groups[k], r),
        group_index(groups, r, n) is None ==> forall|k: int|
            0 <= k < n ==> !in_group(#[trigger] groups[k], r),
    decreases n,
{
    if n > 0 {
        lemma_group_index_bounds(groups, r, n - 1);
    }
}

/// Among groups that follow groups of other features, a row finds its
/// group where it finds it among the later groups alone.
pub proof fn lemma_group_index_after(
    first: Seq<AltNameRow>,
    second: Seq<AltNameRow>,
    r: AltRow,
    n: int,
)
    requires
        0 <= n <= second.len(),
        forall|k: int| 0 <= k < first.len() ==> (#[trigger] first[k]).id != r.geo_id,
    ensures
        group_index(first + second, r, first.len() + n) == match group_index(second, r, n) {
            Some(k) => Some(first.len() + k),
            None => None,
        },
    decreases n,
{
    if n == 0 {
        lemma_group_index_bounds(first + second, r, first.len() as int);
        if group_index(first + second, r, first.len() as int) is Some {
            let k = group_index(first + second, r, first.len() as int)->0;
        }
    } else {
        lemma_group_index_after(first, second, r, n - 1);
    }
}

/// Two chunks that share no feature can be aggregated one after the other:
/// what the two passes give, laid end to end, is what one pass over both
/// chunks gives.
pub proof fn lemma_separate_passes(
    first: Seq<AltRow>,
    second: Seq<AltRow>,
    langs: Seq<LanguageView>,
    n: int,
)
    requires
        0 <= n <= second.len(),
        forall|i: int, j: int|
            0 <= i < first.len() && 0 <= j < second.len() ==> (#[trigger] first[i]).geo_id != (
            #[trigger] second[j]).geo_id,
    ensures
        aggregated(first + second, langs, first.len() + n) == aggregated(
            first,
            langs,
            first.len() as int,
        ) + aggregated(second, langs, n),
    decreases n,
{
    let a = aggregated(first, langs, first.len() as int);
    if n == 0 {
        lemma_aggregated_of_prefix(first, second, langs, first.len() as int);
    } else {
        lemma_separate_passes(first, second, langs, n - 1);
        let b = aggregated(second, langs, n - 1);
        let r = second[n - 1];
        lemma_aggregated_features(first, langs, first.len() as int);
        lemma_group_index_after(a, b, r, b.len() as int);
        lemma_group_index_bounds(b, r, b.len() as int);
    }
}

/// What the passes over the first `c` chunks give, laid end to end.
pub open spec fn passes(chunks: Seq<Seq<AltRow>>, langs: Seq<LanguageView>, c: int) -> Seq<
    AltNameRow,
>
    decreases c,
{
    if c <= 0 {
        Seq::empty()
    } else {
        passes(chunks, langs, c - 1) + aggregated(
            chunks[c - 1],
            langs,
            chunks[c - 1].len() as int,
        )
    }
}

/// Whether no feature has rows in two chunks.
pub open spec fn features_apart(chunks: Seq<Seq<AltRow>>) -> bool {
    forall|c1: int, c2: int, i: int, j: int|
        0 <= c1 < c2 < chunks.len() && 0 <= i < chunks[c1].len() && 0 <= j < chunks[c2].len() ==> (
        #[trigger] chunks[c1][i]).geo_id != (#[trigger] chunks[c2][j]).geo_id
}

/// Every row of chunks laid end to end is a row of one of the chunks: the
/// result is the chunk and the place in it.
pub proof fn lemma_flatten_member(chunks: Seq<Seq<AltRow>>, i: int) -> (at: (int, int))
    requires
        0 <= i < chunks.flatten().len(),
    ensures
        0 <= at.0 < chunks.len(),
        0 <= at.1 < chunks[at.0].len(),
        chunks[at.0][at.1] == chunks.flatten()[i],
    decreases chunks.len(),
{
    if i < chunks.first().len() {
        (0, i)
    } else {
        let rest = chunks.drop_first();
        let at = lemma_flatten_member(rest, i - chunks.first().len());
        (at.0 + 1, at.1)
    }
}

/// Where no feature has rows in two chunks, the passes over the chunks give
/// together what one pass over all their rows gives.
pub proof fn lemma_passes_are_one_pass(chunks: Seq<Seq<AltRow>>, langs: Seq<LanguageView>, c: int)
    requires
        features_apart(chunks),
        0 <= c <= chunks.len(),
    ensures
        passes(chunks, langs, c) == aggregated(
            chunks.take(c).flatten(),
            langs,
            chunks.take(c).flatten().len() as int,
        ),
    decreases c,
{
    if c > 0 {
        lemma_passes_are_one_pass(chunks, langs, c - 1);
        let head = chunks.take(c - 1);
        let first = head.flatten();
        let second = chunks[c - 1];
        assert(chunks.take(c) == head.push(second));
        head.lemma_flatten_push(second);
        assert forall|i: int, j: int| 0 <= i < first.len() && 0 <= j < second.len() implies (
        #[trigger] first[i]).geo_id != (#[trigger] second[j]).geo_id by {
            let at = lemma_flatten_member(head, i);
        }
        lemma_separate_passes(first, second, langs, second.len() as int);
    }
}

/// Aggregating chunk by chunk gives what aggregating the whole stream
/// gives: in a stream where the rows of one feature stand together, the
/// passes over the chunks that the stream is cut into give together what
/// one pass over the stream gives.
pub proof fn lemma_chunked_passes_are_one_pass(
    rows: Seq<AltRow>,
    langs: Seq<LanguageView>,
    threshold: nat,
)
    requires
        grouped(ids_of(rows)),
    ensures
        passes(
            chunked(rows, ids_of(rows), threshold),
            langs,
            chunked(rows, ids_of(rows), threshold).len() as int,
        ) == aggregated(rows, langs, rows.len() as int),
{
    let ids = ids_of(rows);
    let chunks = chunked(rows, ids, threshold);
    assert forall|c1: int, c2: int, i: int, j: int|
        0 <= c1 < c2 < chunks.len() && 0 <= i < chunks[c1].len() && 0 <= j
            < chunks[c2].len() implies (#[trigger] chunks[c1][i]).geo_id != (
    #[trigger] chunks[c2][j]).geo_id by {
        let a = lemma_chunk_members(rows, ids, threshold, c1, i);
        let b = lemma_chunk_members(rows, ids, threshold, c2, j);
        if rows[a].geo_id == rows[b].geo_id {
            if a <= b {
                lemma_group_in_one_chunk(ids, a, b, threshold);
            } else {
                lemma_group_in_one_chunk(ids, b, a, threshold);
            }
        }
    }
    lemma_passes_are_one_pass(chunks, langs, chunks.len() as int);
    assert(chunks.take(chunks.len() as int) == chunks);
    lemma_chunked_flat(rows, ids, threshold);
}

} // verus!
