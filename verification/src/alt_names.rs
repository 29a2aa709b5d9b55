//! Alternate names of geographic features, and the driver that cuts their
//! stream into chunks.
use crate::batch::{Domain, Reading};
use crate::bulk::{Target, TargetView, insert_statement, insert_text, targets};
use crate::chunk::{
    Window, chunk_index, chunked, cut_before, cuts, grouped, lemma_chunked_flat,
    lemma_cut_only_at_change, lemma_group_in_one_chunk, lemma_row_place, step, window_after,
};
use crate::err::AppError;
use crate::line::{
    Column, Fault, Kind, check_line, column_fits, line_fault, lines, opt, opt_count_at,
    opt_text_at, optional, or_empty, req, required, texts, whole_at,
};
use crate::load::{all_wf, first_refusal, kept_rows, lemma_refusal_stays, rows_of};
use crate::number::{i64_in, u64_in};
use crate::plan::{Step, plan_view, silent};
use crate::scopes::opt_text;
use crate::source::{fault_message, read_records, tab_separated};
use crate::sql::{CREATE_ALT_NAMES, CREATE_ALT_STAGING, MERGE_ALT_NAMES};
use crate::text::{
    is_clean, lemma_normalized_is_clean, normalize_name, normalized, same_text, sorts_before,
    stands_before,
};
use vstd::prelude::*;
use vstd::string::StringExecFns;

verus! {

/// Column of the identifier of the feature that bears the name.
pub const COL_GEO_ID: usize = 1;

/// Column of the language code.
pub const COL_LANG: usize = 2;

/// Column of the name.
pub const COL_NAME: usize = 3;

/// Column of the flag for names no longer in use.
pub const COL_HISTORIC: usize = 7;

/// Column of the year from which the name was in use.
pub const COL_FROM: usize = 8;

/// Column of the year until which the name was in use.
pub const COL_TO: usize = 9;

/// The number of changes of identifier after which the stream is cut.
pub const CHUNK_IDS: u64 = 2500;

/// One alternate name, ready for storage.
#[derive(Debug)]
pub struct AltRec {
    pub geo_id: i64,
    pub name: String,
    pub lang: String,
    pub historic: String,
}

/// What an [`AltRec`] holds.
pub struct AltRow {
    pub geo_id: i64,
    pub name: Seq<char>,
    pub lang: Seq<char>,
    pub historic: Seq<char>,
}

impl View for AltRec {
    type V = AltRow;

    open spec fn view(&self) -> AltRow {
        AltRow { geo_id: self.geo_id, name: self.name@, lang: self.lang@, historic: self.historic@ }
    }
}

/// The columns of many alternate names.
#[derive(Debug)]
pub struct AltRecVecs {
    pub geo_ids: Vec<i64>,
    pub names: Vec<String>,
    pub langs: Vec<String>,
    pub historics: Vec<String>,
    /// The number of rows that the columns were sized for.
    pub capacity: usize,
}

impl AltRecVecs {
    /// Whether the columns have one length.
    pub open spec fn wf(&self) -> bool {
        self.geo_ids@.len() == self.names@.len() == self.langs@.len() == self.historics@.len()
    }

    /// The rows, in the order in which they were added.
    pub open spec fn rows(&self) -> Seq<AltRow> {
        Seq::new(
            self.geo_ids@.len(),
            |i: int|
                AltRow {
                    geo_id: self.geo_ids@[i],
                    name: self.names@[i]@,
                    lang: self.langs@[i]@,
                    historic: self.historics@[i]@,
                },
        )
    }

    /// Empty columns, sized for `vsize` rows.
    pub fn new(vsize: usize) -> (v: Self)
        ensures
            v.wf(),
            v.rows() == Seq::<AltRow>::empty(),
            v.capacity == vsize,
    {
        AltRecVecs {
            geo_ids: Vec::with_capacity(vsize),
            names: Vec::with_capacity(vsize),
            langs: Vec::with_capacity(vsize),
            historics: Vec::with_capacity(vsize),
            capacity: vsize,
        }
    }

    /// Adds one name at the end of every column.
    pub fn add_data(&mut self, r: &AltRec)
        requires
            old(self).wf(),
        ensures
            final(self).wf(),
            final(self).rows() == old(self).rows().push(r@),
            final(self).capacity == old(self).capacity,
    {
        self.geo_ids.push(r.geo_id);
        self.names.push(r.name.clone());
        self.langs.push(r.lang.clone());
        self.historics.push(r.historic.clone());
    }

    /// The number of rows.
    pub fn len(&self) -> (n: usize)
        requires
            self.wf(),
        ensures
            n == self.rows().len(),
    {
        self.geo_ids.len()
    }
}

/// The layout of a line: identifier of the name, identifier of the feature,
/// language code, name, four flags (preferred, short, colloquial, historic),
/// and the years from and until which the name was in use.
pub open spec fn alt_layout() -> Seq<Column> {
    seq![
        req(Kind::Whole64),
        req(Kind::Whole64),
        opt(Kind::Text),
        req(Kind::Text),
        opt(Kind::Count),
        opt(Kind::Count),
        opt(Kind::Count),
        opt(Kind::Count),
        opt(Kind::Text),
        opt(Kind::Text),
    ]
}

/// Builds the layout of a line.
pub fn alt_columns() -> (v: Vec<Column>)
    ensures
        v@ == alt_layout(),
{
    let mut v: Vec<Column> = Vec::with_capacity(10);
    v.push(required(Kind::Whole64));
    v.push(required(Kind::Whole64));
    v.push(or_empty(Kind::Text));
    v.push(required(Kind::Text));
    v.push(or_empty(Kind::Count));
    v.push(or_empty(Kind::Count));
    v.push(or_empty(Kind::Count));
    v.push(or_empty(Kind::Count));
    v.push(or_empty(Kind::Text));
    v.push(or_empty(Kind::Text));
    v
}

/// Whether a language code marks a link or an identifier rather than a name
/// in a language.
pub open spec fn is_link_code(lang: Seq<char>) -> bool {
    ||| lang == "link"@
    ||| lang == "wkdt"@
    ||| lang == "post"@
    ||| lang == "unlc"@
    ||| lang == "faac"@
    ||| lang == "icao"@
    ||| lang == "iata"@
    ||| lang == "abbr"@
}

/// Tests a language code for a link or an identifier.
pub fn is_link(lang: &str) -> (b: bool)
    ensures
        b == is_link_code(lang@),
{
    same_text(lang, "link") || same_text(lang, "wkdt") || same_text(lang, "post") || same_text(
        lang,
        "unlc",
    ) || same_text(lang, "faac") || same_text(lang, "icao") || same_text(lang, "iata")
        || same_text(lang, "abbr")
}

/// Whether a name counts as written in another script than the Latin one:
/// it stands at or after `ZZ` in code-point order.
pub open spec fn beyond_latin(name: Seq<char>) -> bool {
    !sorts_before(name, "ZZ"@)
}

/// The note on a name's use in the past: empty for a name in use, else
/// `Historic`, then `, from ` and a year where one is given, then `, to ` and
/// a year where one is given.
pub open spec fn historic_note(
    flag: Option<int>,
    from: Option<Seq<char>>,
    to: Option<Seq<char>>,
) -> Seq<char> {
    if flag == Some(1int) {
        "Historic"@ + (match from {
            Some(y) => ", from "@ + y,
            None => Seq::<char>::empty(),
        }) + (match to {
            Some(y) => ", to "@ + y,
            None => Seq::<char>::empty(),
        })
    } else {
        Seq::<char>::empty()
    }
}

/// The value of an optional count.
pub open spec fn opt_count(c: Option<u64>) -> Option<int> {
    match c {
        Some(v) => Some(v as int),
        None => None,
    }
}

/// Writes the note on a name's use in the past.
pub fn describe_historic(flag: Option<u64>, from: &Option<String>, to: &Option<String>) -> (s:
    String)
    ensures
        s@ == historic_note(opt_count(flag), opt_text(*from), opt_text(*to)),
{
    let is_historic = match flag {
        Some(v) => v == 1,
        None => false,
    };
    if !is_historic {
        return String::new();
    }
    let mut s = String::from_str("Historic");
    if let Some(y) = from {
        s.append(", from ");
        s.append(y.as_str());
    }
    if let Some(y) = to {
        s.append(", to ");
        s.append(y.as_str());
    }
    s
}

/// The flag of a well-formed line for names no longer in use.
pub open spec fn historic_flag(line: Seq<Seq<char>>) -> Option<int> {
    if line[COL_HISTORIC as int].len() == 0 {
        None
    } else {
        u64_in(line[COL_HISTORIC as int])
    }
}

/// The name that a well-formed line gives. A line without a language code
/// has the language `none`.
pub open spec fn alt_row(line: Seq<Seq<char>>) -> AltRow {
    AltRow {
        geo_id: i64_in(line[COL_GEO_ID as int])->0 as i64,
        name: normalized(line[COL_NAME as int]),
        lang: if line[COL_LANG as int].len() == 0 {
            "none"@
        } else {
            line[COL_LANG as int]
        },
        historic: historic_note(
            historic_flag(line),
            optional(line[COL_FROM as int]),
            optional(line[COL_TO as int]),
        ),
    }
}

/// What becomes of a line: a malformed line is refused; a well-formed line
/// is left out where its language code marks a link, and, where only Latin
/// names are wanted, where its name as it stands in the line is beyond
/// Latin; every other line is kept.
pub open spec fn alt_reading(latin_only: bool, line: Seq<Seq<char>>) -> Reading<AltRow> {
    match line_fault(line, alt_layout()) {
        Some(f) => Reading::Refused(f),
        None => if is_link_code(line[COL_LANG as int]) || (latin_only && beyond_latin(
            line[COL_NAME as int],
        )) {
            Reading::Skipped
        } else {
            Reading::Kept(alt_row(line))
        },
    }
}

/// Maps one line to an alternate name, or to nothing where the line is left
/// out.
pub fn map_alt_line(fields: &Vec<String>, latin_only: bool) -> (r: Result<Option<AltRec>, Fault>)
    ensures
        match r {
            Ok(Some(rec)) => alt_reading(latin_only, texts(fields@)) == Reading::Kept(rec@),
            Ok(None) => alt_reading(latin_only, texts(fields@)) == Reading::<AltRow>::Skipped,
            Err(f) => alt_reading(latin_only, texts(fields@)) == Reading::<AltRow>::Refused(f),
        },
{
    let layout = alt_columns();
    match check_line(fields, &layout) {
        Err(f) => Err(f),
        Ok(_) => {
            proof {
                let line = texts(fields@);
                assert(column_fits(line, alt_layout(), COL_GEO_ID as int));
                assert(column_fits(line, alt_layout(), COL_HISTORIC as int));
                assert(column_fits(line, alt_layout(), COL_TO as int));
            }
            if is_link(fields[COL_LANG].as_str()) {
                return Ok(None);
            }
            if latin_only && !stands_before(fields[COL_NAME].as_str(), "ZZ") {
                return Ok(None);
            }
            let lang = match opt_text_at(fields, COL_LANG) {
                Some(l) => l,
                None => String::from_str("none"),
            };
            let from = opt_text_at(fields, COL_FROM);
            let to = opt_text_at(fields, COL_TO);
            Ok(
                Some(
                    AltRec {
                        geo_id: whole_at(fields, COL_GEO_ID),
                        name: normalize_name(fields[COL_NAME].as_str()),
                        lang,
                        historic: describe_historic(opt_count_at(fields, COL_HISTORIC), &from, &to),
                    },
                ),
            )
        },
    }
}

/// The domain of alternate names.
pub struct AltNames {
    /// Whether names beyond Latin are left out.
    pub latin_only: bool,
}

impl Domain for AltNames {
    type Record = AltRec;

    type Row = AltRow;

    type Batch = AltRecVecs;

    open spec fn row_of(r: &AltRec) -> AltRow {
        r@
    }

    open spec fn batch_wf(b: &AltRecVecs) -> bool {
        b.wf()
    }

    open spec fn batch_rows(b: &AltRecVecs) -> Seq<AltRow> {
        b.rows()
    }

    open spec fn batch_room(b: &AltRecVecs) -> usize {
        b.capacity
    }

    open spec fn reading(&self, line: Seq<Seq<char>>) -> Reading<AltRow> {
        alt_reading(self.latin_only, line)
    }

    fn map_line(&self, fields: &Vec<String>) -> (r: Result<Option<AltRec>, Fault>) {
        map_alt_line(fields, self.latin_only)
    }

    fn new_batch(vsize: usize) -> (b: AltRecVecs) {
        AltRecVecs::new(vsize)
    }

    fn add(b: &mut AltRecVecs, r: &AltRec) {
        b.add_data(r)
    }

    fn row_count(b: &AltRecVecs) -> (n: usize) {
        b.len()
    }
}

/// The state of a chunked load: the batch of the chunk that is open, and
/// what the cutting rule remembers.
#[derive(Debug)]
pub struct ChunkDriver {
    /// The rows of the open chunk.
    pub batch: AltRecVecs,
    /// The number of changes of identifier at which the stream is cut.
    pub threshold: u64,
    /// The number of changes of identifier since the last cut.
    pub distinct: u64,
    /// The identifier of the last accepted record.
    pub last_id: Option<i64>,
    /// The number of records accepted so far.
    pub accepted: u64,
    /// The number of rows handed out in closed chunks so far.
    pub stored: u64,
    /// The number of chunks closed so far.
    pub cuts: u64,
    /// The number of rows for which a new batch has room from the start.
    pub room: usize,
}

impl ChunkDriver {
    /// What the cutting rule remembers.
    pub open spec fn window(&self) -> Window {
        Window { distinct: self.distinct as nat, last: self.last_id }
    }

    /// The rows of the open chunk.
    pub open spec fn pending(&self) -> Seq<AltRow> {
        self.batch.rows()
    }

    /// The invariant of a driver: the batch is well formed, the count of
    /// changes is below the threshold, and every accepted record is either
    /// in the open chunk or was handed out.
    pub open spec fn wf(&self) -> bool {
        &&& self.batch.wf()
        &&& self.batch.capacity == self.room
        &&& self.threshold >= 1
        &&& self.distinct < self.threshold
        &&& self.stored + self.pending().len() == self.accepted
        &&& self.cuts <= self.accepted
    }

    /// A driver before the first record, whose batches have room for `room`
    /// rows from the start. A threshold of zero is taken as one.
    pub fn new(threshold: u64, room: usize) -> (d: Self)
        ensures
            d.wf(),
            d.room == room,
            d.window() == crate::chunk::start(),
            d.pending() == Seq::<AltRow>::empty(),
            d.threshold == if threshold == 0 { 1u64 } else { threshold },
            d.accepted == 0,
            d.stored == 0,
            d.cuts == 0,
    {
        ChunkDriver {
            batch: AltRecVecs::new(room),
            threshold: if threshold == 0 {
                1
            } else {
                threshold
            },
            distinct: 0,
            last_id: None,
            accepted: 0,
            stored: 0,
            cuts: 0,
            room,
        }
    }

    /// Accepts one record. Where the stream is cut before it, the chunk that
    /// was open is handed out, to be stored and aggregated, and the record
    /// opens the next chunk; otherwise the record joins the open chunk.
    pub fn accept(&mut self, r: &AltRec) -> (closed: Option<AltRecVecs>)
        requires
            old(self).wf(),
            old(self).accepted < u64::MAX,
        ensures
            final(self).wf(),
            final(self).threshold == old(self).threshold,
            final(self).room == old(self).room,
            final(self).window() == step(
                old(self).window(),
                r.geo_id,
                old(self).threshold as nat,
            ),
            final(self).accepted == old(self).accepted + 1,
            match closed {
                Some(b) => {
                    &&& cuts(old(self).window(), r.geo_id, old(self).threshold as nat)
                    &&& b.wf()
                    &&& b.capacity == old(self).room
                    &&& b.rows() == old(self).pending()
                    &&& final(self).pending() == seq![r@]
                    &&& final(self).stored == old(self).stored + old(self).pending().len()
                    &&& final(self).cuts == old(self).cuts + 1
                },
                None => {
                    &&& !cuts(old(self).window(), r.geo_id, old(self).threshold as nat)
                    &&& final(self).pending() == old(self).pending().push(r@)
                    &&& final(self).stored == old(self).stored
                    &&& final(self).cuts == old(self).cuts
                },
            },
    {
        let changed = match self.last_id {
            Some(id) => id != r.geo_id,
            None => true,
        };
        let mut closed: Option<AltRecVecs> = None;
        if changed {
            self.distinct = self.distinct + 1;
            self.last_id = Some(r.geo_id);
            if self.distinct == self.threshold {
                let n = self.batch.len();
                let mut full = AltRecVecs::new(self.room);
                std::mem::swap(&mut self.batch, &mut full);
                self.distinct = 0;
                self.stored = self.stored + (n as u64);
                self.cuts = self.cuts + 1;
                closed = Some(full);
            }
        }
        self.batch.add_data(r);
        self.accepted = self.accepted + 1;
        closed
    }

    /// Ends the stream: the chunk that is still open, which may be empty and
    /// is to be stored and aggregated like the others, and the number of
    /// records accepted over the whole stream.
    pub fn finish(self) -> (r: (AltRecVecs, u64))
        requires
            self.wf(),
        ensures
            r.0.wf(),
            r.0.capacity == self.room,
            r.0.rows() == self.pending(),
            r.1 == self.accepted,
            r.1 == self.stored + self.pending().len(),
    {
        (self.batch, self.accepted)
    }
}

/// The feature identifiers of a list of rows.
pub open spec fn ids_of(rows: Seq<AltRow>) -> Seq<i64> {
    Seq::new(rows.len(), |i: int| rows[i].geo_id)
}

/// The threshold that a driver works with.
pub open spec fn effective_threshold(threshold: u64) -> nat {
    if threshold == 0 {
        1
    } else {
        threshold as nat
    }
}

/// What a chunked load gives: the chunks, in order, each to be stored and
/// then aggregated on its own, and the number of records that were accepted.
#[derive(Debug)]
pub struct ChunkLoad {
    pub chunks: Vec<AltRecVecs>,
    pub count: usize,
}

/// The outcome of a chunked load of `lines`: the first refusal ends it with
/// an error; without one, the kept rows come back cut into chunks.
pub open spec fn chunk_outcome(
    latin_only: bool,
    lines: Seq<Seq<Seq<char>>>,
    threshold: u64,
    r: Result<ChunkLoad, AppError>,
) -> bool {
    let d = AltNames { latin_only };
    let kept = kept_rows(&d, lines);
    match first_refusal(&d, lines) {
        Some((i, f)) => r matches Err(AppError::MalformedRecord(n, g)) && n == i && g == f,
        None => {
            &&& r matches Ok(l)
            &&& all_wf::<AltNames>(l.chunks@)
            &&& rows_of::<AltNames>(l.chunks@) == chunked(
                kept,
                ids_of(kept),
                effective_threshold(threshold),
            )
            &&& l.count == kept.len()
        },
    }
}

/// Loads records into chunks, cutting the stream each time the number of
/// changes of identifier since the last cut reaches `threshold`. The load
/// stops at the first record that is refused.
pub fn chunk_records(records: &Vec<Vec<String>>, latin_only: bool, threshold: u64) -> (r: Result<
    ChunkLoad,
    AppError,
>)
    ensures
        chunk_outcome(latin_only, lines(records@), threshold, r),
{
    let d = AltNames { latin_only };
    let ghost all = lines(records@);
    let ghost t = effective_threshold(threshold);
    let mut driver = ChunkDriver::new(threshold, 0);
    let mut done: Vec<AltRecVecs> = Vec::new();
    let mut i: usize = 0;
    while i < records.len()
        invariant
            i <= records.len(),
            all == lines(records@),
            d.latin_only == latin_only,
            t == effective_threshold(threshold),
            driver.wf(),
            driver.threshold == t,
            first_refusal(&d, all.take(i as int)) is None,
            all_wf::<AltNames>(done@),
            rows_of::<AltNames>(done@).push(driver.pending()) == chunked(
                kept_rows(&d, all.take(i as int)),
                ids_of(kept_rows(&d, all.take(i as int))),
                t,
            ),
            driver.window() == window_after(ids_of(kept_rows(&d, all.take(i as int))), t),
            driver.accepted == kept_rows(&d, all.take(i as int)).len(),
            driver.accepted <= i,
        decreases records.len() - i,
    {
        proof {
            let now = all.take(i + 1);
            assert(now.drop_last() == all.take(i as int));
        }
        let ghost kept = kept_rows(&d, all.take(i as int));
        match map_alt_line(&records[i], latin_only) {
            Err(f) => {
                proof {
                    lemma_refusal_stays(&d, all, i + 1);
                }
                return Err(AppError::MalformedRecord(i, f));
            },
            Ok(None) => {},
            Ok(Some(rec)) => {
                proof {
                    let grown = kept_rows(&d, all.take(i + 1));
                    assert(grown.drop_last() == kept);
                    assert(ids_of(grown).drop_last() == ids_of(kept));
                }
                if let Some(closed) = driver.accept(&rec) {
                    done.push(closed);
                }
            },
        }
        i += 1;
    }
    assert(all.take(i as int) == all);
    let (last, count) = driver.finish();
    done.push(last);
    assert(rows_of::<AltNames>(done@) == chunked(
        kept_rows(&d, all),
        ids_of(kept_rows(&d, all)),
        t,
    ));
    Ok(ChunkLoad { chunks: done, count: count as usize })
}

/// The outcome of a chunked load of the bytes of a source file: the records
/// that the `csv` crate reads are loaded; a fault of the reading ends the
/// load with an error, unless a record before it was refused.
pub open spec fn alt_source_outcome(
    latin_only: bool,
    data: Seq<u8>,
    threshold: u64,
    r: Result<ChunkLoad, AppError>,
) -> bool {
    let read = tab_separated(data);
    if first_refusal(&AltNames { latin_only }, read.0) is None && read.1 {
        r matches Err(AppError::UnreadableSource(n, _)) && n == read.0.len()
    } else {
        chunk_outcome(latin_only, read.0, threshold, r)
    }
}

/// Loads the bytes of a file of alternate names into chunks, cut every
/// [`CHUNK_IDS`] changes of identifier.
pub fn import_alt_name_data(data: &[u8], latin_only: bool) -> (r: Result<ChunkLoad, AppError>)
    ensures
        alt_source_outcome(latin_only, data@, CHUNK_IDS, r),
{
    let (records, fault) = read_records(data);
    match chunk_records(&records, latin_only, CHUNK_IDS) {
        Err(e) => Err(e),
        Ok(l) => match fault {
            Some(f) => Err(AppError::UnreadableSource(records.len(), fault_message(&f))),
            None => Ok(l),
        },
    }
}

/// What a chunked load stores is what it accepted: the rows of its chunks,
/// laid end to end, are the rows kept of the lines, and they are as many as
/// the load counts.
pub proof fn lemma_chunks_store_what_was_accepted(
    latin_only: bool,
    lines: Seq<Seq<Seq<char>>>,
    threshold: u64,
    l: ChunkLoad,
)
    requires
        chunk_outcome(latin_only, lines, threshold, Ok(l)),
    ensures
        rows_of::<AltNames>(l.chunks@).flatten() == kept_rows(&AltNames { latin_only }, lines),
        rows_of::<AltNames>(l.chunks@).flatten().len() == l.count,
{
    let kept = kept_rows(&AltNames { latin_only }, lines);
    lemma_chunked_flat(kept, ids_of(kept), effective_threshold(threshold));
}

/// No identifier is split between two chunks: in a stream where the rows of
/// one feature stand together, any two rows of one feature stand in one and
/// the same chunk.
pub proof fn lemma_identifier_never_split(rows: Seq<AltRow>, i: int, k: int, threshold: nat)
    requires
        grouped(ids_of(rows)),
        0 <= i <= k < rows.len(),
        rows[i].geo_id == rows[k].geo_id,
    ensures
        chunk_index(ids_of(rows), i, threshold) == chunk_index(ids_of(rows), k, threshold),
        chunk_index(ids_of(rows), i, threshold) < chunked(rows, ids_of(rows), threshold).len(),
        chunked(rows, ids_of(rows), threshold)[chunk_index(
            ids_of(rows),
            i,
            threshold,
        ) as int].contains(rows[i]),
        chunked(rows, ids_of(rows), threshold)[chunk_index(
            ids_of(rows),
            i,
            threshold,
        ) as int].contains(rows[k]),
{
    let ids = ids_of(rows);
    lemma_group_in_one_chunk(ids, i, k, threshold);
    lemma_row_place(rows, ids, i, threshold);
    lemma_row_place(rows, ids, k, threshold);
}

/// Whatever the stream, a chunk ends only where the feature changes: the
/// last row of a closed chunk and the first row of the next belong to
/// different features.
pub proof fn lemma_chunks_end_at_a_change(rows: Seq<AltRow>, i: int, threshold: nat)
    requires
        0 < i < rows.len(),
        cut_before(ids_of(rows), i, threshold),
    ensures
        rows[i - 1].geo_id != rows[i].geo_id,
{
    lemma_cut_only_at_change(ids_of(rows), i, threshold);
}

/// The name of a record is clean, whatever the line.
pub proof fn lemma_alt_row_is_clean(line: Seq<Seq<char>>)
    ensures
        is_clean(alt_row(line).name),
{
    lemma_normalized_is_clean(line[COL_NAME as int]);
}

/// The text of the statement that drops and creates the table of
/// aggregated alternate names.
pub fn get_alt_names_sql() -> (sql: &'static str)
    ensures
        sql@ == CREATE_ALT_NAMES@,
{
    CREATE_ALT_NAMES
}

/// The statements that drop and create the table of aggregated alternate
/// names.
pub fn create_alt_name_table() -> (plan: Vec<Step>)
    ensures
        plan_view(plan@) == seq![
            (CREATE_ALT_NAMES@, None::<Seq<char>>),
        ],
{
    let mut plan: Vec<Step> = Vec::new();
    plan.push(silent(CREATE_ALT_NAMES));
    plan
}

/// The statements that drop and create the staging table, so that the next
/// chunk starts from a clean slate.
pub fn create_collecting_table() -> (plan: Vec<Step>)
    ensures
        plan_view(plan@) == seq![
            (CREATE_ALT_STAGING@, None::<Seq<char>>),
        ],
{
    let mut plan: Vec<Step> = Vec::new();
    plan.push(silent(CREATE_ALT_STAGING));
    plan
}

/// The statements that aggregate the staged chunk and merge it into the
/// table of alternate names.
pub fn transfer_data() -> (plan: Vec<Step>)
    ensures
        plan_view(plan@) == seq![
            (MERGE_ALT_NAMES@, None::<Seq<char>>),
        ],
{
    let mut plan: Vec<Step> = Vec::new();
    plan.push(silent(MERGE_ALT_NAMES));
    plan
}

/// The columns that a batch fills, in the order of its parameters.
pub open spec fn stored_columns() -> Seq<TargetView> {
    seq![
        TargetView { name: "geo_id"@, sql_type: "int"@ },
        TargetView { name: "alt_name"@, sql_type: "text"@ },
        TargetView { name: "lang"@, sql_type: "text"@ },
        TargetView { name: "historic"@, sql_type: "text"@ },
    ]
}

/// Writes the statement that stores a chunk in the staging table.
pub fn store_statement() -> (sql: String)
    ensures
        sql@ == insert_text("src.alt_src_names"@, stored_columns()),
{
    let mut columns: Vec<Target> = Vec::new();
    columns.push(Target { name: "geo_id", sql_type: "int" });
    columns.push(Target { name: "alt_name", sql_type: "text" });
    columns.push(Target { name: "lang", sql_type: "text" });
    columns.push(Target { name: "historic", sql_type: "text" });
    assert(targets(columns@) == stored_columns());
    insert_statement("src.alt_src_names", &columns)
}

} // verus!
