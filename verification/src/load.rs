//! Loading the records of a source file into batches.
use crate::batch::{BatchWindow, Domain, Reading};
use crate::err::AppError;
use crate::line::{Fault, lines, texts};
use crate::source::{fault_message, read_records, tab_separated};
use vstd::prelude::*;

verus! {

/// The rows that a domain keeps of `lines`, in order.
pub open spec fn kept_rows<D: Domain>(d: &D, lines: Seq<Seq<Seq<char>>>) -> Seq<D::Row>
    decreases lines.len(),
{
    if lines.len() == 0 {
        Seq::empty()
    } else {
        let before = kept_rows(d, lines.drop_last());
        match d.reading(lines.last()) {
            Reading::Kept(r) => before.push(r),
            _ => before,
        }
    }
}

/// The first line that a domain refuses: its index and its fault.
pub open spec fn first_refusal<D: Domain>(d: &D, lines: Seq<Seq<Seq<char>>>) -> Option<
    (int, Fault),
>
    decreases lines.len(),
{
    if lines.len() == 0 {
        None
    } else {
        match first_refusal(d, lines.drop_last()) {
            Some(x) => Some(x),
            None => match d.reading(lines.last()) {
                Reading::Refused(f) => Some((lines.len() - 1, f)),
                _ => None,
            },
        }
    }
}

/// `rows` as the batches that a window of the given capacity hands out: a
/// batch is closed as soon as it holds `capacity` rows, and the last batch is
/// the one still open at the end, which may be empty.
pub open spec fn split<R>(rows: Seq<R>, capacity: nat) -> Seq<Seq<R>>
    decreases rows.len(),
{
    if rows.len() == 0 {
        seq![Seq::<R>::empty()]
    } else {
        let before = split(rows.drop_last(), capacity);
        let grown = before.last().push(rows.last());
        if grown.len() == capacity {
            before.update(before.len() - 1, grown).push(Seq::<R>::empty())
        } else {
            before.update(before.len() - 1, grown)
        }
    }
}

/// The batches of a split are never empty of batches, every batch but the
/// last holds exactly `capacity` rows, and the last holds fewer.
pub proof fn lemma_split_sizes<R>(rows: Seq<R>, capacity: nat)
    requires
        capacity >= 1,
    ensures
        split(rows, capacity).len() >= 1,
        split(rows, capacity).last().len() < capacity,
        forall|k: int|
            0 <= k < split(rows, capacity).len() - 1 ==> (#[trigger] split(
                rows,
                capacity,
            )[k]).len() == capacity,
    decreases rows.len(),
{
    if rows.len() > 0 {
        lemma_split_sizes(rows.drop_last(), capacity);
    }
}

/// The batches of a split, laid end to end, are the rows: what is stored
/// over all the batches is what was accepted, row by row.
pub proof fn lemma_split_flat<R>(rows: Seq<R>, capacity: nat)
    requires
        capacity >= 1,
    ensures
        split(rows, capacity).flatten() == rows,
    decreases rows.len(),
{
    let all = split(rows, capacity);
    if rows.len() == 0 {
        all.lemma_flatten_one_element();
    } else {
        let before = split(rows.drop_last(), capacity);
        lemma_split_flat(rows.drop_last(), capacity);
        lemma_split_sizes(rows.drop_last(), capacity);
        let head = before.drop_last();
        let grown = before.last().push(rows.last());
        assert(before == head.push(before.last()));
        head.lemma_flatten_push(before.last());
        head.lemma_flatten_push(grown);
        assert(head.flatten() + grown == (head.flatten() + before.last()).push(rows.last()));
        assert(before.update(before.len() - 1, grown) == head.push(grown));
        if grown.len() == capacity {
            head.push(grown).lemma_flatten_push(Seq::<R>::empty());
        }
    }
}

/// The total number of rows in the batches of a split is the number of rows:
/// the rows stored over all flushes are as many as the records accepted.
pub proof fn lemma_split_count<R>(rows: Seq<R>, capacity: nat)
    requires
        capacity >= 1,
    ensures
        split(rows, capacity).flatten().len() == rows.len(),
{
    lemma_split_flat(rows, capacity);
}

/// The rows of each batch of a list.
pub open spec fn rows_of<D: Domain>(batches: Seq<D::Batch>) -> Seq<Seq<D::Row>> {
    Seq::new(batches.len(), |i: int| D::batch_rows(&batches[i]))
}

/// Whether every batch of a list has columns of one length.
pub open spec fn all_wf<D: Domain>(batches: Seq<D::Batch>) -> bool {
    forall|i: int| 0 <= i < batches.len() ==> D::batch_wf(#[trigger] &batches[i])
}

/// Whether every batch of a list was sized for `room` rows.
pub open spec fn all_sized<D: Domain>(batches: Seq<D::Batch>, room: nat) -> bool {
    forall|i: int| 0 <= i < batches.len() ==> D::batch_room(#[trigger] &batches[i]) == room
}

/// What a load gives: the batches to store, in order, and the number of
/// records that were accepted.
pub struct Loaded<D: Domain> {
    pub batches: Vec<D::Batch>,
    pub count: usize,
}

/// The capacity that a window works with.
pub open spec fn effective(capacity: usize) -> nat {
    if capacity == 0 {
        1
    } else {
        capacity as nat
    }
}

/// The outcome of a load of `lines`: the first refusal ends it with an error;
/// without one, the kept rows come back split into batches, each sized for
/// the capacity.
pub open spec fn load_outcome<D: Domain>(
    d: &D,
    lines: Seq<Seq<Seq<char>>>,
    capacity: usize,
    r: Result<Loaded<D>, AppError>,
) -> bool {
    match first_refusal(d, lines) {
        Some((i, f)) => r matches Err(AppError::MalformedRecord(n, g)) && n == i && g == f,
        None => {
            &&& r matches Ok(l)
            &&& all_wf::<D>(l.batches@)
            &&& all_sized::<D>(l.batches@, effective(capacity))
            &&& rows_of::<D>(l.batches@) == split(kept_rows(d, lines), effective(capacity))
            &&& l.count == kept_rows(d, lines).len()
        },
    }
}

/// Loads records into batches of at most `capacity` rows. The load stops at
/// the first record that the domain refuses.
pub fn load_records<D: Domain>(d: &D, records: &Vec<Vec<String>>, capacity: usize) -> (r: Result<
    Loaded<D>,
    AppError,
>)
    ensures
        load_outcome(d, lines(records@), capacity, r),
{
    let ghost all = lines(records@);
    let mut window: BatchWindow<D> = BatchWindow::new(capacity);
    let mut done: Vec<D::Batch> = Vec::new();
    let mut i: usize = 0;
    while i < records.len()
        invariant
            i <= records.len(),
            all == lines(records@),
            window.wf(),
            window.capacity == effective(capacity),
            first_refusal(d, all.take(i as int)) is None,
            all_wf::<D>(done@),
            all_sized::<D>(done@, effective(capacity)),
            rows_of::<D>(done@).push(window.pending()) == split(
                kept_rows(d, all.take(i as int)),
                effective(capacity),
            ),
            window.accepted == kept_rows(d, all.take(i as int)).len(),
            window.accepted <= i,
        decreases records.len() - i,
    {
        proof {
            let now = all.take(i + 1);
            assert(now.drop_last() == all.take(i as int));
        }
        let ghost kept = kept_rows(d, all.take(i as int));
        match d.map_line(&records[i]) {
            Err(f) => {
                proof {
                    lemma_refusal_stays(d, all, i + 1);
                }
                return Err(AppError::MalformedRecord(i, f));
            },
            Ok(None) => {},
            Ok(Some(rec)) => {
                proof {
                    let grown = kept_rows(d, all.take(i + 1));
                    assert(grown.drop_last() == kept);
                }
                if let Some(full) = window.push(&rec) {
                    done.push(full);
                }
            },
        }
        i += 1;
    }
    assert(all.take(i as int) == all);
    let (last, count) = window.finish();
    done.push(last);
    assert(rows_of::<D>(done@) == split(kept_rows(d, all), effective(capacity)));
    Ok(Loaded { batches: done, count: count as usize })
}

/// A refusal among the first `n` lines is the first refusal of all the lines.
pub proof fn lemma_refusal_stays<D: Domain>(d: &D, lines: Seq<Seq<Seq<char>>>, n: int)
    requires
        0 <= n <= lines.len(),
        first_refusal(d, lines.take(n)) is Some,
    ensures
        first_refusal(d, lines) == first_refusal(d, lines.take(n)),
    decreases lines.len() - n,
{
    if n == lines.len() {
        assert(lines.take(n) == lines);
    } else {
        assert(lines.drop_last().take(n) == lines.take(n));
        lemma_refusal_stays(d, lines.drop_last(), n);
    }
}

/// The outcome of a load of the bytes of a source file: the records that the
/// `csv` crate reads are loaded; a fault of the reading ends the load with an
/// error, unless a record before it was refused.
pub open spec fn source_outcome<D: Domain>(
    d: &D,
    data: Seq<u8>,
    capacity: usize,
    r: Result<Loaded<D>, AppError>,
) -> bool {
    let read = tab_separated(data);
    if first_refusal(d, read.0) is None && read.1 {
        r matches Err(AppError::UnreadableSource(n, _)) && n == read.0.len()
    } else {
        load_outcome(d, read.0, capacity, r)
    }
}

/// Loads the bytes of a source file into batches of at most `capacity` rows.
pub fn import_source<D: Domain>(d: &D, data: &[u8], capacity: usize) -> (r: Result<
    Loaded<D>,
    AppError,
>)
    ensures
        source_outcome(d, data@, capacity, r),
{
    let (records, fault) = read_records(data);
    match load_records(d, &records, capacity) {
        Err(e) => Err(e),
        Ok(l) => match fault {
            Some(f) => Err(AppError::UnreadableSource(records.len(), fault_message(&f))),
            None => Ok(l),
        },
    }
}

/// What a load stores is what it accepted: the rows of its batches, laid end
/// to end, are the rows that the domain keeps of the lines, and they are as
/// many as the load counts.
pub proof fn lemma_load_stores_what_it_accepts<D: Domain>(
    d: &D,
    lines: Seq<Seq<Seq<char>>>,
    capacity: usize,
    l: Loaded<D>,
)
    requires
        load_outcome(d, lines, capacity, Ok(l)),
    ensures
        rows_of::<D>(l.batches@).flatten() == kept_rows(d, lines),
        rows_of::<D>(l.batches@).flatten().len() == l.count,
{
    lemma_split_flat(kept_rows(d, lines), effective(capacity));
}

} // verus!
