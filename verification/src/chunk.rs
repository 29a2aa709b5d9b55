//! Where a stream that is keyed by a foreign identifier is cut into chunks.
//!
//! The stream is cut each time the number of changes of identifier since the
//! last cut reaches a threshold, and only at such a change: a run of rows
//! that share one identifier is never cut.
use vstd::prelude::*;

verus! {

/// What the cutting rule remembers between two rows.
pub struct Window {
    /// The number of changes of identifier since the last cut.
    pub distinct: nat,
    /// The identifier of the row before, if there was one.
    pub last: Option<i64>,
}

/// The window before the first row.
pub open spec fn start() -> Window {
    Window { distinct: 0, last: None }
}

/// Whether a row with identifier `id` changes the identifier.
pub open spec fn changes(w: Window, id: i64) -> bool {
    w.last != Some(id)
}

/// Whether the stream is cut before a row with identifier `id`: the row
/// changes the identifier, and with it the count of changes reaches the
/// threshold.
pub open spec fn cuts(w: Window, id: i64, threshold: nat) -> bool {
    changes(w, id) && w.distinct + 1 == threshold
}

/// The window after a row with identifier `id`.
pub open spec fn step(w: Window, id: i64, threshold: nat) -> Window {
    Window {
        distinct: if cuts(w, id, threshold) {
            0
        } else if changes(w, id) {
            w.distinct + 1
        } else {
            w.distinct
        },
        last: Some(id),
    }
}

/// The window after all the rows of `ids`.
pub open spec fn window_after(ids: Seq<i64>, threshold: nat) -> Window
    decreases ids.len(),
{
    if ids.len() == 0 {
        start()
    } else {
        step(window_after(ids.drop_last(), threshold), ids.last(), threshold)
    }
}

/// Whether the stream `ids` is cut before its row `i`.
pub open spec fn cut_before(ids: Seq<i64>, i: int, threshold: nat) -> bool {
    cuts(window_after(ids.take(i), threshold), ids[i], threshold)
}

/// The number of cuts before the rows `0` to `i` of `ids`, which is the
/// index of the chunk that row `i` falls into.
pub open spec fn chunk_index(ids: Seq<i64>, i: int, threshold: nat) -> nat
    decreases i + 1,
{
    if i < 0 {
        0
    } else {
        chunk_index(ids, i - 1, threshold) + if cut_before(ids, i, threshold) {
            1nat
        } else {
            0nat
        }
    }
}

/// The first row of the chunk that row `i` falls into.
pub open spec fn chunk_start(ids: Seq<i64>, i: int, threshold: nat) -> int
    decreases i,
{
    if i <= 0 {
        0
    } else if cut_before(ids, i, threshold) {
        i
    } else {
        chunk_start(ids, i - 1, threshold)
    }
}

/// Whether the rows of one identifier stand together in `ids`.
pub open spec fn grouped(ids: Seq<i64>) -> bool {
    forall|i: int, j: int, k: int|
        #![trigger ids[i], ids[j], ids[k]]
        0 <= i <= j <= k < ids.len() && ids[i] == ids[k] ==> ids[j] == ids[i]
}

/// After at least one row, the window remembers the identifier of the last.
pub proof fn lemma_window_remembers_last(ids: Seq<i64>, threshold: nat)
    requires
        ids.len() > 0,
    ensures
        window_after(ids, threshold).last == Some(ids.last()),
{
}

/// Between two cuts the count of changes stays below the threshold.
pub proof fn lemma_window_below_threshold(ids: Seq<i64>, threshold: nat)
    requires
        threshold >= 1,
    ensures
        window_after(ids, threshold).distinct < threshold,
    decreases ids.len(),
{
    if ids.len() > 0 {
        lemma_window_below_threshold(ids.drop_last(), threshold);
    }
}

/// A cut falls only where the identifier changes: whatever the stream, no
/// cut parts a row from a row before it that has the same identifier.
pub proof fn lemma_cut_only_at_change(ids: Seq<i64>, i: int, threshold: nat)
    requires
        0 < i < ids.len(),
        cut_before(ids, i, threshold),
    ensures
        ids[i - 1] != ids[i],
{
    let before = ids.take(i);
    lemma_window_remembers_last(before, threshold);
}

/// What is cut before row `i` depends on the rows up to `i` alone.
pub proof fn lemma_cut_of_prefix(ids: Seq<i64>, n: int, i: int, threshold: nat)
    requires
        0 <= i < n <= ids.len(),
    ensures
        cut_before(ids.take(n), i, threshold) == cut_before(ids, i, threshold),
{
    assert(ids.take(n).take(i) == ids.take(i));
}

/// The chunk of row `i` depends on the rows up to `i` alone.
pub proof fn lemma_chunk_of_prefix(ids: Seq<i64>, n: int, i: int, threshold: nat)
    requires
        i < n <= ids.len(),
    ensures
        chunk_index(ids.take(n), i, threshold) == chunk_index(ids, i, threshold),
        chunk_start(ids.take(n), i, threshold) == chunk_start(ids, i, threshold),
    decreases i + 1,
{
    if i >= 0 {
        lemma_cut_of_prefix(ids, n, i, threshold);
        lemma_chunk_of_prefix(ids, n, i - 1, threshold);
    }
}

/// The chunk of a row starts at or before the row, and every row from that
/// start to the row falls into the same chunk.
pub proof fn lemma_chunk_start(ids: Seq<i64>, i: int, threshold: nat)
    requires
        0 <= i < ids.len(),
    ensures
        0 <= chunk_start(ids, i, threshold) <= i,
        chunk_index(ids, chunk_start(ids, i, threshold), threshold) == chunk_index(
            ids,
            i,
            threshold,
        ),
    decreases i,
{
    if i > 0 && !cut_before(ids, i, threshold) {
        lemma_chunk_start(ids, i - 1, threshold);
    }
}

/// The index of the chunk never goes down along the stream.
pub proof fn lemma_chunk_index_grows(ids: Seq<i64>, i: int, k: int, threshold: nat)
    requires
        i <= k,
    ensures
        chunk_index(ids, i, threshold) <= chunk_index(ids, k, threshold),
    decreases k - i,
{
    if i < k {
        lemma_chunk_index_grows(ids, i, k - 1, threshold);
    }
}

/// In a stream where the rows of one identifier stand together, any two rows
/// with the same identifier fall into the same chunk: no identifier's rows
/// are split between two chunks.
pub proof fn lemma_group_in_one_chunk(ids: Seq<i64>, i: int, k: int, threshold: nat)
    requires
        grouped(ids),
        0 <= i <= k < ids.len(),
        ids[i] == ids[k],
    ensures
        chunk_index(ids, i, threshold) == chunk_index(ids, k, threshold),
    decreases k - i,
{
    if i < k {
        lemma_group_in_one_chunk(ids, i, k - 1, threshold);
        if cut_before(ids, k, threshold) {
            lemma_cut_only_at_change(ids, k, threshold);
        }
    }
}

/// The chunks that the stream `rows` is cut into, where `ids` gives the
/// identifier of each row: the chunks that were closed by a cut, in order,
/// and then the chunk that is still open at the end of the stream.
pub open spec fn chunked<R>(rows: Seq<R>, ids: Seq<i64>, threshold: nat) -> Seq<Seq<R>>
    decreases rows.len(),
{
    if rows.len() == 0 {
        seq![Seq::<R>::empty()]
    } else {
        let before = chunked(rows.drop_last(), ids.drop_last(), threshold);
        if cut_before(ids, rows.len() - 1, threshold) {
            before.push(seq![rows.last()])
        } else {
            before.update(before.len() - 1, before.last().push(rows.last()))
        }
    }
}

/// There is one chunk more than there are cuts.
pub proof fn lemma_chunked_len<R>(rows: Seq<R>, ids: Seq<i64>, threshold: nat)
    requires
        rows.len() == ids.len(),
    ensures
        chunked(rows, ids, threshold).len() == 1 + chunk_index(ids, rows.len() - 1, threshold),
    decreases rows.len(),
{
    if rows.len() > 0 {
        lemma_chunked_len(rows.drop_last(), ids.drop_last(), threshold);
        lemma_chunk_of_prefix(ids, ids.len() - 1, ids.len() - 2, threshold);
    }
}

/// The chunks, laid end to end, are the stream: no row is lost, none occurs
/// twice, and the order is kept.
pub proof fn lemma_chunked_flat<R>(rows: Seq<R>, ids: Seq<i64>, threshold: nat)
    requires
        rows.len() == ids.len(),
    ensures
        chunked(rows, ids, threshold).flatten() == rows,
    decreases rows.len(),
{
    let all = chunked(rows, ids, threshold);
    if rows.len() == 0 {
        all.lemma_flatten_one_element();
    } else {
        let before = chunked(rows.drop_last(), ids.drop_last(), threshold);
        lemma_chunked_flat(rows.drop_last(), ids.drop_last(), threshold);
        lemma_chunked_len(rows.drop_last(), ids.drop_last(), threshold);
        let tail = seq![rows.last()];
        if cut_before(ids, rows.len() - 1, threshold) {
            before.lemma_flatten_push(tail);
        } else {
            let head = before.drop_last();
            assert(before == head.push(before.last()));
            head.lemma_flatten_push(before.last());
            assert(all == head.push(before.last().push(rows.last())));
            head.lemma_flatten_push(before.last().push(rows.last()));
            assert(head.flatten() + before.last().push(rows.last()) == (head.flatten()
                + before.last()).push(rows.last()));
        }
    }
}

/// Row `i` of the stream stands in the chunk with index
/// [`chunk_index`], as many places from its start as the row is from
/// [`chunk_start`].
pub proof fn lemma_row_place<R>(rows: Seq<R>, ids: Seq<i64>, i: int, threshold: nat)
    requires
        rows.len() == ids.len(),
        0 <= i < rows.len(),
    ensures
        chunk_index(ids, i, threshold) < chunked(rows, ids, threshold).len(),
        0 <= i - chunk_start(ids, i, threshold) < chunked(rows, ids, threshold)[chunk_index(
            ids,
            i,
            threshold,
        ) as int].len(),
        chunked(rows, ids, threshold)[chunk_index(ids, i, threshold) as int][i - chunk_start(
            ids,
            i,
            threshold,
        )] == rows[i],
    decreases rows.len(),
{
    let n = rows.len() as int;
    let shorter = ids.drop_last();
    lemma_chunked_len(rows, ids, threshold);
    lemma_chunked_len(rows.drop_last(), shorter, threshold);
    lemma_chunk_index_grows(ids, i, n - 1, threshold);
    lemma_chunk_start(ids, i, threshold);
    if i < n - 1 {
        lemma_row_place(rows.drop_last(), shorter, i, threshold);
        lemma_chunk_of_prefix(ids, n - 1, i, threshold);
        lemma_chunk_of_prefix(ids, n - 1, n - 2, threshold);
        lemma_chunk_index_grows(shorter, i, n - 2, threshold);
    } else {
        if n >= 2 {
            lemma_chunk_of_prefix(ids, n - 1, n - 2, threshold);
        }
        if !cut_before(ids, n - 1, threshold) {
            lemma_open_chunk_len(rows.drop_last(), shorter, threshold);
            if n >= 2 {
                lemma_chunk_of_prefix(ids, n - 1, n - 2, threshold);
            }
        }
    }
}

/// The chunk that is open at the end of the stream holds the rows from the
/// start of the last row's chunk on.
pub proof fn lemma_open_chunk_len<R>(rows: Seq<R>, ids: Seq<i64>, threshold: nat)
    requires
        rows.len() == ids.len(),
    ensures
        chunked(rows, ids, threshold).len() >= 1,
        chunked(rows, ids, threshold).last().len() == rows.len() - chunk_start(
            ids,
            rows.len() - 1,
            threshold,
        ),
    decreases rows.len(),
{
    let n = rows.len() as int;
    if n > 0 {
        let shorter = ids.drop_last();
        lemma_open_chunk_len(rows.drop_last(), shorter, threshold);
        if n >= 2 {
            lemma_chunk_of_prefix(ids, n - 1, n - 2, threshold);
        }
    }
}

/// Every row of a chunk is a row of the stream that falls into that chunk:
/// the result is the place of such a row in the stream.
pub proof fn lemma_chunk_members<R>(
    rows: Seq<R>,
    ids: Seq<i64>,
    threshold: nat,
    c: int,
    o: int,
) -> (i: int)
    requires
        rows.len() == ids.len(),
        0 <= c < chunked(rows, ids, threshold).len(),
        0 <= o < chunked(rows, ids, threshold)[c].len(),
    ensures
        0 <= i < rows.len(),
        chunk_index(ids, i, threshold) == c,
        rows[i] == chunked(rows, ids, threshold)[c][o],
    decreases rows.len(),
{
    let n = rows.len() as int;
    let before = chunked(rows.drop_last(), ids.drop_last(), threshold);
    let shorter = ids.drop_last();
    lemma_chunked_len(rows, ids, threshold);
    lemma_chunked_len(rows.drop_last(), shorter, threshold);
    let last = before.len() - 1;
    let old_place = if cut_before(ids, n - 1, threshold) {
        c < before.len()
    } else {
        c < last || (c == last && o < before.last().len())
    };
    if old_place {
        let i = lemma_chunk_members(rows.drop_last(), shorter, threshold, c, o);
        lemma_chunk_of_prefix(ids, n - 1, i, threshold);
        i
    } else {
        n - 1
    }
}

} // verus!
