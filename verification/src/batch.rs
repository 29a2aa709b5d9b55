//! Column batches: a domain's records gathered column by column, and the
//! window that hands a batch out each time it is full.
use crate::line::Fault;
use vstd::prelude::*;

verus! {

/// What a domain does with one line.
pub enum Reading<R> {
    /// The line is malformed.
    Refused(Fault),
    /// The line is well formed and the domain leaves it out.
    Skipped,
    /// The line gives this row.
    Kept(R),
}

/// A domain of the gazetteer: how one of its lines becomes a record, and how
/// records are gathered into the parallel columns of a batch.
pub trait Domain: Sized {
    /// One record.
    type Record;

    /// What a record holds, as plain values.
    type Row;

    /// The columns of many records.
    type Batch;

    /// What `r` holds.
    spec fn row_of(r: &Self::Record) -> Self::Row;

    /// Whether the columns of `b` have one length.
    spec fn batch_wf(b: &Self::Batch) -> bool;

    /// The rows that `b` holds, in the order in which they were added.
    spec fn batch_rows(b: &Self::Batch) -> Seq<Self::Row>;

    /// The number of rows that the columns of `b` were sized for.
    spec fn batch_room(b: &Self::Batch) -> usize;

    /// What the domain does with `line`.
    spec fn reading(&self, line: Seq<Seq<char>>) -> Reading<Self::Row>;

    /// Maps one line: the record where it is kept, `None` where the domain
    /// leaves it out, the fault where it is malformed.
    fn map_line(&self, fields: &Vec<String>) -> (r: Result<Option<Self::Record>, Fault>)
        ensures
            match r {
                Ok(Some(rec)) => self.reading(crate::line::texts(fields@)) == Reading::Kept(
                    Self::row_of(&rec),
                ),
                Ok(None) => self.reading(crate::line::texts(fields@)) == Reading::<
                    Self::Row,
                >::Skipped,
                Err(f) => self.reading(crate::line::texts(fields@)) == Reading::<
                    Self::Row,
                >::Refused(f),
            },
    ;

    /// An empty batch, sized for `vsize` rows.
    fn new_batch(vsize: usize) -> (b: Self::Batch)
        ensures
            Self::batch_wf(&b),
            Self::batch_rows(&b) == Seq::<Self::Row>::empty(),
            Self::batch_room(&b) == vsize,
    ;

    /// Adds one record at the end of every column.
    fn add(b: &mut Self::Batch, r: &Self::Record)
        requires
            Self::batch_wf(old(b)),
        ensures
            Self::batch_wf(final(b)),
            Self::batch_rows(final(b)) == Self::batch_rows(old(b)).push(Self::row_of(r)),
            Self::batch_room(final(b)) == Self::batch_room(old(b)),
    ;

    /// The number of rows in a batch.
    fn row_count(b: &Self::Batch) -> (n: usize)
        requires
            Self::batch_wf(b),
        ensures
            n == Self::batch_rows(b).len(),
    ;
}

/// The batch being filled for one domain, with the counts of what went
/// through it.
pub struct BatchWindow<D: Domain> {
    /// The rows accepted since the last full batch was handed out.
    pub batch: D::Batch,
    /// The number of rows at which a batch is full.
    pub capacity: usize,
    /// The number of records accepted so far.
    pub accepted: u64,
    /// The number of rows handed out in full batches so far.
    pub stored: u64,
}

impl<D: Domain> BatchWindow<D> {
    /// The invariant of a window: the batch is well formed, sized for the
    /// capacity of the window and not yet full, and every accepted record is
    /// either in it or was handed out.
    pub open spec fn wf(&self) -> bool {
        &&& D::batch_wf(&self.batch)
        &&& D::batch_room(&self.batch) == self.capacity
        &&& self.capacity >= 1
        &&& D::batch_rows(&self.batch).len() < self.capacity
        &&& self.stored + D::batch_rows(&self.batch).len() == self.accepted
    }

    /// The rows waiting in the window.
    pub open spec fn pending(&self) -> Seq<D::Row> {
        D::batch_rows(&self.batch)
    }

    /// A window with an empty batch. A capacity of zero is taken as one.
    pub fn new(capacity: usize) -> (w: Self)
        ensures
            w.wf(),
            w.pending() == Seq::<D::Row>::empty(),
            w.capacity == if capacity == 0 { 1usize } else { capacity },
            w.accepted == 0,
            w.stored == 0,
    {
        let capacity = if capacity == 0 {
            1
        } else {
            capacity
        };
        BatchWindow { batch: D::new_batch(capacity), capacity, accepted: 0, stored: 0 }
    }

    /// Accepts one record. Where that fills the batch, the full batch is
    /// handed out and an empty one takes its place.
    pub fn push(&mut self, r: &D::Record) -> (full: Option<D::Batch>)
        requires
            old(self).wf(),
            old(self).accepted < u64::MAX,
        ensures
            final(self).wf(),
            final(self).capacity == old(self).capacity,
            final(self).accepted == old(self).accepted + 1,
            match full {
                None => {
                    &&& old(self).pending().len() + 1 < old(self).capacity
                    &&& final(self).pending() == old(self).pending().push(D::row_of(r))
                    &&& final(self).stored == old(self).stored
                },
                Some(b) => {
                    &&& old(self).pending().len() + 1 == old(self).capacity
                    &&& D::batch_wf(&b)
                    &&& D::batch_room(&b) == old(self).capacity
                    &&& D::batch_rows(&b) == old(self).pending().push(D::row_of(r))
                    &&& final(self).pending() == Seq::<D::Row>::empty()
                    &&& final(self).stored == old(self).stored + old(self).capacity
                },
            },
    {
        D::add(&mut self.batch, r);
        self.accepted = self.accepted + 1;
        if D::row_count(&self.batch) == self.capacity {
            let mut full = D::new_batch(self.capacity);
            std::mem::swap(&mut self.batch, &mut full);
            self.stored = self.stored + (self.capacity as u64);
            Some(full)
        } else {
            None
        }
    }

    /// Ends the run: the last batch, which may be empty, and the number of
    /// records accepted over the whole run.
    pub fn finish(self) -> (r: (D::Batch, u64))
        requires
            self.wf(),
        ensures
            D::batch_wf(&r.0),
            D::batch_room(&r.0) == self.capacity,
            D::batch_rows(&r.0) == self.pending(),
            r.1 == self.accepted,
            r.1 == self.stored + self.pending().len(),
    {
        (self.batch, self.accepted)
    }
}

} // verus!
