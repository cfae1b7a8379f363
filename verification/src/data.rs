//! The in-memory record table.
//!
//! `DataStore` owns an ordered list of rows and the next identifier to hand
//! out.  Identifiers are unique and strictly increasing in insertion order,
//! and the row count always equals the number of rows added since the last
//! clear; both facts follow from the store invariant `wf`, which every
//! operation establishes or preserves.

use crate::clock::Timestamp;
use vstd::prelude::*;
use vstd::string::StringExecFns;

verus! {

/// One record: identifier, name, value in hundredths, creation time.
///
/// The value column is a fixed-point quantity held as a whole number of
/// hundredths, so that "two decimal places" is exact arithmetic rather
/// than float formatting.
#[derive(Clone, Debug)]
pub struct TableData {
    pub id: u32,
    pub name: String,
    pub value: u64,
    pub date: Timestamp,
}

/// Upper bound (exclusive) on a generated row value: hundredths of 1000.
pub const VALUE_BOUND: u64 = 100000;

/// The fixed names given to one batch of sample rows, in order.
pub open spec fn sample_name(i: int) -> Seq<char> {
    if i == 0 {
        "Alpha"@
    } else if i == 1 {
        "Beta"@
    } else if i == 2 {
        "Gamma"@
    } else if i == 3 {
        "Delta"@
    } else {
        "Epsilon"@
    }
}

/// How many rows one call of `add_sample_data` appends.
pub const SAMPLE_BATCH: usize = 5;

/// What `add_sample_data` promises of the `i`th row of a batch whose first
/// identifier is `first_id`: consecutive identifier, the fixed sample name,
/// a value below `VALUE_BOUND`, and a well-formed timestamp.
pub open spec fn sample_row_ok(row: TableData, first_id: int, i: int) -> bool {
    &&& row.id == first_id + i
    &&& row.name@ == sample_name(i)
    &&& row.value < VALUE_BOUND
    &&& row.date.wf()
}

pub struct DataStore {
    pub data: Vec<TableData>,
    pub next_id: u32,
}

impl DataStore {
    /// The store invariant: the counter started at 1 and went up once per
    /// row ever added since the last clear, every stored identifier is
    /// below the counter, and identifiers strictly increase in insertion
    /// order.
    pub open spec fn wf(&self) -> bool {
        &&& self.next_id >= 1
        &&& self.data@.len() == self.next_id - 1
        &&& forall|i: int| 0 <= i < self.data@.len() ==> self.data@[i].id < self.next_id
        &&& forall|i: int, j: int|
            0 <= i < j < self.data@.len() ==> self.data@[i].id < self.data@[j].id
    }

    /// An empty store whose counter is at its start value.
    pub fn new() -> (r: Self)
        ensures
            r.wf(),
            r.data@.len() == 0,
            r.next_id == 1,
    {
        DataStore { data: Vec::new(), next_id: 1 }
    }

    /// Append one batch of sample rows: consecutive identifiers starting at
    /// the current counter, the fixed sample names in order, a generated
    /// value below `VALUE_BOUND`, and the current clock reading.
    pub fn add_sample_data(&mut self)
        requires
            old(self).wf(),
            old(self).next_id + SAMPLE_BATCH <= u32::MAX,
        ensures
            final(self).wf(),
            final(self).next_id == old(self).next_id + SAMPLE_BATCH,
            final(self).data@.len() == old(self).data@.len() + SAMPLE_BATCH,
            forall|k: int|
                0 <= k < old(self).data@.len() ==> final(self).data@[k] == old(self).data@[k],
            forall|i: int|
                0 <= i < SAMPLE_BATCH ==> #[trigger] sample_row_ok(
                    final(self).data@[old(self).data@.len() + i],
                    old(self).next_id as int,
                    i,
                ),
    {
        let mut i: usize = 0;
        while i < SAMPLE_BATCH
            invariant
                old(self).wf(),
                old(self).next_id + SAMPLE_BATCH <= u32::MAX,
                i <= SAMPLE_BATCH,
                self.next_id == old(self).next_id + i,
                self.data@.len() == old(self).data@.len() + i,
                forall|k: int|
                    0 <= k < old(self).data@.len() ==> self.data@[k] == old(self).data@[k],
                forall|j: int|
                    0 <= j < i ==> #[trigger] sample_row_ok(
                        self.data@[old(self).data@.len() + j],
                        old(self).next_id as int,
                        j,
                    ),
                self.wf(),
            decreases SAMPLE_BATCH - i,
        {
            let row = TableData {
                id: self.next_id,
                name: String::from_str(sample_name_at(i)),
                value: random_value_hundredths(),
                date: Timestamp::now(),
            };
            self.data.push(row);
            self.next_id = self.next_id + 1;
            i = i + 1;
        }
    }

    /// Empty the store and reset the counter to its start value.  The
    /// post-state is the same whatever the store held, so clearing twice
    /// is the same as clearing once.
    pub fn clear_data(&mut self)
        ensures
            final(self).wf(),
            final(self).data@.len() == 0,
            final(self).next_id == 1,
    {
        self.data.clear();
        self.next_id = 1;
    }

    /// All rows, in insertion order.
    pub fn get_all_data(&self) -> (r: &Vec<TableData>)
        ensures
            r@ == self.data@,
    {
        &self.data
    }

    /// The number of rows now held: the rows added since the last clear.
    pub fn get_record_count(&self) -> (r: usize)
        ensures
            r == self.data@.len(),
    {
        self.data.len()
    }
}

/// In a well-formed store, identifiers are unique: any two distinct rows
/// carry distinct identifiers.
pub proof fn lemma_ids_unique(s: &DataStore)
    requires
        s.wf(),
    ensures
        forall|i: int, j: int|
            0 <= i < s.data@.len() && 0 <= j < s.data@.len() && i != j ==> s.data@[i].id
                != s.data@[j].id,
{
    assert forall|i: int, j: int|
        0 <= i < s.data@.len() && 0 <= j < s.data@.len() && i != j implies s.data@[i].id
        != s.data@[j].id by {
        if i < j {
            assert(s.data@[i].id < s.data@[j].id);
        } else {
            assert(s.data@[j].id < s.data@[i].id);
        }
    }
}

/// The sample name for position `i` of a batch.
fn sample_name_at(i: usize) -> (r: &'static str)
    requires
        i < SAMPLE_BATCH,
    ensures
        r@ == sample_name(i as int),
{
    if i == 0 {
        "Alpha"
    } else if i == 1 {
        "Beta"
    } else if i == 2 {
        "Gamma"
    } else if i == 3 {
        "Delta"
    } else {
        "Epsilon"
    }
}

/// Relies on `fastrand::u64`: on a non-empty range it returns a value drawn
/// from that range, here `0..VALUE_BOUND`.
#[verifier::external_body]
fn random_value_hundredths() -> (r: u64)
    ensures
        r < VALUE_BOUND,
{
    fastrand::u64(0..VALUE_BOUND)
}

} // verus!
