//! Point-in-time lookup over the circular buffer of a feed's past values.
//!
//! The writer fills the rows at increasing indices and starts again at index
//! zero once the end is reached. The rows up to the write cursor are the current
//! lap; the rows behind it are what is left of the lap before. A row whose
//! timestamp is zero has never been written.

use core::cmp::Ordering;
use vstd::prelude::*;
use vstd::slice::slice_subrange;
use superslice::Ext;
use crate::decimal::SwitchboardDecimal;
use crate::error::SwitchboardError;
use crate::layout::{le_signed, le_value, read_i128_le, read_i64_le, read_u32_le};

verus! {

/// One past value of the feed and the time, in seconds, at which it was stored.
#[derive(Clone, Copy, Debug)]
pub struct AggregatorHistoryRow {
    pub timestamp: i64,
    pub value: SwitchboardDecimal,
}

impl AggregatorHistoryRow {
    /// Where this row's timestamp stands relative to `timestamp`.
    pub open spec fn order_against_spec(&self, timestamp: i64) -> Ordering {
        if self.timestamp < timestamp {
            Ordering::Less
        } else if self.timestamp == timestamp {
            Ordering::Equal
        } else {
            Ordering::Greater
        }
    }

    /// Compares this row's timestamp with `timestamp`.
    pub fn order_against(&self, timestamp: i64) -> (o: Ordering)
        ensures
            o == self.order_against_spec(timestamp),
    {
        if self.timestamp < timestamp {
            Ordering::Less
        } else if self.timestamp == timestamp {
            Ordering::Equal
        } else {
            Ordering::Greater
        }
    }
}

impl Default for AggregatorHistoryRow {
    fn default() -> (row: AggregatorHistoryRow)
        ensures
            row.timestamp == 0,
            row.value.mantissa == 0,
            row.value.scale == 0,
    {
        AggregatorHistoryRow { timestamp: 0, value: SwitchboardDecimal { mantissa: 0, scale: 0 } }
    }
}

/// The timestamps never decrease from one row to the next.
pub open spec fn timestamps_ascending(rows: Seq<AggregatorHistoryRow>) -> bool {
    forall|i: int, j: int| 0 <= i <= j < rows.len() ==> rows[i].timestamp <= rows[j].timestamp
}

/// `pos` parts the rows: those before it lie before `timestamp`, those from it
/// on do not.
pub open spec fn parts_at(rows: Seq<AggregatorHistoryRow>, timestamp: i64, pos: int) -> bool {
    &&& 0 <= pos <= rows.len()
    &&& forall|i: int| 0 <= i < pos ==> rows[i].timestamp < timestamp
    &&& forall|i: int| pos <= i < rows.len() ==> rows[i].timestamp >= timestamp
}

/// `parts_at` for a machine-sized position.
pub open spec fn parts_at_index(
    rows: Seq<AggregatorHistoryRow>,
    timestamp: i64,
    pos: usize,
) -> bool {
    parts_at(rows, timestamp, pos as int)
}

/// The index of the first row whose timestamp is not before `timestamp`; the
/// number of rows where there is none.
pub open spec fn lower_bound_pos(rows: Seq<AggregatorHistoryRow>, timestamp: i64) -> int
    decreases rows.len(),
{
    if rows.len() == 0 || rows[0].timestamp >= timestamp {
        0
    } else {
        1 + lower_bound_pos(rows.drop_first(), timestamp)
    }
}

/// The row that answers a query within one run of rows: the row at the lower
/// bound where its timestamp is the one asked for, else the row just before the
/// lower bound, else none.
pub open spec fn segment_lookup(
    rows: Seq<AggregatorHistoryRow>,
    timestamp: i64,
) -> Option<AggregatorHistoryRow> {
    let pos = lower_bound_pos(rows, timestamp);
    if pos < rows.len() && rows[pos].timestamp == timestamp {
        Some(rows[pos])
    } else if pos > 0 {
        Some(rows[pos - 1])
    } else {
        None
    }
}

/// The lower bound lies within the rows, everything before it is before
/// `timestamp`, and the row at it, if any, is not.
pub proof fn lemma_lower_bound_pos(rows: Seq<AggregatorHistoryRow>, timestamp: i64)
    ensures
        0 <= lower_bound_pos(rows, timestamp) <= rows.len(),
        forall|i: int|
            0 <= i < lower_bound_pos(rows, timestamp) ==> (#[trigger] rows[i]).timestamp
                < timestamp,
        lower_bound_pos(rows, timestamp) < rows.len() ==> rows[lower_bound_pos(
            rows,
            timestamp,
        )].timestamp >= timestamp,
    decreases rows.len(),
{
    if rows.len() == 0 || rows[0].timestamp >= timestamp {
    } else {
        let rest = rows.drop_first();
        lemma_lower_bound_pos(rest, timestamp);
        let p = lower_bound_pos(rest, timestamp);
        assert forall|i: int| 0 <= i < 1 + p implies (#[trigger] rows[i]).timestamp
            < timestamp by {
            if i > 0 {
                assert(rows[i] == rest[i - 1]);
            }
        }
        if 1 + p < rows.len() {
            assert(rows[1 + p] == rest[p]);
        }
    }
}

/// A position that parts the rows is the lower bound.
pub proof fn lemma_parts_at_is_lower_bound(
    rows: Seq<AggregatorHistoryRow>,
    timestamp: i64,
    pos: int,
)
    requires
        parts_at(rows, timestamp, pos),
    ensures
        lower_bound_pos(rows, timestamp) == pos,
    decreases rows.len(),
{
    if rows.len() == 0 {
    } else if rows[0].timestamp >= timestamp {
        if pos > 0 {
            assert(rows[0].timestamp < timestamp);
        }
    } else {
        if pos == 0 {
            assert(rows[0].timestamp >= timestamp);
        }
        let rest = rows.drop_first();
        assert forall|i: int| 0 <= i < pos - 1 implies rest[i].timestamp < timestamp by {
            assert(rest[i] == rows[i + 1]);
        }
        assert forall|i: int| pos - 1 <= i < rest.len() implies rest[i].timestamp
            >= timestamp by {
            assert(rest[i] == rows[i + 1]);
        }
        lemma_parts_at_is_lower_bound(rest, timestamp, pos - 1);
    }
}

/// Within one ascending run, the answer is the row with the greatest timestamp
/// not after the query, and there is no answer only if every row is after it.
pub proof fn lemma_segment_lookup_greatest(rows: Seq<AggregatorHistoryRow>, timestamp: i64)
    requires
        timestamps_ascending(rows),
    ensures
        match segment_lookup(rows, timestamp) {
            Some(row) => {
                &&& row.timestamp <= timestamp
                &&& exists|k: int| 0 <= k < rows.len() && rows[k] == row
                &&& forall|j: int|
                    0 <= j < rows.len() && (#[trigger] rows[j]).timestamp <= timestamp
                        ==> rows[j].timestamp <= row.timestamp
            },
            None => forall|j: int|
                0 <= j < rows.len() ==> (#[trigger] rows[j]).timestamp > timestamp,
        },
{
    lemma_lower_bound_pos(rows, timestamp);
    let pos = lower_bound_pos(rows, timestamp);
    if pos < rows.len() && rows[pos].timestamp == timestamp {
        assert(rows[pos] == rows[pos]);
    } else if pos > 0 {
        let row = rows[pos - 1];
        assert(rows[pos - 1] == row);
        assert forall|j: int|
            0 <= j < rows.len() && (#[trigger] rows[j]).timestamp <= timestamp implies rows[j].timestamp
            <= row.timestamp by {
            if j >= pos {
                assert(rows[pos].timestamp <= rows[j].timestamp);
            }
        }
    } else {
        assert forall|j: int| 0 <= j < rows.len() implies (#[trigger] rows[j]).timestamp
            > timestamp by {
            assert(rows[0].timestamp <= rows[j].timestamp);
        }
    }
}

/// Calls superslice's `Ext::lower_bound_by` on the rows, with a comparator that
/// orders each row's timestamp against `timestamp`. Trusted: the result never
/// exceeds the number of rows, and where the timestamps ascend it is the
/// position that parts the rows at `timestamp`.
#[verifier::external_body]
fn lower_bound_by_timestamp(rows: &[AggregatorHistoryRow], timestamp: i64) -> (pos: usize)
    ensures
        pos <= rows@.len(),
        timestamps_ascending(rows@) ==> parts_at_index(rows@, timestamp, pos),
{
    rows.lower_bound_by(|row| row.order_against(timestamp))
}

/// Answers a query within one run of rows.
fn lookup_in_segment(rows: &[AggregatorHistoryRow], timestamp: i64) -> (r: Option<
    AggregatorHistoryRow,
>)
    ensures
        timestamps_ascending(rows@) ==> r == segment_lookup(rows@, timestamp),
        r matches Some(row) ==> rows@.contains(row),
{
    let pos = lower_bound_by_timestamp(rows, timestamp);
    proof {
        if timestamps_ascending(rows@) {
            lemma_parts_at_is_lower_bound(rows@, timestamp, pos as int);
        }
    }
    if pos < rows.len() && rows[pos].timestamp == timestamp {
        Some(rows[pos])
    } else if pos > 0 {
        Some(rows[pos - 1])
    } else {
        None
    }
}

/// The tag that leads the bytes of a history account: the text `BUFFERxx`.
pub open spec fn history_discriminator() -> Seq<u8> {
    seq![66u8, 85u8, 70u8, 70u8, 69u8, 82u8, 120u8, 120u8]
}

/// The number of bytes before the first row: the tag and the write cursor.
pub const HISTORY_HEADER_LEN: usize = 12;

/// The number of bytes of one row: a timestamp of eight bytes, a mantissa of
/// sixteen and a scale of four.
pub const HISTORY_ROW_LEN: usize = 28;

/// The row that the account's bytes hold at index `k`.
pub open spec fn row_at(data: Seq<u8>, k: int) -> AggregatorHistoryRow {
    let base = 12 + 28 * k;
    AggregatorHistoryRow {
        timestamp: le_signed(data.subrange(base, base + 8)) as i64,
        value: SwitchboardDecimal {
            mantissa: le_signed(data.subrange(base + 8, base + 24)) as i128,
            scale: le_value(data.subrange(base + 24, base + 28)) as u32,
        },
    }
}

/// Whether the bytes start with the tag of a history account.
pub fn has_history_discriminator(data: &[u8]) -> (b: bool)
    requires
        data@.len() >= 8,
    ensures
        b == (data@.subrange(0, 8) == history_discriminator()),
{
    let b = data[0] == 66 && data[1] == 85 && data[2] == 70 && data[3] == 70 && data[4] == 69
        && data[5] == 82 && data[6] == 120 && data[7] == 120;
    proof {
        let head = data@.subrange(0, 8);
        let tag = history_discriminator();
        if b {
            assert(head =~= tag);
        } else {
            assert(head[0] == data@[0] && head[1] == data@[1] && head[2] == data@[2] && head[3]
                == data@[3] && head[4] == data@[4] && head[5] == data@[5] && head[6] == data@[6]
                && head[7] == data@[7]);
        }
    }
    b
}

/// Reads the row at index `k` out of the account's bytes.
fn read_row(data: &[u8], k: usize) -> (row: AggregatorHistoryRow)
    requires
        12 + 28 * (k + 1) <= data@.len(),
    ensures
        row == row_at(data@, k as int),
{
    let len = data.len();
    let base = HISTORY_HEADER_LEN + HISTORY_ROW_LEN * k;
    let timestamp = read_i64_le(data, base);
    let mantissa = read_i128_le(data, base + 8);
    let scale = read_u32_le(data, base + 24);
    AggregatorHistoryRow { timestamp, value: SwitchboardDecimal { mantissa, scale } }
}

/// A snapshot of the history: the rows and the index that was written last.
pub struct AggregatorHistoryBuffer {
    pub insertion_idx: usize,
    pub rows: Vec<AggregatorHistoryRow>,
}

impl AggregatorHistoryBuffer {
    /// There is at least one row, and the cursor points at one.
    pub open spec fn wf(&self) -> bool {
        0 <= self.insertion_idx < self.rows@.len()
    }

    /// The rows of the current lap: from index zero up to the cursor.
    pub open spec fn recent(&self) -> Seq<AggregatorHistoryRow> {
        self.rows@.subrange(0, self.insertion_idx + 1)
    }

    /// The rows left over from the lap before: those behind the cursor.
    pub open spec fn older(&self) -> Seq<AggregatorHistoryRow> {
        self.rows@.subrange(self.insertion_idx + 1, self.rows@.len() as int)
    }

    /// Whether anything has been written yet.
    pub open spec fn populated(&self) -> bool {
        self.rows@[self.insertion_idx as int].timestamp != 0
    }

    /// Whether the lap before has left rows behind the cursor.
    pub open spec fn older_populated(&self) -> bool {
        self.older().len() > 0 && self.older()[0].timestamp != 0
    }

    /// The timestamps of the current lap ascend, and so do those behind the
    /// cursor where a lap before has left rows there. Rows behind the cursor
    /// that were never written are not looked at, so nothing is asked of them.
    pub open spec fn runs_ascending(&self) -> bool {
        &&& timestamps_ascending(self.recent())
        &&& self.older_populated() ==> timestamps_ascending(self.older())
    }

    /// Where a lap before has left rows, each of them is older than every row
    /// of the current lap.
    pub open spec fn laps_in_order(&self) -> bool {
        self.older_populated() ==> forall|i: int, j: int|
            0 <= i < self.recent().len() && 0 <= j < self.older().len() ==> self.older()[j].timestamp
                < self.recent()[i].timestamp
    }

    /// Whether the row at index `i` holds retained history: the buffer has been
    /// written, and the row lies in the current lap or in what a lap before has
    /// left.
    pub open spec fn retained(&self, i: int) -> bool {
        &&& self.populated()
        &&& 0 <= i < self.rows@.len()
        &&& (i <= self.insertion_idx || self.older_populated())
    }

    /// Every retained row carries a real timestamp: one after zero.
    pub open spec fn retained_positive(&self) -> bool {
        forall|i: int| self.retained(i) ==> (#[trigger] self.rows@[i]).timestamp > 0
    }

    /// The answer to a query: none for a buffer never written; else what the
    /// current lap answers; else, where the lap before has left rows, what
    /// those answer.
    pub open spec fn lookup(&self, timestamp: i64) -> Option<AggregatorHistoryRow> {
        if !self.populated() {
            None
        } else if segment_lookup(self.recent(), timestamp).is_some() {
            segment_lookup(self.recent(), timestamp)
        } else if self.older_populated() {
            segment_lookup(self.older(), timestamp)
        } else {
            None
        }
    }

    /// Reads a history account: the tag `BUFFERxx`, the write cursor as four
    /// bytes, then the rows, 28 bytes each, every integer least significant byte
    /// first. Bytes that start with another tag give
    /// `AccountDiscriminatorMismatch`, whatever follows the tag; only behind the
    /// right tag are the cursor and whole rows asked for.
    pub fn new(data: &[u8]) -> (r: Result<AggregatorHistoryBuffer, SwitchboardError>)
        requires
            data@.len() >= 8,
            data@.subrange(0, 8) == history_discriminator() ==> data@.len() >= 12 && (data@.len()
                - 12) % 28 == 0,
        ensures
            r.is_ok() == (data@.subrange(0, 8) == history_discriminator()),
            r matches Err(e) ==> e == SwitchboardError::AccountDiscriminatorMismatch,
            r matches Ok(buffer) ==> {
                &&& buffer.insertion_idx == le_value(data@.subrange(8, 12))
                &&& buffer.rows@.len() == (data@.len() - 12) / 28
                &&& forall|k: int|
                    0 <= k < buffer.rows@.len() ==> buffer.rows@[k] == row_at(data@, k)
            },
    {
        if !has_history_discriminator(data) {
            return Err(SwitchboardError::AccountDiscriminatorMismatch);
        }
        let insertion_idx = read_u32_le(data, 8);
        let count = (data.len() - HISTORY_HEADER_LEN) / HISTORY_ROW_LEN;
        let mut rows: Vec<AggregatorHistoryRow> = Vec::new();
        let mut k: usize = 0;
        while k < count
            invariant
                0 <= k <= count,
                12 + 28 * count == data@.len(),
                rows@.len() == k,
                forall|j: int| 0 <= j < k ==> rows@[j] == row_at(data@, j),
            decreases count - k,
        {
            let row = read_row(data, k);
            rows.push(row);
            k = k + 1;
        }
        Ok(AggregatorHistoryBuffer { insertion_idx: insertion_idx as usize, rows })
    }

    /// Returns the row that was current at `timestamp`: the row with the
    /// greatest timestamp that is not after `timestamp`, or `None` where the
    /// query predates everything retained. The current lap is asked first, what
    /// is left of the lap before only where the current lap has no answer.
    pub fn lower_bound(&self, timestamp: i64) -> (r: Option<AggregatorHistoryRow>)
        requires
            self.wf(),
        ensures
            self.runs_ascending() ==> r == self.lookup(timestamp),
            !self.populated() ==> r.is_none(),
            r matches Some(row) ==> self.rows@.contains(row),
    {
        if self.rows[self.insertion_idx].timestamp == 0 {
            return None;
        }
        let all = self.rows.as_slice();
        let len = all.len();
        let recent = slice_subrange(all, 0, self.insertion_idx + 1);
        let found = lookup_in_segment(recent, timestamp);
        if found.is_some() {
            proof {
                let row = found.unwrap();
                let i = choose|i: int| 0 <= i < recent@.len() && recent@[i] == row;
                assert(self.rows@[i] == row);
            }
            return found;
        }
        if self.insertion_idx + 1 < len && self.rows[self.insertion_idx + 1].timestamp != 0 {
            let older = slice_subrange(all, self.insertion_idx + 1, len);
            let found = lookup_in_segment(older, timestamp);
            proof {
                assert(older@[0] == self.rows@[self.insertion_idx + 1]);
                if found.is_some() {
                    let row = found.unwrap();
                    let i = choose|i: int| 0 <= i < older@.len() && older@[i] == row;
                    assert(self.rows@[self.insertion_idx + 1 + i] == row);
                }
            }
            return found;
        }
        proof {
            if self.older().len() > 0 {
                assert(self.older()[0] == self.rows@[self.insertion_idx + 1]);
            }
        }
        None
    }
}

/// In a buffer whose runs ascend and whose older lap, if one is left, precedes
/// the current one, the answer to a query is the retained row with the greatest
/// timestamp not after the query; there is no answer exactly when every
/// retained row is after the query.
pub proof fn lemma_lookup_greatest_not_after(buffer: AggregatorHistoryBuffer, timestamp: i64)
    requires
        buffer.wf(),
        buffer.runs_ascending(),
        buffer.laps_in_order(),
    ensures
        match buffer.lookup(timestamp) {
            Some(row) => {
                &&& row.timestamp <= timestamp
                &&& exists|k: int| buffer.retained(k) && buffer.rows@[k] == row
                &&& forall|j: int|
                    buffer.retained(j) && (#[trigger] buffer.rows@[j]).timestamp <= timestamp
                        ==> buffer.rows@[j].timestamp <= row.timestamp
            },
            None => forall|j: int|
                buffer.retained(j) ==> (#[trigger] buffer.rows@[j]).timestamp > timestamp,
        },
{
    let rows = buffer.rows@;
    let recent = buffer.recent();
    let older = buffer.older();
    let idx = buffer.insertion_idx as int;
    lemma_segment_lookup_greatest(recent, timestamp);
    if buffer.older_populated() {
        lemma_segment_lookup_greatest(older, timestamp);
    }
    assert forall|j: int| 0 <= j <= idx implies rows[j] == recent[j] by {}
    assert forall|j: int| idx < j < rows.len() implies rows[j] == older[j - idx - 1] by {}
    if !buffer.populated() {
    } else if segment_lookup(recent, timestamp).is_some() {
        let row = segment_lookup(recent, timestamp).unwrap();
        let k = choose|k: int| 0 <= k < recent.len() && recent[k] == row;
        assert(buffer.retained(k) && rows[k] == row);
        assert forall|j: int|
            buffer.retained(j) && (#[trigger] rows[j]).timestamp <= timestamp implies rows[j].timestamp
            <= row.timestamp by {
            if j <= idx {
                assert(rows[j] == recent[j]);
            } else {
                assert(rows[j] == older[j - idx - 1]);
                assert(older[j - idx - 1].timestamp < recent[k].timestamp);
            }
        }
    } else if buffer.older_populated() {
        match segment_lookup(older, timestamp) {
            Some(row) => {
                let k = choose|k: int| 0 <= k < older.len() && older[k] == row;
                assert(buffer.retained(idx + 1 + k) && rows[idx + 1 + k] == row);
                assert forall|j: int|
                    buffer.retained(j) && (#[trigger] rows[j]).timestamp
                        <= timestamp implies rows[j].timestamp <= row.timestamp by {
                    if j <= idx {
                        assert(rows[j] == recent[j]);
                    } else {
                        assert(rows[j] == older[j - idx - 1]);
                    }
                }
            },
            None => {
                assert forall|j: int| buffer.retained(j) implies (#[trigger] rows[j]).timestamp
                    > timestamp by {
                    if j <= idx {
                        assert(rows[j] == recent[j]);
                    } else {
                        assert(rows[j] == older[j - idx - 1]);
                    }
                }
            },
        }
    } else {
        assert forall|j: int| buffer.retained(j) implies (#[trigger] rows[j]).timestamp
            > timestamp by {
            assert(rows[j] == recent[j]);
        }
    }
}

/// The row that answers a query is a retained row with a real timestamp that is
/// not after the query, never a row that was not written. It comes from behind
/// the cursor only where a lap before has left rows there and the whole current
/// lap is after the query.
pub proof fn lemma_lookup_row_is_retained(buffer: AggregatorHistoryBuffer, timestamp: i64)
    requires
        buffer.wf(),
        buffer.runs_ascending(),
        buffer.retained_positive(),
    ensures
        buffer.lookup(timestamp) matches Some(row) ==> {
            &&& 0 < row.timestamp <= timestamp
            &&& exists|k: int|
                {
                    &&& buffer.retained(k)
                    &&& buffer.rows@[k] == row
                    &&& k > buffer.insertion_idx ==> buffer.older_populated()
                        && buffer.rows@[0].timestamp > timestamp
                }
        },
{
    let rows = buffer.rows@;
    let recent = buffer.recent();
    let older = buffer.older();
    let idx = buffer.insertion_idx as int;
    lemma_segment_lookup_greatest(recent, timestamp);
    if !buffer.populated() {
    } else if segment_lookup(recent, timestamp).is_some() {
        let row = segment_lookup(recent, timestamp).unwrap();
        let k = choose|k: int| 0 <= k < recent.len() && recent[k] == row;
        assert(buffer.retained(k) && rows[k] == row);
    } else if buffer.older_populated() {
        lemma_segment_lookup_greatest(older, timestamp);
        assert(recent[0] == rows[0]);
        if segment_lookup(older, timestamp).is_some() {
            let row = segment_lookup(older, timestamp).unwrap();
            let k = choose|k: int| 0 <= k < older.len() && older[k] == row;
            assert(buffer.retained(idx + 1 + k) && rows[idx + 1 + k] == row);
        }
    }
}

/// A later query never finds an earlier row: where a query has an answer, every
/// later query has one too, and its row is not older.
pub proof fn lemma_lookup_monotonic(buffer: AggregatorHistoryBuffer, earlier: i64, later: i64)
    requires
        buffer.wf(),
        buffer.runs_ascending(),
        buffer.laps_in_order(),
        earlier <= later,
        buffer.lookup(earlier).is_some(),
    ensures
        buffer.lookup(later).is_some(),
        buffer.lookup(earlier).unwrap().timestamp <= buffer.lookup(later).unwrap().timestamp,
{
    lemma_lookup_greatest_not_after(buffer, earlier);
    lemma_lookup_greatest_not_after(buffer, later);
    let first = buffer.lookup(earlier).unwrap();
    let k = choose|k: int| buffer.retained(k) && buffer.rows@[k] == first;
    assert(buffer.rows@[k].timestamp <= later);
}

} // verus!
