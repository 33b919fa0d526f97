//! The line framing of the durable intent-record file: one record per line,
//! each line bounded, a torn final line discarded rather than guessed at.

use vstd::prelude::*;

verus! {

/// Largest accepted intent record line, its newline included.
pub const MAX_INTENT_RECORD_BYTES: usize = 8192;

/// Largest number of retained intent records.
pub const MAX_LIFECYCLE_INTENTS: usize = 4096;

/// Why a scan of the intent-record file stopped.
#[derive(Clone, Copy, Debug, PartialEq, Eq, Structural)]
pub enum ScanStop {
    /// Every byte belongs to a complete line.
    End,
    /// The final line has no newline: a torn write, to be truncated at
    /// `committed`, the length of the complete lines before it.
    Torn { committed: usize },
    /// A line exceeds its bound.
    Oversized,
    /// More lines than the store retains.
    Capacity,
}

/// The complete lines of an intent-record file, in order, and why the scan
/// stopped after them.
#[derive(Debug)]
pub struct IntentScan {
    pub lines: Vec<Vec<u8>>,
    pub stop: ScanStop,
}

/// The end of the newline-terminated line starting at `pos`, or `limit` when
/// no newline comes before it.
pub open spec fn line_end(bytes: Seq<u8>, pos: int, limit: int) -> int
    decreases limit - pos,
{
    if pos >= limit {
        limit
    } else if bytes[pos] == 10u8 {
        pos + 1
    } else {
        line_end(bytes, pos + 1, limit)
    }
}

/// The end of the chunk read at `pos`: through the next newline, reading at
/// most one byte more than the bound.
pub open spec fn chunk_end(bytes: Seq<u8>, pos: int) -> int {
    let limit = if pos + MAX_INTENT_RECORD_BYTES + 1 < bytes.len() {
        pos + MAX_INTENT_RECORD_BYTES + 1
    } else {
        bytes.len() as int
    };
    line_end(bytes, pos, limit)
}

/// The lines read from `pos` on, `count` lines having been read before, and
/// why reading stopped.
pub open spec fn scan_from(bytes: Seq<u8>, pos: int, count: nat, max_records: nat) -> (
    Seq<Seq<u8>>,
    ScanStop,
)
    decreases bytes.len() - pos,
{
    if pos < 0 || pos >= bytes.len() {
        (Seq::empty(), ScanStop::End)
    } else {
        let e = chunk_end(bytes, pos);
        if e - pos > MAX_INTENT_RECORD_BYTES {
            (Seq::empty(), ScanStop::Oversized)
        } else if e <= pos || bytes[e - 1] != 10u8 {
            (Seq::empty(), ScanStop::Torn { committed: pos as usize })
        } else if count >= max_records {
            (Seq::empty(), ScanStop::Capacity)
        } else {
            proof {
                let limit = if pos + MAX_INTENT_RECORD_BYTES + 1 < bytes.len() {
                    pos + MAX_INTENT_RECORD_BYTES + 1
                } else {
                    bytes.len() as int
                };
                lemma_line_end_bounds(bytes, pos, limit);
            }
            let rest = scan_from(bytes, e, count + 1, max_records);
            (seq![bytes.subrange(pos, e)] + rest.0, rest.1)
        }
    }
}

/// A line ends between its start and its limit.
pub proof fn lemma_line_end_bounds(bytes: Seq<u8>, pos: int, limit: int)
    requires
        pos <= limit,
    ensures
        pos <= line_end(bytes, pos, limit) <= limit,
    decreases limit - pos,
{
    if pos < limit && bytes[pos] != 10u8 {
        lemma_line_end_bounds(bytes, pos + 1, limit);
    }
}

/// Splits an intent-record file into its complete lines; see [`scan_from`].
pub fn scan_intent_records(bytes: &[u8], max_records: usize) -> (r: IntentScan)
    ensures
        (r.lines@.map_values(|l: Vec<u8>| l@), r.stop) == scan_from(bytes@, 0, 0, max_records as nat),
{
    let ghost b = bytes@;
    let mut lines: Vec<Vec<u8>> = Vec::new();
    let mut pos: usize = 0;
    let mut count: usize = 0;
    while pos < bytes.len()
        invariant
            b == bytes@,
            pos <= bytes.len(),
            count == lines.len(),
            count <= max_records,
            ({
                let rest = scan_from(b, pos as int, count as nat, max_records as nat);
                scan_from(b, 0, 0, max_records as nat) == (
                    lines@.map_values(|l: Vec<u8>| l@) + rest.0,
                    rest.1,
                )
            }),
        decreases bytes.len() - pos,
    {
        let limit: usize = if bytes.len() - pos > MAX_INTENT_RECORD_BYTES + 1 {
            pos + MAX_INTENT_RECORD_BYTES + 1
        } else {
            bytes.len()
        };
        let mut e: usize = pos;
        proof {
            lemma_line_end_bounds(b, pos as int, limit as int);
        }
        while e < limit && bytes[e] != 10u8
            invariant
                b == bytes@,
                pos <= e <= limit <= bytes.len(),
                line_end(b, pos as int, limit as int) == line_end(b, e as int, limit as int),
            decreases limit - e,
        {
            e = e + 1;
        }
        if e < limit {
            e = e + 1;
        }
        assert(e as int == chunk_end(b, pos as int));
        if e - pos > MAX_INTENT_RECORD_BYTES {
            return IntentScan { lines, stop: ScanStop::Oversized };
        }
        if e <= pos || bytes[e - 1] != 10u8 {
            return IntentScan { lines, stop: ScanStop::Torn { committed: pos } };
        }
        if count >= max_records {
            return IntentScan { lines, stop: ScanStop::Capacity };
        }
        let mut line: Vec<u8> = Vec::new();
        let mut k: usize = pos;
        while k < e
            invariant
                b == bytes@,
                pos <= k <= e <= bytes.len(),
                line@ == b.subrange(pos as int, k as int),
            decreases e - k,
        {
            line.push(bytes[k]);
            assert(line@ =~= b.subrange(pos as int, k + 1));
            k = k + 1;
        }
        let ghost before = lines@.map_values(|l: Vec<u8>| l@);
        lines.push(line);
        proof {
            let rest = scan_from(b, e as int, (count + 1) as nat, max_records as nat);
            assert(lines@.map_values(|l: Vec<u8>| l@) =~= before.push(b.subrange(pos as int, e as int)));
            assert(before + (seq![b.subrange(pos as int, e as int)] + rest.0) =~= lines@.map_values(
                |l: Vec<u8>| l@,
            ) + rest.0);
        }
        pos = e;
        count = count + 1;
    }
    assert(lines@.map_values(|l: Vec<u8>| l@) + Seq::<Seq<u8>>::empty() =~= lines@.map_values(
        |l: Vec<u8>| l@,
    ));
    IntentScan { lines, stop: ScanStop::End }
}

} // verus!
