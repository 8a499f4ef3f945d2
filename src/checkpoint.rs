//! The durable checkpoint: the timestamp below which every notification has
//! been handled, stored as the record `{"timestamp":<decimal>}`.

use vstd::prelude::*;

verus! {

/// The shortest decimal text of `n`.
pub open spec fn decimal(n: nat) -> Seq<u8>
    decreases n,
{
    if n < 10 {
        seq![(48 + n) as u8]
    } else {
        decimal(n / 10).push((48 + n % 10) as u8)
    }
}

/// The decimal text of a signed number, with a leading `-` when negative.
pub open spec fn signed_decimal(t: int) -> Seq<u8> {
    if t < 0 {
        seq![45u8] + decimal((-t) as nat)
    } else {
        decimal(t as nat)
    }
}

/// The bytes `{"timestamp":` that open a checkpoint record.
pub open spec fn record_head() -> Seq<u8> {
    seq![123u8, 34, 116, 105, 109, 101, 115, 116, 97, 109, 112, 34, 58]
}

/// The stored form of checkpoint `t`.
pub open spec fn checkpoint_record(t: i64) -> Seq<u8> {
    record_head() + signed_decimal(t as int) + seq![125u8]
}

/// The timestamp of the last-read record that `b` encodes as JSON, if it
/// encodes one.
pub uninterp spec fn last_read_of(b: Seq<u8>) -> Option<i64>;

/// What the stored bytes `b` say: `Missing` when nothing is stored, the
/// timestamp of the record they encode, or `Malformed`.
pub open spec fn read_checkpoint(b: Seq<u8>) -> Result<i64, CheckpointError> {
    if b.len() == 0 {
        Err(CheckpointError::Missing)
    } else {
        match last_read_of(b) {
            Some(t) => Ok(t),
            None => Err(CheckpointError::Malformed),
        }
    }
}

/// Highest of `since` and of the timestamps in `ts`.
pub open spec fn high_water(since: i64, ts: Seq<i64>) -> i64
    decreases ts.len(),
{
    if ts.len() == 0 {
        since
    } else {
        let h = high_water(since, ts.drop_last());
        if ts.last() > h {
            ts.last()
        } else {
            h
        }
    }
}

/// The checkpoint that a tick leaves behind when it started at `since` and
/// saw the timestamps `ts`: one past the newest timestamp above `since`
/// (held at the largest `i64`), or `since` itself when none lies above it.
pub open spec fn checkpoint_after(since: i64, ts: Seq<i64>) -> i64 {
    let h = high_water(since, ts);
    if h > since {
        if h == i64::MAX {
            h
        } else {
            (h + 1) as i64
        }
    } else {
        since
    }
}

/// The checkpoint after one tick; `None` stands for a tick whose fetch failed.
pub open spec fn tick_checkpoint(since: i64, fetched: Option<Seq<i64>>) -> i64 {
    match fetched {
        Some(ts) => checkpoint_after(since, ts),
        None => since,
    }
}

/// The checkpoint after running the ticks `ticks` in order from `start`.
pub open spec fn run_ticks(start: i64, ticks: Seq<Option<Seq<i64>>>) -> i64
    decreases ticks.len(),
{
    if ticks.len() == 0 {
        start
    } else {
        tick_checkpoint(run_ticks(start, ticks.drop_last()), ticks.last())
    }
}

/// Why a stored checkpoint could not be read as a number.
#[derive(Debug, Clone, Copy, PartialEq, Eq, Structural)]
pub enum CheckpointError {
    /// Nothing is stored yet: the caller starts from zero.
    Missing,
    /// Bytes are stored, but they are not a checkpoint record.
    Malformed,
}

/// Appends the decimal text of `n` to `out`.
fn push_decimal(out: &mut Vec<u8>, n: u64)
    ensures
        final(out)@ == old(out)@ + decimal(n as nat),
    decreases n,
{
    if n >= 10 {
        push_decimal(out, n / 10);
    }
    out.push((48 + n % 10) as u8);
    assert(final(out)@ =~= old(out)@ + decimal(n as nat));
}

/// The record that stores checkpoint `t`.
pub fn encode_checkpoint(t: i64) -> (r: Vec<u8>)
    ensures
        r@ == checkpoint_record(t),
{
    let mut out: Vec<u8> = vec![123u8, 34, 116, 105, 109, 101, 115, 116, 97, 109, 112, 34, 58];
    let magnitude: u64 = if t < 0 {
        out.push(45u8);
        ((-(t + 1)) as u64) + 1
    } else {
        t as u64
    };
    push_decimal(&mut out, magnitude);
    out.push(125u8);
    assert(out@ =~= checkpoint_record(t));
    out
}

/// Relies on `serde_json::from_slice` into `pubky_app_specs::PubkyAppLastRead`
/// (a struct with one `i64` field `timestamp`, derived `Deserialize`): its
/// timestamp when the bytes decode as that record. The compact record
/// `{"timestamp":N}` that `encode_checkpoint` writes, with `N` a decimal `i64`,
/// decodes to `N`.
#[verifier::external_body]
fn parse_last_read(b: &Vec<u8>) -> (r: Option<i64>)
    ensures
        r == last_read_of(b@),
        forall|t: i64| b@ == checkpoint_record(t) ==> r == Some(t),
{
    serde_json::from_slice::<pubky_app_specs::PubkyAppLastRead>(b).ok().map(|l| l.timestamp)
}

/// Reads a stored checkpoint record.
///
/// An empty store reads as `Missing`, which the caller takes as zero; bytes
/// that do not decode as a last-read record are `Malformed`. What
/// `encode_checkpoint(t)` wrote reads back as `t`.
pub fn decode_checkpoint(b: &Vec<u8>) -> (r: Result<i64, CheckpointError>)
    ensures
        r == read_checkpoint(b@),
        forall|t: i64| b@ == checkpoint_record(t) ==> r == Ok::<i64, CheckpointError>(t),
{
    if b.len() == 0 {
        return Err(CheckpointError::Missing);
    }
    match parse_last_read(b) {
        Some(t) => Ok(t),
        None => Err(CheckpointError::Malformed),
    }
}

proof fn lemma_high_water_bounds(since: i64, ts: Seq<i64>)
    ensures
        high_water(since, ts) >= since,
        (forall|i: int| 0 <= i < ts.len() ==> ts[i] <= since) ==> high_water(since, ts) == since,
    decreases ts.len(),
{
    if ts.len() > 0 {
        lemma_high_water_bounds(since, ts.drop_last());
        if forall|i: int| 0 <= i < ts.len() ==> ts[i] <= since {
            assert forall|i: int| 0 <= i < ts.drop_last().len() implies ts.drop_last()[i] <= since by {
                assert(ts.drop_last()[i] == ts[i]);
            }
            assert(ts[ts.len() - 1] <= since);
        }
    }
}

/// A tick never moves the checkpoint back.
pub proof fn lemma_tick_never_decreases(since: i64, fetched: Option<Seq<i64>>)
    ensures
        tick_checkpoint(since, fetched) >= since,
{
    if let Some(ts) = fetched {
        lemma_high_water_bounds(since, ts);
    }
}

/// Over any run of ticks, failed ones included, the checkpoint after the
/// first `i` ticks is at most the checkpoint after the first `j >= i`.
pub proof fn lemma_checkpoint_monotone(start: i64, ticks: Seq<Option<Seq<i64>>>, i: int, j: int)
    requires
        0 <= i <= j <= ticks.len(),
    ensures
        run_ticks(start, ticks.take(i)) <= run_ticks(start, ticks.take(j)),
    decreases j - i,
{
    if i < j {
        lemma_checkpoint_monotone(start, ticks, i, j - 1);
        let p = ticks.take(j);
        assert(p.drop_last() =~= ticks.take(j - 1));
        lemma_tick_never_decreases(run_ticks(start, ticks.take(j - 1)), p.last());
    }
}

/// A tick that sees only timestamps at or below its checkpoint leaves the
/// checkpoint where it was.
pub proof fn lemma_stale_batch_keeps_checkpoint(since: i64, ts: Seq<i64>)
    requires
        forall|i: int| 0 <= i < ts.len() ==> ts[i] <= since,
    ensures
        checkpoint_after(since, ts) == since,
{
    lemma_high_water_bounds(since, ts);
}

} // verus!
