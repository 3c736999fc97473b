//! The duty and delay schedules of the two effects, as mathematical
//! sequences.
//!
//! Each effect is a pure function of the controller's calibration and its
//! own parameters: it writes a fixed sequence of duty values and, after each
//! write (and once for the final hold), blocks for a fixed number of
//! milliseconds. The functions here state those sequences exactly; the
//! effect engine's contracts promise that its writes and delays match them.

use vstd::prelude::*;

use crate::arith::spec_sat_add;
use crate::arith::spec_sat_mul;

verus! {

/// Rising ramp `[lo, lo + 1, ..., hi - 1]`: length `hi - lo`, stopping one
/// short of `hi`.
pub open spec fn ramp_up(lo: u32, hi: u32) -> Seq<u32>
    recommends
        lo <= hi,
{
    Seq::new(if lo <= hi { (hi - lo) as nat } else { 0 }, |i: int| (lo + i) as u32)
}

/// Falling ramp `[hi, hi - 1, ..., lo + 1]`: length `hi - lo`, stopping one
/// short of `lo`.
pub open spec fn ramp_down(hi: u32, lo: u32) -> Seq<u32>
    recommends
        lo <= hi,
{
    Seq::new(if lo <= hi { (hi - lo) as nat } else { 0 }, |i: int| (hi - i) as u32)
}

/// Decay ramp `[hi, hi - 1, ..., lo]`: length `hi - lo + 1`, both ends
/// included.
pub open spec fn decay(hi: u32, lo: u32) -> Seq<u32>
    recommends
        lo <= hi,
{
    Seq::new(if lo <= hi { (hi - lo + 1) as nat } else { 0 }, |i: int| (hi - i) as u32)
}

/// The base time unit of the breathing effect: a sixth of the requested
/// duration, truncated.
pub open spec fn breath_period(duration_ms: u32) -> u32 {
    duration_ms / 6
}

/// The per-unit-of-duty delay of both breathing ramps: two periods spread
/// over the calibrated duty span, truncated.
pub open spec fn breath_step_delay(lo: u32, hi: u32, duration_ms: u32) -> u32
    recommends
        lo < hi,
{
    ((2 * breath_period(duration_ms)) / (hi - lo)) as u32
}

/// Every duty value the breathing effect writes: rise from `lo` to `hi - 1`,
/// fall from `hi` to `lo + 1`, then an absolute 0.
pub open spec fn breath_writes(lo: u32, hi: u32) -> Seq<u32>
    recommends
        lo < hi,
{
    ramp_up(lo, hi) + ramp_down(hi, lo) + seq![0u32]
}

/// Every delay the breathing effect requests: one step delay after each ramp
/// write, then a final hold of two periods.
pub open spec fn breath_delays(lo: u32, hi: u32, duration_ms: u32) -> Seq<u32>
    recommends
        lo < hi,
{
    let d = breath_step_delay(lo, hi, duration_ms);
    let span = if lo <= hi { (hi - lo) as nat } else { 0 };
    Seq::new(span, |i: int| d) + Seq::new(span, |i: int| d) + seq![
        (2 * breath_period(duration_ms)) as u32,
    ]
}

/// The base time unit of the heartbeat effect: a sixth of one beat interval
/// at `bpm` beats per minute, truncated.
pub open spec fn hb_period(bpm: u32) -> u32
    recommends
        bpm >= 1,
{
    ((60000int / (bpm as int)) / 6) as u32
}

/// The flash-on time of the heartbeat effect: a third of the base period,
/// truncated.
pub open spec fn hb_short(bpm: u32) -> u32
    recommends
        bpm >= 1,
{
    hb_period(bpm) / 3
}

/// The per-unit-of-duty delay of the heartbeat decay ramp: two periods
/// spread over the lower half of the calibrated duty span, truncated.
pub open spec fn hb_down_delay(lo: u32, mid: u32, bpm: u32) -> u32
    recommends
        lo < mid,
        bpm >= 1,
{
    ((2 * hb_period(bpm)) / (mid - lo)) as u32
}

/// The pause after beat `n` (counting from 1): a plain period inside a
/// group, a doubled period at the end of a group of one, and a doubled
/// period plus one period per group member at the end of a larger group.
/// The grouped product saturates at `u32::MAX`.
pub open spec fn pause(n: u32, grouped_as: u32, period: u32) -> u32
    recommends
        grouped_as >= 1,
        2 * period <= u32::MAX,
{
    if n % grouped_as != 0 {
        period
    } else if grouped_as == 1 {
        (2 * period) as u32
    } else {
        spec_sat_add((2 * period) as u32, spec_sat_mul(grouped_as, period))
    }
}

/// Every duty value one heartbeat beat writes: flash on at `hi`, flash off
/// at `lo`, settle at `mid`, then decay from `mid` down to `lo` inclusive.
pub open spec fn beat_writes(lo: u32, mid: u32, hi: u32) -> Seq<u32>
    recommends
        lo < mid,
{
    seq![hi, lo, mid] + decay(mid, lo)
}

/// Every delay beat `n` requests: the flash-on time, twice the flash-on
/// time, one decay delay after each decay write, then the inter-beat pause.
pub open spec fn beat_delays(n: u32, lo: u32, mid: u32, grouped_as: u32, bpm: u32) -> Seq<u32>
    recommends
        lo < mid,
        grouped_as >= 1,
        bpm >= 1,
{
    let s = hb_short(bpm);
    let d = hb_down_delay(lo, mid, bpm);
    seq![s, (2 * s) as u32] + Seq::new((mid - lo + 1) as nat, |i: int| d) + seq![
        pause(n, grouped_as, hb_period(bpm)),
    ]
}

/// Every duty value the heartbeat effect writes over `beats` beats, in
/// order, without the final absolute 0.
pub open spec fn heartbeat_writes(lo: u32, mid: u32, hi: u32, beats: u32) -> Seq<u32>
    recommends
        lo < mid,
    decreases beats,
{
    if beats == 0 {
        Seq::empty()
    } else {
        heartbeat_writes(lo, mid, hi, (beats - 1) as u32) + beat_writes(lo, mid, hi)
    }
}

/// Every delay the heartbeat effect requests over `beats` beats, in order.
pub open spec fn heartbeat_delays(
    lo: u32,
    mid: u32,
    grouped_as: u32,
    bpm: u32,
    beats: u32,
) -> Seq<u32>
    recommends
        lo < mid,
        grouped_as >= 1,
        bpm >= 1,
    decreases beats,
{
    if beats == 0 {
        Seq::empty()
    } else {
        heartbeat_delays(lo, mid, grouped_as, bpm, (beats - 1) as u32) + beat_delays(
            beats,
            lo,
            mid,
            grouped_as,
            bpm,
        )
    }
}

/// The `k`-th consecutive block of length `l` in `s` (blocks counted from
/// 0): the subrange from `k * l` to `(k + 1) * l`.
pub open spec fn block_at(s: Seq<u32>, k: int, l: int) -> Seq<u32> {
    s.subrange(k * l, k * l + l)
}

/// Law: the breathing duty schedule rises one unit at a time from the
/// calibrated minimum to the first value at the maximum, falls one unit at
/// a time back to the first value at the minimum's doorstep, and closes
/// with a single absolute 0. The rising portion has exactly `hi - lo`
/// writes.
pub proof fn lemma_breath_shape(lo: u32, hi: u32)
    requires
        lo < hi,
    ensures
        breath_writes(lo, hi).len() == 2 * (hi - lo) + 1,
        breath_writes(lo, hi)[0] == lo,
        forall|i: int| 0 <= i < hi - lo ==> breath_writes(lo, hi)[i] == lo + i,
        forall|i: int|
            hi - lo <= i < 2 * (hi - lo) ==> #[trigger] breath_writes(lo, hi)[i] == hi - (i - (hi
                - lo)),
        breath_writes(lo, hi)[hi - lo] == hi,
        breath_writes(lo, hi)[2 * (hi - lo)] == 0,
        forall|i: int, j: int|
            0 <= i <= j <= hi - lo ==> breath_writes(lo, hi)[i] <= breath_writes(lo, hi)[j],
        forall|i: int, j: int|
            hi - lo <= i <= j < 2 * (hi - lo) ==> breath_writes(lo, hi)[i] >= breath_writes(
                lo,
                hi,
            )[j],
{
    let s = breath_writes(lo, hi);
    let n = (hi - lo) as int;
    assert forall|i: int| 0 <= i < n implies s[i] == lo + i by {
        assert(s[i] == ramp_up(lo, hi)[i]);
    }
    assert forall|i: int| n <= i < 2 * n implies #[trigger] s[i] == hi - (i - n) by {
        assert(s[i] == ramp_down(hi, lo)[i - n]);
    }
    assert(s[n] == hi - 0);
}

/// Law: the heartbeat duty schedule for `beats` beats is exactly `beats`
/// occurrences of the flash-on/flash-off/settle/decay block, each beginning
/// with a write of the maximum and ending its decay with a write of the
/// minimum.
pub proof fn lemma_heartbeat_shape(lo: u32, mid: u32, hi: u32, beats: u32)
    requires
        lo < mid,
    ensures
        beat_writes(lo, mid, hi).len() == (mid - lo) + 4,
        beat_writes(lo, mid, hi)[0] == hi,
        beat_writes(lo, mid, hi).last() == lo,
        heartbeat_writes(lo, mid, hi, beats).len() == beats * ((mid - lo) + 4),
        forall|k: int|
            0 <= k < beats ==> #[trigger] block_at(
                heartbeat_writes(lo, mid, hi, beats),
                k,
                (mid - lo) + 4,
            ) == beat_writes(lo, mid, hi),
    decreases beats,
{
    let l = ((mid - lo) + 4) as int;
    let b = beat_writes(lo, mid, hi);
    assert(b.last() == decay(mid, lo)[(mid - lo) as int]);
    if beats == 0 {
    } else {
        lemma_heartbeat_shape(lo, mid, hi, (beats - 1) as u32);
        let prev = heartbeat_writes(lo, mid, hi, (beats - 1) as u32);
        let cur = heartbeat_writes(lo, mid, hi, beats);
        assert((beats - 1) * l + l == beats * l) by (nonlinear_arith);
        assert forall|k: int|
            0 <= k < beats implies #[trigger] block_at(cur, k, l) == beat_writes(lo, mid, hi) by {
            assert(0 <= k * l && k * l + l <= beats * l) by (nonlinear_arith)
                requires
                    0 <= k < beats,
                    l > 0,
            ;
            if k < beats - 1 {
                assert(k * l + l <= (beats - 1) * l) by (nonlinear_arith)
                    requires
                        k <= beats - 2,
                        l > 0,
                ;
                assert(block_at(cur, k, l) =~= block_at(prev, k, l));
            } else {
                assert(k * l == (beats - 1) * l);
                assert(block_at(cur, k, l) =~= b);
            }
        }
    }
}

/// Law: the heartbeat delay schedule for `beats` beats is exactly `beats`
/// blocks, the block of beat `n` closing with the pause that `n`'s position
/// in the grouping selects.
pub proof fn lemma_heartbeat_pauses(lo: u32, mid: u32, grouped_as: u32, bpm: u32, beats: u32)
    requires
        lo < mid,
        grouped_as >= 1,
        bpm >= 1,
    ensures
        forall|n: u32|
            1 <= n ==> beat_delays(n, lo, mid, grouped_as, bpm).last() == pause(
                n,
                grouped_as,
                hb_period(bpm),
            ),
        beat_delays(1u32, lo, mid, grouped_as, bpm).len() == (mid - lo) + 4,
        heartbeat_delays(lo, mid, grouped_as, bpm, beats).len() == beats * ((mid - lo) + 4),
        forall|k: int|
            0 <= k < beats ==> #[trigger] block_at(
                heartbeat_delays(lo, mid, grouped_as, bpm, beats),
                k,
                (mid - lo) + 4,
            ) == beat_delays((k + 1) as u32, lo, mid, grouped_as, bpm),
    decreases beats,
{
    let l = ((mid - lo) + 4) as int;
    assert forall|n: u32| 1 <= n implies beat_delays(n, lo, mid, grouped_as, bpm).last() == pause(
        n,
        grouped_as,
        hb_period(bpm),
    ) by {
        let bd = beat_delays(n, lo, mid, grouped_as, bpm);
        assert(bd.last() == seq![pause(n, grouped_as, hb_period(bpm))][0]);
    }
    if beats == 0 {
    } else {
        lemma_heartbeat_pauses(lo, mid, grouped_as, bpm, (beats - 1) as u32);
        let prev = heartbeat_delays(lo, mid, grouped_as, bpm, (beats - 1) as u32);
        let cur = heartbeat_delays(lo, mid, grouped_as, bpm, beats);
        assert((beats - 1) * l + l == beats * l) by (nonlinear_arith);
        assert forall|k: int|
            0 <= k < beats implies #[trigger] block_at(cur, k, l) == beat_delays(
            (k + 1) as u32,
            lo,
            mid,
            grouped_as,
            bpm,
        ) by {
            assert(0 <= k * l && k * l + l <= beats * l) by (nonlinear_arith)
                requires
                    0 <= k < beats,
                    l > 0,
            ;
            if k < beats - 1 {
                assert(k * l + l <= (beats - 1) * l) by (nonlinear_arith)
                    requires
                        k <= beats - 2,
                        l > 0,
                ;
                assert(block_at(cur, k, l) =~= block_at(prev, k, l));
            } else {
                assert(k * l == (beats - 1) * l);
                assert(block_at(cur, k, l) =~= beat_delays(beats, lo, mid, grouped_as, bpm));
            }
        }
    }
}

/// Law: with beats grouped in threes, the first two beats of each group
/// pause for one period and the third for five periods (two plus one per
/// group member), the pattern repeating every three beats.
pub proof fn lemma_pause_grouping_of_three(n: u32, period: u32)
    requires
        5 * period <= u32::MAX,
    ensures
        n % 3 != 0 ==> pause(n, 3, period) == period,
        n % 3 == 0 ==> pause(n, 3, period) == 5 * period,
{
}

} // verus!
