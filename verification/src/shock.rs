//! The rolling window of recent fills behind the market-shock signal: which
//! fills stay in the window, the order ids they carry, and when the window
//! counts as a toxic burst.

use vstd::prelude::*;

verus! {

/// One fill in the rolling window. `S` is the type of the fill's direction
/// sign, which the window only carries along.
#[derive(Debug, Clone, Copy)]
pub struct FillTick<S> {
    /// Fill time, milliseconds since the epoch
    pub time: u64,
    /// Direction sign of the fill
    pub sign: S,
    /// Order id of the filled order
    pub oid: u64,
}

/// Oldest fill time kept in a window of `window_ms` milliseconds ending at
/// `now_ms` (0 when the window reaches back past the epoch).
pub open spec fn window_cutoff(now_ms: u64, window_ms: u64) -> u64 {
    if now_ms >= window_ms {
        (now_ms - window_ms) as u64
    } else {
        0
    }
}

/// The fills of `s` at or after `cutoff`, in their order.
pub open spec fn ticks_since<S>(s: Seq<FillTick<S>>, cutoff: u64) -> Seq<FillTick<S>>
    decreases s.len(),
{
    if s.len() == 0 {
        Seq::empty()
    } else if s.last().time >= cutoff {
        ticks_since(s.drop_last(), cutoff).push(s.last())
    } else {
        ticks_since(s.drop_last(), cutoff)
    }
}

/// Order ids of the fills of `s`, in their order.
pub open spec fn tick_oids_of<S>(s: Seq<FillTick<S>>) -> Seq<u64> {
    Seq::new(s.len(), |i: int| s[i].oid)
}

/// Drop the fills that fell out of the window of `window_ms` milliseconds
/// ending at `now_ms`; the others stay, in their order.
pub fn retain_recent<S: Copy>(ticks: &mut Vec<FillTick<S>>, now_ms: u64, window_ms: u64)
    ensures
        final(ticks)@ == ticks_since(old(ticks)@, window_cutoff(now_ms, window_ms)),
{
    let cutoff = now_ms.saturating_sub(window_ms);
    let mut kept: Vec<FillTick<S>> = Vec::new();
    let mut i: usize = 0;
    while i < ticks.len()
        invariant
            i <= ticks@.len(),
            ticks@ == old(ticks)@,
            cutoff == window_cutoff(now_ms, window_ms),
            kept@ == ticks_since(ticks@.take(i as int), cutoff),
        decreases ticks@.len() - i,
    {
        let t = ticks[i];
        if t.time >= cutoff {
            kept.push(t);
        }
        proof {
            assert(ticks@.take(i + 1).drop_last() =~= ticks@.take(i as int));
        }
        i = i + 1;
    }
    proof {
        assert(ticks@.take(ticks@.len() as int) =~= ticks@);
    }
    *ticks = kept;
}

/// Order ids of the fills in the window, in their order.
pub fn tick_oids<S: Copy>(ticks: &Vec<FillTick<S>>) -> (r: Vec<u64>)
    ensures
        r@ == tick_oids_of(ticks@),
{
    let mut r: Vec<u64> = Vec::new();
    let mut i: usize = 0;
    while i < ticks.len()
        invariant
            i <= ticks@.len(),
            r@ == tick_oids_of(ticks@.take(i as int)),
        decreases ticks@.len() - i,
    {
        r.push(ticks[i].oid);
        proof {
            assert(tick_oids_of(ticks@.take(i + 1)) =~= tick_oids_of(ticks@.take(i as int)).push(
                ticks@[i as int].oid,
            ));
        }
        i = i + 1;
    }
    proof {
        assert(ticks@.take(ticks@.len() as int) =~= ticks@);
    }
    r
}

/// Fills in the window from which on the flow counts as a toxic burst.
pub open spec fn burst_fill_count() -> usize {
    3
}

/// Whether `recent_fills` fills in the window make a toxic burst (at least
/// three).
pub fn is_toxic_burst(recent_fills: usize) -> (r: bool)
    ensures
        r == (recent_fills >= burst_fill_count()),
{
    recent_fills >= 3
}

} // verus!
