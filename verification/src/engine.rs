//! Decisions of the engine loop. The loop itself (fetching state, placing
//! and cancelling orders, sleeping) runs outside; it hands each decision the
//! facts it measured and carries out what comes back.

use crate::state::{after_transition, CoinRecord, CoinStateMachine, State};
use vstd::prelude::*;

verus! {

/// Facts measured for one coin in one engine cycle.
pub struct CycleFacts {
    /// Withdrawable balance is at least the minimum reserve
    pub has_reserve: bool,
    /// Gross spread is above zero
    pub gross_spread_positive: bool,
    /// Risk assessment asks for IOC shedding
    pub should_shed: bool,
    /// Position is below the dust size
    pub flat: bool,
    /// Position ratio is at or above the passive-unwind watermark
    pub should_unwind: bool,
    /// Net spread is above round-trip cost plus the safety margin
    pub spread_ok: bool,
    /// Net spread is at or below round-trip cost plus the safety margin
    pub spread_collapsed: bool,
    /// Aggregate notional is over the portfolio limit
    pub portfolio_over_limit: bool,
    /// Position ratio is below the unwind exit threshold
    pub unwind_safe: bool,
    /// A position change missed by the fill stream was seen for the coin
    pub ws_drift: bool,
    /// The coin is in Cooldown and the cooldown length has passed since it
    /// entered that state
    pub cooldown_elapsed: bool,
    /// Favorable cycles needed to leave Waiting
    pub spread_stable_cycles: u32,
    /// Reason recorded when an Active coin's spread collapses
    pub thin_spread_reason: String,
    /// Reason recorded when a cooldown ends with the spread too thin
    pub cooldown_spread_reason: String,
    /// Reason recorded when a cooldown ends with the reserve depleted
    pub reserve_reason: String,
}

/// The record after entering Waiting with `reason`.
pub open spec fn waiting_record(r: CoinRecord, reason: Seq<char>) -> CoinRecord {
    CoinRecord {
        state: State::Waiting,
        waiting_reason: reason,
        favorable_cycles: 0,
        clock_restarts: r.clock_restarts + 1,
        ..r
    }
}

/// Reason recorded when an Active coin is stopped by the portfolio limit.
pub open spec fn portfolio_deteriorated_text() -> Seq<char> {
    "portfolio over limit (deteriorated)"@
}

/// Reason recorded when a cooldown ends over the portfolio limit.
pub open spec fn portfolio_text() -> Seq<char> {
    "portfolio over limit"@
}

/// Conditions under which a waiting or cooled-down coin may go Active.
pub open spec fn may_resume(f: CycleFacts) -> bool {
    f.spread_ok && !f.portfolio_over_limit && f.has_reserve
}

/// Active coin: a missed fill restarts it cold; shedding, a depleted
/// reserve with no position (cooldown), or reaching the passive-unwind
/// watermark (passive unwind) come next; otherwise a collapsed spread or the
/// portfolio limit sends a coin that is still Active to Waiting.
pub open spec fn active_step(r: CoinRecord, f: CycleFacts) -> CoinRecord {
    if f.ws_drift {
        after_transition(r, State::ColdStart)
    } else if f.should_shed {
        after_transition(r, State::Shedding)
    } else if !f.has_reserve {
        if f.flat {
            after_transition(r, State::Cooldown)
        } else {
            r
        }
    } else {
        let r1 = if f.should_unwind {
            after_transition(r, State::Unwind)
        } else {
            r
        };
        let r2 = if !f.should_unwind && f.spread_collapsed && r1.state == State::Active {
            waiting_record(r1, f.thin_spread_reason@)
        } else {
            r1
        };
        if !f.should_unwind && f.portfolio_over_limit && r2.state == State::Active {
            waiting_record(r2, portfolio_deteriorated_text())
        } else {
            r2
        }
    }
}

/// Cooldown that has run its course: back to Active when conditions allow,
/// else Waiting with the first failing reason.
pub open spec fn cooldown_step(r: CoinRecord, f: CycleFacts) -> CoinRecord {
    if may_resume(f) {
        after_transition(r, State::Active)
    } else {
        waiting_record(
            r,
            if f.spread_collapsed {
                f.cooldown_spread_reason@
            } else if f.portfolio_over_limit {
                portfolio_text()
            } else {
                f.reserve_reason@
            },
        )
    }
}

/// Waiting coin: favorable conditions count a cycle (only while the coin is
/// really Waiting) and go Active once enough cycles were counted;
/// unfavorable ones clear the count.
pub open spec fn waiting_step(r: CoinRecord, f: CycleFacts) -> CoinRecord {
    if may_resume(f) {
        if r.state == State::Waiting {
            let r1 = CoinRecord { favorable_cycles: (r.favorable_cycles + 1) as u32, ..r };
            if r.favorable_cycles + 1 >= f.spread_stable_cycles {
                after_transition(r1, State::Active)
            } else {
                r1
            }
        } else {
            r
        }
    } else {
        CoinRecord { favorable_cycles: 0, ..r }
    }
}

/// Record of a coin after the state step of one cycle, given the state it
/// was in when the cycle started (`current`). A coin still in Cooldown whose
/// cooldown has elapsed takes `cooldown_step`. Shedding is carried out by the
/// caller; GateBlocked holds.
pub open spec fn cycle_step(r: CoinRecord, current: State, f: CycleFacts) -> CoinRecord {
    match current {
        State::Idle => if f.has_reserve && f.gross_spread_positive {
            after_transition(r, State::ColdStart)
        } else {
            r
        },
        State::ColdStart => {
            let r1 = CoinRecord { cold_start_cycles: (r.cold_start_cycles + 1) as u32, ..r };
            if r.cold_start_cycles + 1 >= crate::state::cold_start_cycles_needed() {
                after_transition(r1, State::Active)
            } else {
                r1
            }
        },
        State::Active => active_step(r, f),
        State::Unwind => if f.unwind_safe {
            after_transition(CoinRecord { unwind_cooldown: 5, ..r }, State::Active)
        } else if f.should_shed {
            after_transition(r, State::Shedding)
        } else {
            r
        },
        State::Waiting => waiting_step(r, f),
        State::Cooldown => if f.cooldown_elapsed && r.state == State::Cooldown {
            cooldown_step(r, f)
        } else {
            r
        },
        _ => r,
    }
}

/// Apply the state step of one cycle to `coin`, which was in `current` at
/// the start of the cycle. Returns whether the coin's drift mark was used
/// (the caller then clears it).
pub fn cycle_transition(sm: &mut CoinStateMachine, coin: &str, current: State, f: &CycleFacts) -> (r:
    bool)
    requires
        old(sm).wf(),
        current == State::ColdStart ==> old(sm).rec_of(coin@).cold_start_cycles < u32::MAX,
        current == State::Waiting && may_resume(*f) && old(sm).rec_of(coin@).state == State::Waiting
            ==> old(sm).rec_of(coin@).favorable_cycles < u32::MAX,
    ensures
        final(sm).wf(),
        r == (current == State::Active && f.ws_drift),
        final(sm)@ == old(sm)@.insert(coin@, cycle_step(old(sm).rec_of(coin@), current, *f)),
{
    let ghost r0 = old(sm).rec_of(coin@);
    let _ = sm.state_of(coin);
    let ghost registered = sm@;
    assert(registered == old(sm)@.insert(coin@, r0));
    proof {
        reveal_strlit("portfolio over limit (deteriorated)");
        reveal_strlit("portfolio over limit");
    }
    match current {
        State::Idle => {
            if f.has_reserve && f.gross_spread_positive {
                sm.transition(coin, State::ColdStart);
            }
            false
        },
        State::ColdStart => {
            if sm.advance_cold_start(coin) {
                sm.transition(coin, State::Active);
            }
            false
        },
        State::Active => {
            if f.ws_drift {
                sm.transition(coin, State::ColdStart);
                true
            } else if f.should_shed {
                sm.transition(coin, State::Shedding);
                false
            } else if !f.has_reserve {
                if f.flat {
                    sm.transition(coin, State::Cooldown);
                }
                false
            } else {
                if f.should_unwind {
                    sm.transition(coin, State::Unwind);
                }
                if !f.should_unwind && f.spread_collapsed && sm.state_of(coin) == State::Active {
                    sm.enter_waiting(coin, f.thin_spread_reason.as_str());
                }
                if !f.should_unwind && f.portfolio_over_limit && sm.state_of(coin) == State::Active {
                    sm.enter_waiting(coin, "portfolio over limit (deteriorated)");
                }
                proof {
                    assert(sm@ =~= old(sm)@.insert(coin@, active_step(r0, *f)));
                }
                false
            }
        },
        State::Unwind => {
            if f.unwind_safe {
                sm.reset_unwind_cooldown(coin, 5);
                sm.transition(coin, State::Active);
            } else if f.should_shed {
                sm.transition(coin, State::Shedding);
            }
            false
        },
        State::Cooldown => {
            let st = sm.state_of(coin);
            if f.cooldown_elapsed && st == State::Cooldown {
                if f.spread_ok && !f.portfolio_over_limit && f.has_reserve {
                    sm.transition(coin, State::Active);
                } else if f.spread_collapsed {
                    sm.enter_waiting(coin, f.cooldown_spread_reason.as_str());
                } else if f.portfolio_over_limit {
                    sm.enter_waiting(coin, "portfolio over limit");
                } else {
                    sm.enter_waiting(coin, f.reserve_reason.as_str());
                }
            }
            false
        },
        State::Waiting => {
            if f.spread_ok && !f.portfolio_over_limit && f.has_reserve {
                if sm.tick_waiting(coin, f.spread_stable_cycles) {
                    sm.transition(coin, State::Active);
                }
            } else {
                sm.reset_favorable_cycles(coin);
            }
            false
        },
        _ => false,
    }
}

/// Sign and size of a coin's position, as far as the order decisions need
/// it (dust is a size of at most 0.001).
#[derive(Debug, Clone, Copy, PartialEq, Eq, Structural)]
pub enum PositionClass {
    /// Short by more than the dust size
    ShortBeyondDust,
    /// Short by at most the dust size
    ShortDust,
    /// No position
    Flat,
    /// Long by at most the dust size
    LongDust,
    /// Long by more than the dust size
    LongBeyondDust,
}

impl PositionClass {
    pub open spec fn is_long(self) -> bool {
        self == PositionClass::LongDust || self == PositionClass::LongBeyondDust
    }

    pub open spec fn is_short(self) -> bool {
        self == PositionClass::ShortDust || self == PositionClass::ShortBeyondDust
    }

    pub open spec fn beyond_dust(self) -> bool {
        self == PositionClass::LongBeyondDust || self == PositionClass::ShortBeyondDust
    }
}

/// Which order sides to work this cycle.
#[derive(Debug, Clone, Copy, PartialEq, Eq, Structural)]
pub struct SidePlan {
    /// Orders are placed at all this cycle
    pub place: bool,
    /// No buy order may be placed
    pub freeze_buy: bool,
    /// No sell order may be placed
    pub freeze_sell: bool,
    /// Only position-reducing orders are allowed (over a limit with a
    /// position beyond dust)
    pub reduce_only: bool,
}

/// Side plan: orders go out when the state allows it and the spread is
/// profitable, in passive unwind, or when over a limit with a position to
/// reduce. A long position freezes buying (and a short one selling) in
/// unwind, during the post-unwind cooldown, and — beyond dust — while the
/// portfolio is over its limit.
pub open spec fn spec_plan_sides(
    can_place: bool,
    spread_ok: bool,
    is_unwind: bool,
    portfolio_over_limit: bool,
    coin_over_exposed: bool,
    unwind_cooldown_left: u32,
    pos: PositionClass,
) -> SidePlan {
    let reduce_only = (portfolio_over_limit || coin_over_exposed) && pos.beyond_dust();
    SidePlan {
        place: (can_place && spread_ok) || is_unwind || reduce_only,
        freeze_buy: (is_unwind && pos.is_long()) || (unwind_cooldown_left > 0 && pos.is_long()) || (
        portfolio_over_limit && pos == PositionClass::LongBeyondDust),
        freeze_sell: (is_unwind && pos.is_short()) || (unwind_cooldown_left > 0 && pos.is_short())
            || (portfolio_over_limit && pos == PositionClass::ShortBeyondDust),
        reduce_only,
    }
}

/// Decide which sides to quote this cycle.
pub fn plan_sides(
    can_place: bool,
    spread_ok: bool,
    is_unwind: bool,
    portfolio_over_limit: bool,
    coin_over_exposed: bool,
    unwind_cooldown_left: u32,
    pos: PositionClass,
) -> (r: SidePlan)
    ensures
        r == spec_plan_sides(
            can_place,
            spread_ok,
            is_unwind,
            portfolio_over_limit,
            coin_over_exposed,
            unwind_cooldown_left,
            pos,
        ),
{
    let long = matches!(pos, PositionClass::LongDust | PositionClass::LongBeyondDust);
    let short = matches!(pos, PositionClass::ShortDust | PositionClass::ShortBeyondDust);
    let beyond = matches!(pos, PositionClass::LongBeyondDust | PositionClass::ShortBeyondDust);
    let reduce_only = (portfolio_over_limit || coin_over_exposed) && beyond;
    SidePlan {
        place: (can_place && spread_ok) || is_unwind || reduce_only,
        freeze_buy: (is_unwind && long) || (unwind_cooldown_left > 0 && long) || (portfolio_over_limit
            && matches!(pos, PositionClass::LongBeyondDust)),
        freeze_sell: (is_unwind && short) || (unwind_cooldown_left > 0 && short) || (
        portfolio_over_limit && matches!(pos, PositionClass::ShortBeyondDust)),
        reduce_only,
    }
}

/// Over the portfolio limit, a position beyond dust can only be reduced:
/// orders are placed, and only on the side that shrinks the position.
pub proof fn lemma_portfolio_limit_reduces_only(
    can_place: bool,
    spread_ok: bool,
    is_unwind: bool,
    coin_over_exposed: bool,
    unwind_cooldown_left: u32,
    pos: PositionClass,
)
    requires
        pos.beyond_dust(),
    ensures
        ({
            let r = spec_plan_sides(
                can_place,
                spread_ok,
                is_unwind,
                true,
                coin_over_exposed,
                unwind_cooldown_left,
                pos,
            );
            &&& r.place
            &&& r.reduce_only
            &&& pos.is_long() ==> r.freeze_buy && !r.freeze_sell
            &&& pos.is_short() ==> r.freeze_sell && !r.freeze_buy
        }),
{
}

/// Spread gate tiers, highest priority first.
#[derive(Debug, Clone, Copy, PartialEq, Eq, Structural)]
pub enum GateMode {
    /// The book is crossed
    Crossed,
    /// Gross spread below maker fee plus safety margin
    ThinSpread,
    /// One tick wide and fat in basis points
    Coarse,
    /// Wide enough for full-size quoting
    Tsunami,
    /// Tight: reduced size
    Sniper,
    /// Too narrow for any mode
    Blocked,
}

/// Gate tier from the book facts: crossed, then thin, then a coarse single
/// tick, then the tick thresholds.
pub open spec fn spec_select_gate(
    book_crossed: bool,
    spread_too_thin: bool,
    coarse_spread: bool,
    gross_ticks: u32,
    tsunami_ticks: u32,
    gate_block_ticks: u32,
) -> GateMode {
    if book_crossed {
        GateMode::Crossed
    } else if spread_too_thin {
        GateMode::ThinSpread
    } else if coarse_spread && gross_ticks == 1 {
        GateMode::Coarse
    } else if gross_ticks >= tsunami_ticks {
        GateMode::Tsunami
    } else if gross_ticks >= gate_block_ticks {
        GateMode::Sniper
    } else {
        GateMode::Blocked
    }
}

/// Gate tier of a coin from its book facts.
pub fn select_gate(
    book_crossed: bool,
    spread_too_thin: bool,
    coarse_spread: bool,
    gross_ticks: u32,
    tsunami_ticks: u32,
    gate_block_ticks: u32,
) -> (r: GateMode)
    ensures
        r == spec_select_gate(
            book_crossed,
            spread_too_thin,
            coarse_spread,
            gross_ticks,
            tsunami_ticks,
            gate_block_ticks,
        ),
{
    if book_crossed {
        GateMode::Crossed
    } else if spread_too_thin {
        GateMode::ThinSpread
    } else if coarse_spread && gross_ticks == 1 {
        GateMode::Coarse
    } else if gross_ticks >= tsunami_ticks {
        GateMode::Tsunami
    } else if gross_ticks >= gate_block_ticks {
        GateMode::Sniper
    } else {
        GateMode::Blocked
    }
}

impl GateMode {
    pub open spec fn spec_name(self) -> Seq<char> {
        match self {
            GateMode::Crossed => "CROSSED"@,
            GateMode::ThinSpread => "THIN_SPREAD"@,
            GateMode::Coarse => "COARSE"@,
            GateMode::Tsunami => "TSUNAMI"@,
            GateMode::Sniper => "SNIPER"@,
            GateMode::Blocked => "BLOCKED"@,
        }
    }

    /// Name recorded as the coin's gate mode.
    pub fn name(&self) -> (r: &'static str)
        ensures
            r@ == self.spec_name(),
    {
        match self {
            GateMode::Crossed => "CROSSED",
            GateMode::ThinSpread => "THIN_SPREAD",
            GateMode::Coarse => "COARSE",
            GateMode::Tsunami => "TSUNAMI",
            GateMode::Sniper => "SNIPER",
            GateMode::Blocked => "BLOCKED",
        }
    }
}

/// Next exchange nonce: the current time in milliseconds, or one more than
/// the previous nonce when the clock is behind it (saturating at the
/// largest value).
pub open spec fn spec_nonce_after(prev: u64, now_ms: u64) -> u64 {
    let bumped = if prev < u64::MAX {
        (prev + 1) as u64
    } else {
        prev
    };
    if now_ms >= bumped {
        now_ms
    } else {
        bumped
    }
}

/// Next exchange nonce after `prev` at time `now_ms`.
pub fn nonce_after(prev: u64, now_ms: u64) -> (r: u64)
    ensures
        r == spec_nonce_after(prev, now_ms),
{
    let bumped = prev.saturating_add(1);
    if now_ms >= bumped {
        now_ms
    } else {
        bumped
    }
}

/// Nonces never go backwards and never repeat, even when the clock is
/// moved back: the next nonce is at least the clock reading and, below the
/// largest value, above the previous nonce.
pub proof fn lemma_nonce_monotone(prev: u64, now_ms: u64)
    ensures
        spec_nonce_after(prev, now_ms) >= now_ms,
        spec_nonce_after(prev, now_ms) >= prev,
        prev < u64::MAX ==> spec_nonce_after(prev, now_ms) > prev,
{
}

/// Whether a newly placed order already shows up among the recent fills
/// (both the old and the new order filled in the place-before-cancel gap).
pub fn any_double_filled(new_oids: &Vec<u64>, recent_oids: &Vec<u64>) -> (r: bool)
    ensures
        r == exists|i: int, j: int|
            0 <= i < new_oids@.len() && 0 <= j < recent_oids@.len() && #[trigger] new_oids@[i]
                == #[trigger] recent_oids@[j],
{
    let mut i: usize = 0;
    while i < new_oids.len()
        invariant
            i <= new_oids@.len(),
            forall|a: int, b: int|
                0 <= a < i && 0 <= b < recent_oids@.len() ==> #[trigger] new_oids@[a]
                    != #[trigger] recent_oids@[b],
        decreases new_oids@.len() - i,
    {
        let mut j: usize = 0;
        while j < recent_oids.len()
            invariant
                i < new_oids@.len(),
                j <= recent_oids@.len(),
                forall|b: int| 0 <= b < j ==> new_oids@[i as int] != #[trigger] recent_oids@[b],
            decreases recent_oids@.len() - j,
        {
            if new_oids[i] == recent_oids[j] {
                return true;
            }
            j = j + 1;
        }
        i = i + 1;
    }
    false
}

/// Tracked orders (coin, order id) of `coin`, in order.
pub open spec fn orders_of(s: Seq<(String, u64)>, coin: Seq<char>) -> Seq<(String, u64)>
    decreases s.len(),
{
    if s.len() == 0 {
        Seq::empty()
    } else {
        (if s[0].0@ == coin {
            seq![s[0]]
        } else {
            Seq::empty()
        }) + orders_of(s.drop_first(), coin)
    }
}

/// Tracked orders of every other coin, in order.
pub open spec fn orders_not_of(s: Seq<(String, u64)>, coin: Seq<char>) -> Seq<(String, u64)>
    decreases s.len(),
{
    if s.len() == 0 {
        Seq::empty()
    } else {
        (if s[0].0@ != coin {
            seq![s[0]]
        } else {
            Seq::empty()
        }) + orders_not_of(s.drop_first(), coin)
    }
}

/// Take the tracked orders of `coin` out of `active` (to be cancelled);
/// the orders of other coins stay, in order.
pub fn take_orders_for(active: &mut Vec<(String, u64)>, coin: &str) -> (r: Vec<(String, u64)>)
    ensures
        r@ == orders_of(old(active)@, coin@),
        final(active)@ == orders_not_of(old(active)@, coin@),
{
    let mut pending: Vec<(String, u64)> = Vec::new();
    std::mem::swap(active, &mut pending);
    let ghost orig = pending@;
    let mut ours: Vec<(String, u64)> = Vec::new();
    assert(ours@ + orders_of(pending@, coin@) =~= orders_of(orig, coin@));
    assert(active@ + orders_not_of(pending@, coin@) =~= orders_not_of(orig, coin@));
    while pending.len() > 0
        invariant
            ours@ + orders_of(pending@, coin@) == orders_of(orig, coin@),
            active@ + orders_not_of(pending@, coin@) == orders_not_of(orig, coin@),
        decreases pending@.len(),
    {
        let ghost before = pending@;
        let e = pending.remove(0);
        assert(pending@ =~= before.drop_first());
        if crate::text::text_eq(e.0.as_str(), coin) {
            assert(ours@.push(e) + orders_of(pending@, coin@) =~= ours@ + orders_of(before, coin@));
            ours.push(e);
        } else {
            assert(active@.push(e) + orders_not_of(pending@, coin@) =~= active@ + orders_not_of(
                before,
                coin@,
            ));
            active.push(e);
        }
    }
    assert(ours@ =~= ours@ + orders_of(pending@, coin@));
    assert(active@ =~= active@ + orders_not_of(pending@, coin@));
    ours
}

/// Consecutive dry shedding rounds after which a GTC order is used as a
/// last resort.
pub open spec fn gtc_last_resort_rounds() -> u32 {
    3
}

/// End a shedding cycle: a round in which no IOC filled adds to the run of
/// dry rounds, and the third dry round in a row asks for the GTC last resort
/// and restarts the run; any fill restarts it too. The coin then cools down.
/// Returns whether the GTC last resort is due.
pub fn finish_shedding(sm: &mut CoinStateMachine, coin: &str, nothing_filled: bool) -> (gtc_due: bool)
    requires
        old(sm).wf(),
        nothing_filled ==> old(sm).rec_of(coin@).zero_shed_rounds < u32::MAX,
    ensures
        final(sm).wf(),
        ({
            let o = old(sm).rec_of(coin@);
            &&& gtc_due == (nothing_filled && o.zero_shed_rounds + 1 >= gtc_last_resort_rounds())
            &&& final(sm)@ == old(sm)@.insert(
                coin@,
                after_transition(
                    CoinRecord {
                        zero_shed_rounds: if nothing_filled && !gtc_due {
                            (o.zero_shed_rounds + 1) as u32
                        } else {
                            0
                        },
                        ..o
                    },
                    State::Cooldown,
                ),
            )
        }),
{
    let mut gtc_due = false;
    if nothing_filled {
        let rounds = sm.increment_zero_shed(coin);
        if rounds >= 3 {
            gtc_due = true;
            sm.reset_zero_shed(coin);
        }
    } else {
        sm.reset_zero_shed(coin);
    }
    sm.transition(coin, State::Cooldown);
    proof {
        let o = old(sm).rec_of(coin@);
        assert(sm@ =~= old(sm)@.insert(
            coin@,
            after_transition(
                CoinRecord {
                    zero_shed_rounds: if nothing_filled && !gtc_due {
                        (o.zero_shed_rounds + 1) as u32
                    } else {
                        0
                    },
                    ..o
                },
                State::Cooldown,
            ),
        ));
    }
    gtc_due
}

/// Base number of ticks a post-only quote retreats after `rejections`
/// consecutive "would match" rejections: none below three, one from three
/// on, two from six on.
pub open spec fn spec_rejection_ticks(rejections: u32) -> u32 {
    if rejections >= 6 {
        2
    } else if rejections >= 3 {
        1
    } else {
        0
    }
}

/// Base retreat, in ticks, after `rejections` consecutive post-only
/// rejections (the part of the quote shading that does not depend on skew).
pub fn rejection_retreat_ticks(rejections: u32) -> (r: u32)
    ensures
        r == spec_rejection_ticks(rejections),
{
    if rejections >= 6 {
        2
    } else if rejections >= 3 {
        1
    } else {
        0
    }
}

/// More rejections never retreat less, and the base retreat is at most two
/// ticks.
pub proof fn lemma_rejection_ticks_monotone(a: u32, b: u32)
    requires
        a <= b,
    ensures
        spec_rejection_ticks(a) <= spec_rejection_ticks(b),
        spec_rejection_ticks(b) <= 2,
{
}

/// Record after the spread gate of one cycle. A gate that blocks quoting
/// puts a coin that is not yet gate-blocked into GateBlocked with `reason`
/// (its orders are to be cancelled); a gate that allows quoting counts one
/// more favorable cycle for a gate-blocked coin and lifts the block (back to
/// Active) once `stable_cycles` such cycles were counted.
pub open spec fn gate_step(r: CoinRecord, blocking: bool, reason: Seq<char>, stable_cycles: u32) -> CoinRecord {
    if blocking {
        if r.state == State::GateBlocked {
            r
        } else {
            CoinRecord {
                state: State::GateBlocked,
                waiting_reason: reason,
                favorable_cycles: 0,
                clock_restarts: r.clock_restarts + 1,
                ..r
            }
        }
    } else if r.state == State::GateBlocked {
        let r1 = CoinRecord { favorable_cycles: (r.favorable_cycles + 1) as u32, ..r };
        if r.favorable_cycles + 1 >= stable_cycles {
            after_transition(r1, State::Active)
        } else {
            r1
        }
    } else {
        r
    }
}

/// Carry out the spread-gate decision for `coin`; `blocking` means that no
/// size is left to quote. Returns whether the coin has just become
/// gate-blocked, in which case the caller cancels its orders.
pub fn apply_gate(sm: &mut CoinStateMachine, coin: &str, blocking: bool, reason: &str, stable_cycles: u32) -> (newly_blocked: bool)
    requires
        old(sm).wf(),
        !blocking && old(sm).rec_of(coin@).state == State::GateBlocked ==> old(sm).rec_of(
            coin@,
        ).favorable_cycles < u32::MAX,
    ensures
        final(sm).wf(),
        newly_blocked == (blocking && old(sm).rec_of(coin@).state != State::GateBlocked),
        final(sm)@ == (if blocking || old(sm).rec_of(coin@).state == State::GateBlocked {
            old(sm)@.insert(
                coin@,
                gate_step(old(sm).rec_of(coin@), blocking, reason@, stable_cycles),
            )
        } else {
            old(sm)@
        }),
{
    let blocked = sm.is_gate_blocked(coin);
    if blocking {
        if !blocked {
            sm.enter_gate_blocked(coin, reason);
            true
        } else {
            proof {
                assert(old(sm)@.insert(coin@, old(sm).rec_of(coin@)) =~= old(sm)@);
            }
            false
        }
    } else {
        if blocked {
            let favorable = sm.note_favorable_cycle(coin);
            if favorable >= stable_cycles {
                sm.transition(coin, State::Active);
            }
        }
        false
    }
}

/// Record of a coin when the portfolio is over its limit: an Active coin
/// without a position cools down.
pub open spec fn park_step(r: CoinRecord, has_position: bool) -> CoinRecord {
    if r.state == State::Active && !has_position {
        after_transition(r, State::Cooldown)
    } else {
        r
    }
}

/// Over the portfolio limit, move `coin` to Cooldown when it is Active and
/// holds no position, so that no new position is opened. Returns whether
/// it was moved.
pub fn park_flat_coin(sm: &mut CoinStateMachine, coin: &str, has_position: bool) -> (parked: bool)
    requires
        old(sm).wf(),
    ensures
        final(sm).wf(),
        parked == (old(sm).rec_of(coin@).state == State::Active && !has_position),
        final(sm)@ == old(sm)@.insert(coin@, park_step(old(sm).rec_of(coin@), has_position)),
{
    if sm.state_of(coin) == State::Active && !has_position {
        sm.transition(coin, State::Cooldown);
        true
    } else {
        false
    }
}

/// Priorities of an Active coin's step: a missed fill always restarts the
/// coin cold; otherwise a shedding signal always moves it to Shedding,
/// whatever the reserve and the position; otherwise a depleted reserve with
/// no position cools it down, and with a position leaves it Active; and with
/// the reserve present, reaching the unwind watermark starts a passive
/// unwind.
pub proof fn lemma_active_step_priorities(r: CoinRecord, f: CycleFacts)
    requires
        r.state == State::Active,
    ensures
        f.ws_drift ==> cycle_step(r, State::Active, f).state == State::ColdStart,
        !f.ws_drift && f.should_shed ==> cycle_step(r, State::Active, f).state == State::Shedding,
        !f.ws_drift && !f.should_shed && !f.has_reserve && f.flat ==> cycle_step(
            r,
            State::Active,
            f,
        ).state == State::Cooldown,
        !f.ws_drift && !f.should_shed && !f.has_reserve && !f.flat ==> cycle_step(
            r,
            State::Active,
            f,
        ) == r,
        !f.ws_drift && !f.should_shed && f.has_reserve && f.should_unwind ==> cycle_step(
            r,
            State::Active,
            f,
        ).state == State::Unwind,
{
}

/// After a passive unwind, while the post-unwind cooldown runs, a long
/// position never buys and a short one never sells, whatever else holds.
pub proof fn lemma_post_unwind_cooldown_freezes(
    can_place: bool,
    spread_ok: bool,
    is_unwind: bool,
    portfolio_over_limit: bool,
    coin_over_exposed: bool,
    unwind_cooldown_left: u32,
    pos: PositionClass,
)
    requires
        unwind_cooldown_left > 0,
    ensures
        (pos == PositionClass::LongDust || pos == PositionClass::LongBeyondDust) ==> spec_plan_sides(
            can_place,
            spread_ok,
            is_unwind,
            portfolio_over_limit,
            coin_over_exposed,
            unwind_cooldown_left,
            pos,
        ).freeze_buy,
        (pos == PositionClass::ShortDust || pos == PositionClass::ShortBeyondDust) ==> spec_plan_sides(
            can_place,
            spread_ok,
            is_unwind,
            portfolio_over_limit,
            coin_over_exposed,
            unwind_cooldown_left,
            pos,
        ).freeze_sell,
{
}

/// A gate that blocks quoting blocks a coin in any state that is not yet
/// gate-blocked: the coin becomes GateBlocked with the given reason and its
/// favorable count starts over. A blocking gate leaves an already blocked
/// coin as it is.
pub proof fn lemma_blocking_gate_blocks(r: CoinRecord, reason: Seq<char>, stable_cycles: u32)
    ensures
        r.state != State::GateBlocked ==> ({
            let g = gate_step(r, true, reason, stable_cycles);
            &&& g.state == State::GateBlocked
            &&& g.waiting_reason == reason
            &&& g.favorable_cycles == 0
        }),
        r.state == State::GateBlocked ==> gate_step(r, true, reason, stable_cycles) == r,
{
}

} // verus!
