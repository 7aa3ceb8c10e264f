//! Engine lifecycle, tracked independently for every coin.
//!
//! Each coin moves through Idle, ColdStart, Active (shown as NORMAL),
//! Unwind, Shedding, Cooldown, Waiting and GateBlocked. Operations on one
//! coin never touch the record of another coin.

use crate::clock::{duration_millis, instant_elapsed, instant_now};
use crate::proto::StateMachine;
use crate::textmap::{Entry, TextMap};
use std::time::Instant;
use vstd::prelude::*;

verus! {

/// Engine lifecycle state of one coin.
#[derive(Debug, Clone, Copy, PartialEq, Eq, Structural)]
pub enum State {
    /// Waiting for account balance / initial conditions
    Idle,
    /// Post-only quoting for the first cycles, no inventory gate
    ColdStart,
    /// Bilateral post-only quoting with skew
    Active,
    /// Passive unwind of a large position
    Unwind,
    /// Emergency IOC takedown
    Shedding,
    /// Pause after shedding or an error
    Cooldown,
    /// Conditions not met; rechecked each cycle
    Waiting,
    /// All orders cancelled until the spread widens
    GateBlocked,
}

impl Default for State {
    fn default() -> (r: State)
        ensures
            r == State::Idle,
    {
        State::Idle
    }
}

impl StateMachine for State {
    open spec fn spec_is_terminal(&self) -> bool {
        false
    }

    open spec fn spec_can_transition_to(&self, next: &Self) -> bool {
        match *self {
            State::Idle => *next == State::ColdStart,
            State::ColdStart => *next == State::Active || *next == State::Idle,
            State::Active => *next == State::Unwind || *next == State::Shedding,
            State::Unwind => *next == State::Active || *next == State::Shedding,
            State::Shedding => *next == State::Cooldown,
            State::Cooldown => *next == State::Active || *next == State::Unwind || *next
                == State::Shedding,
            State::Waiting => *next == State::Active,
            State::GateBlocked => *next == State::Active,
        }
    }

    open spec fn spec_state_name(&self) -> Seq<char> {
        match *self {
            State::Idle => "IDLE"@,
            State::ColdStart => "COLD_START"@,
            State::Active => "NORMAL"@,
            State::Unwind => "PASSIVE_UNWIND"@,
            State::Shedding => "EMERGENCY_IOC"@,
            State::Cooldown => "COOLDOWN"@,
            State::Waiting => "WAITING"@,
            State::GateBlocked => "GATE_BLOCKED"@,
        }
    }

    fn is_terminal(&self) -> (r: bool) {
        false
    }

    fn can_transition_to(&self, next: &Self) -> (r: bool) {
        match self {
            State::Idle => matches!(next, State::ColdStart),
            State::ColdStart => matches!(next, State::Active | State::Idle),
            State::Active => matches!(next, State::Unwind | State::Shedding),
            State::Unwind => matches!(next, State::Active | State::Shedding),
            State::Shedding => matches!(next, State::Cooldown),
            State::Cooldown => matches!(next, State::Active | State::Unwind | State::Shedding),
            State::Waiting => matches!(next, State::Active),
            State::GateBlocked => matches!(next, State::Active),
        }
    }

    fn state_name(&self) -> (r: &'static str) {
        match self {
            State::Idle => "IDLE",
            State::ColdStart => "COLD_START",
            State::Active => "NORMAL",
            State::Unwind => "PASSIVE_UNWIND",
            State::Shedding => "EMERGENCY_IOC",
            State::Cooldown => "COOLDOWN",
            State::Waiting => "WAITING",
            State::GateBlocked => "GATE_BLOCKED",
        }
    }
}

/// No engine state is terminal: from every state the table allows some
/// move, so the engine can always recycle.
pub proof fn lemma_engine_state_always_has_successor(s: State)
    ensures
        !s.spec_is_terminal(),
        exists|n: State| s.spec_can_transition_to(&n),
{
    let w = match s {
        State::Idle => State::ColdStart,
        State::Active => State::Unwind,
        State::Shedding => State::Cooldown,
        _ => State::Active,
    };
    assert(s.spec_can_transition_to(&w));
}

/// Everything the engine tracks for one coin apart from the time the coin
/// entered its current state.
pub struct CoinRecord {
    pub state: State,
    pub cold_start_cycles: u32,
    pub zero_shed_rounds: u32,
    pub ask_rejections: u32,
    pub buy_fills_tally: u32,
    pub sell_fills_tally: u32,
    pub consecutive_same_side_fills: u32,
    pub last_fill_side: Option<Seq<char>>,
    pub unwind_cooldown: u32,
    pub last_flip_cycle: u64,
    pub freeze_remaining: u32,
    pub freeze_direction: i8,
    pub gate_mode: Seq<char>,
    pub favorable_cycles: u32,
    pub waiting_reason: Seq<char>,
    /// How many times the state clock (the time the coin entered its current
    /// state) was restarted since the coin was created
    pub clock_restarts: nat,
}

/// The record of a coin that has just been created in state `s`.
pub open spec fn fresh_record(s: State) -> CoinRecord {
    CoinRecord {
        state: s,
        cold_start_cycles: 0,
        zero_shed_rounds: 0,
        ask_rejections: 0,
        buy_fills_tally: 0,
        sell_fills_tally: 0,
        consecutive_same_side_fills: 0,
        last_fill_side: None,
        unwind_cooldown: 0,
        last_flip_cycle: 0,
        freeze_remaining: 0,
        freeze_direction: 0,
        gate_mode: "BLOCKED"@,
        favorable_cycles: 0,
        waiting_reason: Seq::empty(),
        clock_restarts: 0,
    }
}

/// Per-coin state: each coin has its own lifecycle.
pub struct PerCoinState {
    pub state: State,
    /// Completed cold-start cycles
    pub cold_start_cycles: u32,
    /// When the coin entered its current state
    pub entered_at: Instant,
    /// Consecutive shedding rounds in which no IOC filled
    pub zero_shed_rounds: u32,
    /// Consecutive post-only sell rejections ("would match")
    pub ask_rejections: u32,
    /// Buy fills since the last side reset
    pub buy_fills_tally: u32,
    /// Sell fills since the last side reset
    pub sell_fills_tally: u32,
    /// Consecutive fills on the same side
    pub consecutive_same_side_fills: u32,
    /// Side of the last fill ("buy" or "sell")
    pub last_fill_side: Option<String>,
    /// Cycles left in the post-unwind cooldown
    pub unwind_cooldown: u32,
    /// Cycle of the last direction flip
    pub last_flip_cycle: u64,
    /// Cycles left in the directional freeze
    pub freeze_remaining: u32,
    /// Frozen direction: -1 short, 1 long, 0 none
    pub freeze_direction: i8,
    /// Gate tier mode ("TSUNAMI", "SNIPER", "BLOCKED", ...)
    pub gate_mode: String,
    /// Consecutive cycles with favorable conditions
    pub favorable_cycles: u32,
    /// Last reason for waiting or being gate-blocked
    pub waiting_reason: String,
    /// Restarts of the state clock `entered_at` since creation
    pub clock_restarts: Ghost<nat>,
}

/// View of an optional text value.
pub open spec fn opt_text(o: Option<String>) -> Option<Seq<char>> {
    match o {
        Some(s) => Some(s@),
        None => None,
    }
}

impl PerCoinState {
    /// The tracked fields of this coin.
    pub open spec fn record(&self) -> CoinRecord {
        CoinRecord {
            state: self.state,
            cold_start_cycles: self.cold_start_cycles,
            zero_shed_rounds: self.zero_shed_rounds,
            ask_rejections: self.ask_rejections,
            buy_fills_tally: self.buy_fills_tally,
            sell_fills_tally: self.sell_fills_tally,
            consecutive_same_side_fills: self.consecutive_same_side_fills,
            last_fill_side: opt_text(self.last_fill_side),
            unwind_cooldown: self.unwind_cooldown,
            last_flip_cycle: self.last_flip_cycle,
            freeze_remaining: self.freeze_remaining,
            freeze_direction: self.freeze_direction,
            gate_mode: self.gate_mode@,
            favorable_cycles: self.favorable_cycles,
            waiting_reason: self.waiting_reason@,
            clock_restarts: self.clock_restarts@,
        }
    }

    /// A new coin in the Idle state.
    pub fn new() -> (r: PerCoinState)
        ensures
            r.record() == fresh_record(State::Idle),
    {
        PerCoinState::new_with_state(State::Idle)
    }

    /// A new coin in a given state (used to recover existing positions).
    pub fn new_with_state(state: State) -> (r: PerCoinState)
        ensures
            r.record() == fresh_record(state),
    {
        let r = PerCoinState {
            gate_mode: "BLOCKED".to_owned(),
            state,
            cold_start_cycles: 0,
            entered_at: instant_now(),
            zero_shed_rounds: 0,
            ask_rejections: 0,
            unwind_cooldown: 0,
            buy_fills_tally: 0,
            sell_fills_tally: 0,
            consecutive_same_side_fills: 0,
            last_fill_side: None,
            last_flip_cycle: 0,
            freeze_remaining: 0,
            freeze_direction: 0,
            favorable_cycles: 0,
            waiting_reason: String::new(),
            clock_restarts: Ghost(0),
        };
        assert(r.record() =~= fresh_record(state));
        r
    }

    /// Milliseconds since the coin entered its current state.
    pub fn elapsed_ms(&self) -> u128 {
        duration_millis(&instant_elapsed(&self.entered_at))
    }
}

/// Applying a function to the values of a map commutes with insertion.
proof fn lemma_map_values_insert(m: Map<Seq<char>, PerCoinState>, k: Seq<char>, v: PerCoinState)
    ensures
        m.insert(k, v).map_values(|s: PerCoinState| s.record()) == m.map_values(
            |s: PerCoinState| s.record(),
        ).insert(k, v.record()),
{
    assert(m.insert(k, v).map_values(|s: PerCoinState| s.record()) =~= m.map_values(
        |s: PerCoinState| s.record(),
    ).insert(k, v.record()));
}

/// Per-coin state registry. Each coin manages its own lifecycle.
pub struct CoinStateMachine {
    coins: TextMap<PerCoinState>,
    /// Cold-start cycles before a coin may go Active
    cold_start_max: u32,
    /// Cooldown length in milliseconds
    cooldown_duration_ms: u64,
    /// The last reading of a coin's state clock, in milliseconds
    last_reading_ms: Ghost<u128>,
}

/// Cold-start cycles a coin runs before it may go Active.
pub open spec fn cold_start_cycles_needed() -> u32 {
    2
}

/// Cooldown length, in milliseconds.
pub open spec fn cooldown_length_ms() -> u64 {
    30_000
}

/// A coin in `st` that entered it `waited_ms` milliseconds ago has finished
/// a cooldown of `length_ms` milliseconds.
pub open spec fn cooldown_over(st: State, waited_ms: u128, length_ms: u64) -> bool {
    st == State::Cooldown && waited_ms >= length_ms
}

/// Whether a coin in `st` that entered it `waited_ms` milliseconds ago has
/// finished a cooldown of `length_ms` milliseconds: it is in Cooldown and
/// that much time has passed.
pub fn cooldown_finished(st: State, waited_ms: u128, length_ms: u64) -> (r: bool)
    ensures
        r == cooldown_over(st, waited_ms, length_ms),
{
    st == State::Cooldown && waited_ms >= length_ms as u128
}

/// A cooldown lasts thirty seconds: it is over exactly for a coin in
/// Cooldown whose state clock reads at least 30 000 milliseconds.
pub proof fn lemma_cooldown_lasts_thirty_seconds(st: State, waited_ms: u128)
    ensures
        cooldown_over(st, waited_ms, cooldown_length_ms()) == (st == State::Cooldown && waited_ms
            >= 30_000),
        st != State::Cooldown ==> !cooldown_over(st, waited_ms, cooldown_length_ms()),
{
}

/// Text recorded for the side of a fill.
pub open spec fn side_text(is_buy: bool) -> Seq<char> {
    if is_buy {
        seq!['b', 'u', 'y']
    } else {
        seq!['s', 'e', 'l', 'l']
    }
}

/// The record after a move to `next`: an actual change of state clears the
/// sell-rejection counter and both fill tallies.
pub open spec fn after_transition(r: CoinRecord, next: State) -> CoinRecord {
    if r.state != next {
        CoinRecord {
            state: next,
            ask_rejections: 0,
            buy_fills_tally: 0,
            sell_fills_tally: 0,
            clock_restarts: r.clock_restarts + 1,
            ..r
        }
    } else {
        r
    }
}

/// The record once the coin's gate becomes `mode`: a gate different from
/// the current one clears both fill tallies, the same gate leaves them.
pub open spec fn after_gate_mode(r: CoinRecord, mode: Seq<char>) -> CoinRecord {
    if r.gate_mode != mode {
        CoinRecord { gate_mode: mode, buy_fills_tally: 0, sell_fills_tally: 0, ..r }
    } else {
        r
    }
}

/// Recording the mode a coin already has changes nothing, so recording the
/// same mode twice is the same as recording it once; and after any
/// recording the coin's mode is the one recorded.
pub proof fn lemma_gate_mode_idempotent(r: CoinRecord, mode: Seq<char>)
    ensures
        after_gate_mode(r, r.gate_mode) == r,
        after_gate_mode(after_gate_mode(r, mode), mode) == after_gate_mode(r, mode),
        after_gate_mode(r, mode).gate_mode == mode,
{
}

/// Moving a coin to the state it is already in changes nothing, and moving
/// it twice to the same state is the same as moving it once.
pub proof fn lemma_transition_idempotent(r: CoinRecord, next: State)
    ensures
        after_transition(r, r.state) == r,
        after_transition(after_transition(r, next), next) == after_transition(r, next),
{
}

/// Coins are independent: an operation that rewrites the record of `coin`
/// leaves the record of every other coin exactly as it was.
pub proof fn lemma_other_coins_untouched(
    before: Map<Seq<char>, CoinRecord>,
    coin: Seq<char>,
    rec: CoinRecord,
    other: Seq<char>,
)
    requires
        other != coin,
    ensures
        before.insert(coin, rec).contains_key(other) == before.contains_key(other),
        before.contains_key(other) ==> before.insert(coin, rec)[other] == before[other],
{
}

/// States in which a coin may place orders.
pub open spec fn orderable(s: State) -> bool {
    s == State::ColdStart || s == State::Active || s == State::Shedding || s == State::Unwind
}

impl CoinStateMachine {
    /// Keys are distinct and the configuration is the fixed one.
    pub closed spec fn wf(&self) -> bool {
        &&& self.coins.wf()
        &&& self.cold_start_max == cold_start_cycles_needed()
        &&& self.cooldown_duration_ms == cooldown_length_ms()
    }

    /// Tracked record of every coin seen so far.
    pub closed spec fn view(&self) -> Map<Seq<char>, CoinRecord> {
        self.coins@.map_values(|s: PerCoinState| s.record())
    }

    /// The record an operation on `coin` starts from: the stored one, or a
    /// fresh Idle record for a coin never seen.
    pub open spec fn rec_of(&self, coin: Seq<char>) -> CoinRecord {
        if self@.contains_key(coin) {
            self@[coin]
        } else {
            fresh_record(State::Idle)
        }
    }

    /// A registry with no coins.
    pub fn new() -> (r: CoinStateMachine)
        ensures
            r.wf(),
            r@ == Map::<Seq<char>, CoinRecord>::empty(),
    {
        let r = CoinStateMachine {
            coins: TextMap::new(),
            cold_start_max: 2,
            cooldown_duration_ms: 30_000,
            last_reading_ms: Ghost(0),
        };
        assert(r@ =~= Map::<Seq<char>, CoinRecord>::empty());
        r
    }

    /// Position of the coin's entry, creating a fresh Idle entry if needed.
    fn slot(&mut self, coin: &str) -> (i: usize)
        requires
            old(self).wf(),
        ensures
            final(self).wf(),
            i < final(self).coins.entries().len(),
            final(self).coins.entries()[i as int].key@ == coin@,
            final(self).coins.entries()[i as int].value.record() == old(self).rec_of(coin@),
            final(self)@ == old(self)@.insert(coin@, old(self).rec_of(coin@)),
    {
        match self.coins.find(coin) {
            Some(i) => {
                proof {
                    self.coins.lemma_entry_in_view(i as int);
                    assert(self@ =~= old(self)@.insert(coin@, old(self).rec_of(coin@)));
                }
                i
            },
            None => {
                let ghost before = self.coins;
                let e = Entry { key: coin.to_owned(), value: PerCoinState::new() };
                let ghost ge = e;
                self.coins.entries.push(e);
                proof {
                    TextMap::lemma_push_view(&before, &self.coins, ge);
                    lemma_map_values_insert(before@, coin@, ge.value);
                }
                self.coins.entries.len() - 1
            },
        }
    }

    /// Stored state of a coin, if the coin was ever seen.
    pub fn record_of(&self, coin: &str) -> (r: Option<&PerCoinState>)
        requires
            self.wf(),
        ensures
            r is None <==> !self@.contains_key(coin@),
            r matches Some(s) ==> s.record() == self@[coin@],
    {
        self.coins.get(coin)
    }

    /// Force-inject a coin with a given state (bootstrap recovery). Any
    /// earlier record of the coin is replaced by a fresh one.
    pub fn init_coin(&mut self, coin: &str, state: State)
        requires
            old(self).wf(),
        ensures
            final(self).wf(),
            final(self)@ == old(self)@.insert(coin@, fresh_record(state)),
    {
        let v = PerCoinState::new_with_state(state);
        let ghost gv = v;
        let ghost before = self.coins;
        self.coins.insert(coin.to_owned(), v);
        proof {
            lemma_map_values_insert(before@, coin@, gv);
        }
    }

    /// Current state of a coin (Idle for a coin never seen, which is then
    /// recorded).
    pub fn state_of(&mut self, coin: &str) -> (r: State)
        requires
            old(self).wf(),
        ensures
            final(self).wf(),
            r == old(self).rec_of(coin@).state,
            final(self)@ == old(self)@.insert(coin@, old(self).rec_of(coin@)),
    {
        let i = self.slot(coin);
        self.coins.entries[i].value.state
    }

    /// Changing entry `i` of the coin list (and nothing else) changes the
    /// registry at that coin only.
    proof fn lemma_commit(before: TextMap<PerCoinState>, after: TextMap<PerCoinState>, i: int)
        requires
            before.wf(),
            0 <= i < before.entries().len(),
            after.entries().len() == before.entries().len(),
            after.entries()[i].key == before.entries()[i].key,
            forall|j: int| 0 <= j < before.entries().len() && j != i ==> after.entries()[j] == before.entries()[j],
        ensures
            after.wf(),
            after@.map_values(|s: PerCoinState| s.record()) == before@.map_values(
                |s: PerCoinState| s.record(),
            ).insert(before.entries()[i].key@, after.entries()[i].value.record()),
    {
        let v = after.entries()[i].value;
        assert(after.entries() =~= before.entries().update(
            i,
            Entry { key: before.entries()[i].key, value: v },
        ));
        TextMap::lemma_update_view(&before, &after, i, v);
        lemma_map_values_insert(before@, before.entries()[i].key@, v);
    }

    /// Move a coin to `next`. Only an actual change of state resets the
    /// sell-rejection counter and both fill tallies and restarts the
    /// state clock.
    pub fn transition(&mut self, coin: &str, next: State)
        requires
            old(self).wf(),
        ensures
            final(self).wf(),
            final(self)@ == old(self)@.insert(coin@, after_transition(old(self).rec_of(coin@), next)),
    {
        let i = self.slot(coin);
        let ghost before = self.coins;
        if self.coins.entries[i].value.state != next {
            self.coins.entries[i].value.ask_rejections = 0;
            self.coins.entries[i].value.buy_fills_tally = 0;
            self.coins.entries[i].value.sell_fills_tally = 0;
            self.coins.entries[i].value.state = next;
            self.coins.entries[i].value.entered_at = instant_now();
            self.coins.entries[i].value.clock_restarts = Ghost(self.coins.entries[i as int].value.clock_restarts@ + 1);
        }
        proof {
            CoinStateMachine::lemma_commit(before, self.coins, i as int);
            assert(self.coins.entries()[i as int].value.record() =~= after_transition(
                old(self).rec_of(coin@),
                next,
            ));
        }
    }

    /// The milliseconds that the last reading of a coin's state clock gave.
    pub closed spec fn last_elapsed_reading(&self) -> u128 {
        self.last_reading_ms@
    }

    /// Read the state clock of the coin at position `i` and remember the
    /// reading.
    fn read_clock(&mut self, i: usize) -> (w: u128)
        requires
            old(self).wf(),
            i < old(self).coins.entries().len(),
        ensures
            final(self).wf(),
            final(self).coins == old(self).coins,
            final(self)@ == old(self)@,
            final(self).last_elapsed_reading() == w,
    {
        let w = self.coins.entries[i].value.elapsed_ms();
        self.last_reading_ms = Ghost(w);
        w
    }

    /// Milliseconds since the coin entered its current state.
    pub fn elapsed_ms(&mut self, coin: &str) -> (r: u128)
        requires
            old(self).wf(),
        ensures
            final(self).wf(),
            final(self)@ == old(self)@.insert(coin@, old(self).rec_of(coin@)),
            r == final(self).last_elapsed_reading(),
    {
        let i = self.slot(coin);
        self.read_clock(i)
    }

    /// Whether the coin is in Cooldown and the cooldown length has passed
    /// since it entered that state.
    pub fn cooldown_done(&mut self, coin: &str) -> (r: bool)
        requires
            old(self).wf(),
        ensures
            final(self).wf(),
            final(self)@ == old(self)@.insert(coin@, old(self).rec_of(coin@)),
            r ==> old(self).rec_of(coin@).state == State::Cooldown,
            old(self).rec_of(coin@).state == State::Cooldown ==> r == (final(self).last_elapsed_reading()
                >= cooldown_length_ms()),
    {
        let i = self.slot(coin);
        let st = self.coins.entries[i].value.state;
        if st != State::Cooldown {
            return false;
        }
        let waited = self.read_clock(i);
        cooldown_finished(st, waited, self.cooldown_duration_ms)
    }

    /// Enter GateBlocked with a reason (orders are cancelled by the caller).
    pub fn enter_gate_blocked(&mut self, coin: &str, reason: &str)
        requires
            old(self).wf(),
        ensures
            final(self).wf(),
            final(self)@ == old(self)@.insert(
                coin@,
                CoinRecord {
                    state: State::GateBlocked,
                    waiting_reason: reason@,
                    favorable_cycles: 0,
                    clock_restarts: old(self).rec_of(coin@).clock_restarts + 1,
                    ..old(self).rec_of(coin@)
                },
            ),
    {
        let i = self.slot(coin);
        let ghost before = self.coins;
        self.coins.entries[i].value.state = State::GateBlocked;
        self.coins.entries[i].value.entered_at = instant_now();
        self.coins.entries[i].value.clock_restarts = Ghost(self.coins.entries[i as int].value.clock_restarts@ + 1);
        self.coins.entries[i].value.waiting_reason = reason.to_owned();
        self.coins.entries[i].value.favorable_cycles = 0;
        proof {
            CoinStateMachine::lemma_commit(before, self.coins, i as int);
        }
    }

    /// Whether the coin is currently gate-blocked (false for unseen coins).
    pub fn is_gate_blocked(&self, coin: &str) -> (r: bool)
        requires
            self.wf(),
        ensures
            r == (self@.contains_key(coin@) && self@[coin@].state == State::GateBlocked),
    {
        match self.coins.get(coin) {
            Some(cs) => cs.state == State::GateBlocked,
            None => false,
        }
    }

    /// Enter Waiting with a reason.
    pub fn enter_waiting(&mut self, coin: &str, reason: &str)
        requires
            old(self).wf(),
        ensures
            final(self).wf(),
            final(self)@ == old(self)@.insert(
                coin@,
                CoinRecord {
                    state: State::Waiting,
                    waiting_reason: reason@,
                    favorable_cycles: 0,
                    clock_restarts: old(self).rec_of(coin@).clock_restarts + 1,
                    ..old(self).rec_of(coin@)
                },
            ),
    {
        let i = self.slot(coin);
        let ghost before = self.coins;
        self.coins.entries[i].value.state = State::Waiting;
        self.coins.entries[i].value.entered_at = instant_now();
        self.coins.entries[i].value.clock_restarts = Ghost(self.coins.entries[i as int].value.clock_restarts@ + 1);
        self.coins.entries[i].value.waiting_reason = reason.to_owned();
        self.coins.entries[i].value.favorable_cycles = 0;
        proof {
            CoinStateMachine::lemma_commit(before, self.coins, i as int);
        }
    }

    /// In Waiting, count one more favorable cycle and report whether the
    /// count reached `threshold`; in any other state change nothing and
    /// report false.
    pub fn tick_waiting(&mut self, coin: &str, threshold: u32) -> (r: bool)
        requires
            old(self).wf(),
            old(self).rec_of(coin@).state == State::Waiting ==> old(self).rec_of(
                coin@,
            ).favorable_cycles < u32::MAX,
        ensures
            final(self).wf(),
            ({
                let o = old(self).rec_of(coin@);
                if o.state == State::Waiting {
                    &&& final(self)@ == old(self)@.insert(
                        coin@,
                        CoinRecord { favorable_cycles: (o.favorable_cycles + 1) as u32, ..o },
                    )
                    &&& r == (o.favorable_cycles + 1 >= threshold)
                } else {
                    &&& final(self)@ == old(self)@.insert(coin@, o)
                    &&& !r
                }
            }),
    {
        let i = self.slot(coin);
        let ghost before = self.coins;
        if self.coins.entries[i].value.state == State::Waiting {
            self.coins.entries[i].value.favorable_cycles = self.coins.entries[i].value.favorable_cycles + 1;
            let r = self.coins.entries[i].value.favorable_cycles >= threshold;
            proof {
                CoinStateMachine::lemma_commit(before, self.coins, i as int);
            }
            r
        } else {
            false
        }
    }

    /// Count one more favorable cycle for the coin, in any state, and
    /// return the new count (gate-lifting hysteresis).
    pub fn note_favorable_cycle(&mut self, coin: &str) -> (r: u32)
        requires
            old(self).wf(),
            old(self).rec_of(coin@).favorable_cycles < u32::MAX,
        ensures
            final(self).wf(),
            r == old(self).rec_of(coin@).favorable_cycles + 1,
            final(self)@ == old(self)@.insert(
                coin@,
                CoinRecord { favorable_cycles: r, ..old(self).rec_of(coin@) },
            ),
    {
        let i = self.slot(coin);
        let ghost before = self.coins;
        self.coins.entries[i].value.favorable_cycles = self.coins.entries[i].value.favorable_cycles + 1;
        proof {
            CoinStateMachine::lemma_commit(before, self.coins, i as int);
        }
        self.coins.entries[i].value.favorable_cycles
    }

    /// Clear the favorable-cycle count of the coin.
    pub fn reset_favorable_cycles(&mut self, coin: &str)
        requires
            old(self).wf(),
        ensures
            final(self).wf(),
            final(self)@ == old(self)@.insert(
                coin@,
                CoinRecord { favorable_cycles: 0, ..old(self).rec_of(coin@) },
            ),
    {
        let i = self.slot(coin);
        let ghost before = self.coins;
        self.coins.entries[i].value.favorable_cycles = 0;
        proof {
            CoinStateMachine::lemma_commit(before, self.coins, i as int);
        }
    }

    /// The coin's last waiting / gate-blocked reason.
    pub fn waiting_reason_for(&mut self, coin: &str) -> (r: String)
        requires
            old(self).wf(),
        ensures
            final(self).wf(),
            r@ == old(self).rec_of(coin@).waiting_reason,
            final(self)@ == old(self)@.insert(coin@, old(self).rec_of(coin@)),
    {
        let i = self.slot(coin);
        self.coins.entries[i].value.waiting_reason.clone()
    }

    /// The coin's gate mode.
    pub fn gate_mode_for(&mut self, coin: &str) -> (r: String)
        requires
            old(self).wf(),
        ensures
            final(self).wf(),
            r@ == old(self).rec_of(coin@).gate_mode,
            final(self)@ == old(self)@.insert(coin@, old(self).rec_of(coin@)),
    {
        let i = self.slot(coin);
        self.coins.entries[i].value.gate_mode.clone()
    }

    /// Set the coin's gate mode.
    pub fn set_gate_mode(&mut self, coin: &str, mode: &str)
        requires
            old(self).wf(),
        ensures
            final(self).wf(),
            final(self)@ == old(self)@.insert(
                coin@,
                CoinRecord { gate_mode: mode@, ..old(self).rec_of(coin@) },
            ),
    {
        let i = self.slot(coin);
        let ghost before = self.coins;
        self.coins.entries[i].value.gate_mode = mode.to_owned();
        proof {
            CoinStateMachine::lemma_commit(before, self.coins, i as int);
        }
    }

    /// Record this cycle's gate mode. A mode different from the coin's
    /// current one marks a new market regime: both fill tallies start over.
    /// Returns whether the mode changed.
    pub fn apply_gate_mode(&mut self, coin: &str, mode: &str) -> (changed: bool)
        requires
            old(self).wf(),
        ensures
            final(self).wf(),
            changed == (old(self).rec_of(coin@).gate_mode != mode@),
            final(self)@ == old(self)@.insert(
                coin@,
                after_gate_mode(old(self).rec_of(coin@), mode@),
            ),
    {
        let i = self.slot(coin);
        let changed = !crate::text::text_eq(self.coins.entries[i].value.gate_mode.as_str(), mode);
        let ghost before = self.coins;
        self.coins.entries[i].value.gate_mode = mode.to_owned();
        if changed {
            self.coins.entries[i].value.buy_fills_tally = 0;
            self.coins.entries[i].value.sell_fills_tally = 0;
        }
        proof {
            CoinStateMachine::lemma_commit(before, self.coins, i as int);
        }
        changed
    }

    /// Count one more cold-start cycle; true once the needed number of
    /// cycles is reached.
    pub fn advance_cold_start(&mut self, coin: &str) -> (r: bool)
        requires
            old(self).wf(),
            old(self).rec_of(coin@).cold_start_cycles < u32::MAX,
        ensures
            final(self).wf(),
            ({
                let o = old(self).rec_of(coin@);
                &&& final(self)@ == old(self)@.insert(
                    coin@,
                    CoinRecord { cold_start_cycles: (o.cold_start_cycles + 1) as u32, ..o },
                )
                &&& r == (o.cold_start_cycles + 1 >= cold_start_cycles_needed())
            }),
    {
        let i = self.slot(coin);
        let ghost before = self.coins;
        self.coins.entries[i].value.cold_start_cycles = self.coins.entries[i].value.cold_start_cycles + 1;
        proof {
            CoinStateMachine::lemma_commit(before, self.coins, i as int);
        }
        self.coins.entries[i].value.cold_start_cycles >= self.cold_start_max
    }

    /// Whether the coin's state allows placing orders (ColdStart, Active,
    /// Shedding or Unwind).
    pub fn can_place_orders(&mut self, coin: &str) -> (r: bool)
        requires
            old(self).wf(),
        ensures
            final(self).wf(),
            r == orderable(old(self).rec_of(coin@).state),
            final(self)@ == old(self)@.insert(coin@, old(self).rec_of(coin@)),
    {
        let s = self.state_of(coin);
        matches!(s, State::ColdStart | State::Active | State::Shedding | State::Unwind)
    }

    /// Whether the coin is in passive unwind.
    pub fn is_unwind(&mut self, coin: &str) -> (r: bool)
        requires
            old(self).wf(),
        ensures
            final(self).wf(),
            r == (old(self).rec_of(coin@).state == State::Unwind),
            final(self)@ == old(self)@.insert(coin@, old(self).rec_of(coin@)),
    {
        let s = self.state_of(coin);
        matches!(s, State::Unwind)
    }

    /// Whether the coin is shedding.
    pub fn is_shedding(&mut self, coin: &str) -> (r: bool)
        requires
            old(self).wf(),
        ensures
            final(self).wf(),
            r == (old(self).rec_of(coin@).state == State::Shedding),
            final(self)@ == old(self)@.insert(coin@, old(self).rec_of(coin@)),
    {
        let s = self.state_of(coin);
        matches!(s, State::Shedding)
    }

    /// Cycles left in the coin's post-unwind cooldown.
    pub fn unwind_cooldown_left(&mut self, coin: &str) -> (r: u32)
        requires
            old(self).wf(),
        ensures
            final(self).wf(),
            r == old(self).rec_of(coin@).unwind_cooldown,
            final(self)@ == old(self)@.insert(coin@, old(self).rec_of(coin@)),
    {
        let i = self.slot(coin);
        self.coins.entries[i].value.unwind_cooldown
    }

    /// One cycle off the post-unwind cooldown (stays at zero).
    pub fn tick_unwind_cooldown(&mut self, coin: &str)
        requires
            old(self).wf(),
        ensures
            final(self).wf(),
            ({
                let o = old(self).rec_of(coin@);
                final(self)@ == old(self)@.insert(
                    coin@,
                    CoinRecord {
                        unwind_cooldown: if o.unwind_cooldown > 0 {
                            (o.unwind_cooldown - 1) as u32
                        } else {
                            0
                        },
                        ..o
                    },
                )
            }),
    {
        let i = self.slot(coin);
        let ghost before = self.coins;
        if self.coins.entries[i].value.unwind_cooldown > 0 {
            self.coins.entries[i].value.unwind_cooldown = self.coins.entries[i].value.unwind_cooldown - 1;
        }
        proof {
            CoinStateMachine::lemma_commit(before, self.coins, i as int);
            assert(self.coins.entries()[i as int].value.record() =~= ({
                let o = old(self).rec_of(coin@);
                CoinRecord {
                    unwind_cooldown: if o.unwind_cooldown > 0 {
                        (o.unwind_cooldown - 1) as u32
                    } else {
                        0
                    },
                    ..o
                }
            }));
        }
    }

    /// Set the post-unwind cooldown to `cycles`.
    pub fn reset_unwind_cooldown(&mut self, coin: &str, cycles: u32)
        requires
            old(self).wf(),
        ensures
            final(self).wf(),
            final(self)@ == old(self)@.insert(
                coin@,
                CoinRecord { unwind_cooldown: cycles, ..old(self).rec_of(coin@) },
            ),
    {
        let i = self.slot(coin);
        let ghost before = self.coins;
        self.coins.entries[i].value.unwind_cooldown = cycles;
        proof {
            CoinStateMachine::lemma_commit(before, self.coins, i as int);
        }
    }

    /// One more shedding round without any IOC fill; returns the new count.
    pub fn increment_zero_shed(&mut self, coin: &str) -> (r: u32)
        requires
            old(self).wf(),
            old(self).rec_of(coin@).zero_shed_rounds < u32::MAX,
        ensures
            final(self).wf(),
            r == old(self).rec_of(coin@).zero_shed_rounds + 1,
            final(self)@ == old(self)@.insert(
                coin@,
                CoinRecord { zero_shed_rounds: r, ..old(self).rec_of(coin@) },
            ),
    {
        let i = self.slot(coin);
        let ghost before = self.coins;
        self.coins.entries[i].value.zero_shed_rounds = self.coins.entries[i].value.zero_shed_rounds + 1;
        proof {
            CoinStateMachine::lemma_commit(before, self.coins, i as int);
        }
        self.coins.entries[i].value.zero_shed_rounds
    }

    /// Clear the zero-fill shedding counter (any IOC fill resets it).
    pub fn reset_zero_shed(&mut self, coin: &str)
        requires
            old(self).wf(),
        ensures
            final(self).wf(),
            final(self)@ == old(self)@.insert(
                coin@,
                CoinRecord { zero_shed_rounds: 0, ..old(self).rec_of(coin@) },
            ),
    {
        let i = self.slot(coin);
        let ghost before = self.coins;
        self.coins.entries[i].value.zero_shed_rounds = 0;
        proof {
            CoinStateMachine::lemma_commit(before, self.coins, i as int);
        }
    }

    /// Current zero-fill shedding counter.
    pub fn zero_shed_rounds(&mut self, coin: &str) -> (r: u32)
        requires
            old(self).wf(),
        ensures
            final(self).wf(),
            r == old(self).rec_of(coin@).zero_shed_rounds,
            final(self)@ == old(self)@.insert(coin@, old(self).rec_of(coin@)),
    {
        let i = self.slot(coin);
        self.coins.entries[i].value.zero_shed_rounds
    }

    /// One more post-only sell rejected as "would match"; returns the new
    /// count.
    pub fn increment_ask_rejections(&mut self, coin: &str) -> (r: u32)
        requires
            old(self).wf(),
            old(self).rec_of(coin@).ask_rejections < u32::MAX,
        ensures
            final(self).wf(),
            r == old(self).rec_of(coin@).ask_rejections + 1,
            final(self)@ == old(self)@.insert(
                coin@,
                CoinRecord { ask_rejections: r, ..old(self).rec_of(coin@) },
            ),
    {
        let i = self.slot(coin);
        let ghost before = self.coins;
        self.coins.entries[i].value.ask_rejections = self.coins.entries[i].value.ask_rejections + 1;
        proof {
            CoinStateMachine::lemma_commit(before, self.coins, i as int);
        }
        self.coins.entries[i].value.ask_rejections
    }

    /// Clear the sell-rejection counter.
    pub fn reset_ask_rejections(&mut self, coin: &str)
        requires
            old(self).wf(),
        ensures
            final(self).wf(),
            final(self)@ == old(self)@.insert(
                coin@,
                CoinRecord { ask_rejections: 0, ..old(self).rec_of(coin@) },
            ),
    {
        let i = self.slot(coin);
        let ghost before = self.coins;
        self.coins.entries[i].value.ask_rejections = 0;
        proof {
            CoinStateMachine::lemma_commit(before, self.coins, i as int);
        }
    }

    /// Current sell-rejection counter.
    pub fn ask_rejection_count(&mut self, coin: &str) -> (r: u32)
        requires
            old(self).wf(),
        ensures
            final(self).wf(),
            r == old(self).rec_of(coin@).ask_rejections,
            final(self)@ == old(self)@.insert(coin@, old(self).rec_of(coin@)),
    {
        let i = self.slot(coin);
        self.coins.entries[i].value.ask_rejections
    }

    /// One more buy fill; returns the new buy tally.
    pub fn tally_buy_fill(&mut self, coin: &str) -> (r: u32)
        requires
            old(self).wf(),
            old(self).rec_of(coin@).buy_fills_tally < u32::MAX,
        ensures
            final(self).wf(),
            r == old(self).rec_of(coin@).buy_fills_tally + 1,
            final(self)@ == old(self)@.insert(
                coin@,
                CoinRecord { buy_fills_tally: r, ..old(self).rec_of(coin@) },
            ),
    {
        let i = self.slot(coin);
        let ghost before = self.coins;
        self.coins.entries[i].value.buy_fills_tally = self.coins.entries[i].value.buy_fills_tally + 1;
        proof {
            CoinStateMachine::lemma_commit(before, self.coins, i as int);
        }
        self.coins.entries[i].value.buy_fills_tally
    }

    /// One more sell fill; returns the new sell tally.
    pub fn tally_sell_fill(&mut self, coin: &str) -> (r: u32)
        requires
            old(self).wf(),
            old(self).rec_of(coin@).sell_fills_tally < u32::MAX,
        ensures
            final(self).wf(),
            r == old(self).rec_of(coin@).sell_fills_tally + 1,
            final(self)@ == old(self)@.insert(
                coin@,
                CoinRecord { sell_fills_tally: r, ..old(self).rec_of(coin@) },
            ),
    {
        let i = self.slot(coin);
        let ghost before = self.coins;
        self.coins.entries[i].value.sell_fills_tally = self.coins.entries[i].value.sell_fills_tally + 1;
        proof {
            CoinStateMachine::lemma_commit(before, self.coins, i as int);
        }
        self.coins.entries[i].value.sell_fills_tally
    }

    /// Clear both fill tallies.
    pub fn reset_fill_tallies(&mut self, coin: &str)
        requires
            old(self).wf(),
        ensures
            final(self).wf(),
            final(self)@ == old(self)@.insert(
                coin@,
                CoinRecord { buy_fills_tally: 0, sell_fills_tally: 0, ..old(self).rec_of(coin@) },
            ),
    {
        let i = self.slot(coin);
        let ghost before = self.coins;
        self.coins.entries[i].value.buy_fills_tally = 0;
        self.coins.entries[i].value.sell_fills_tally = 0;
        proof {
            CoinStateMachine::lemma_commit(before, self.coins, i as int);
        }
    }

    /// Whether the buy side has reached `max_fills` fills (false for unseen
    /// coins).
    pub fn buy_side_tapped_out(&self, coin: &str, max_fills: u32) -> (r: bool)
        requires
            self.wf(),
        ensures
            r == (self@.contains_key(coin@) && self@[coin@].buy_fills_tally >= max_fills),
    {
        match self.coins.get(coin) {
            Some(cs) => cs.buy_fills_tally >= max_fills,
            None => false,
        }
    }

    /// Whether the sell side has reached `max_fills` fills (false for unseen
    /// coins).
    pub fn sell_side_tapped_out(&self, coin: &str, max_fills: u32) -> (r: bool)
        requires
            self.wf(),
        ensures
            r == (self@.contains_key(coin@) && self@[coin@].sell_fills_tally >= max_fills),
    {
        match self.coins.get(coin) {
            Some(cs) => cs.sell_fills_tally >= max_fills,
            None => false,
        }
    }

    /// Lock `direction` for the next 50 cycles after a position flip.
    pub fn set_freeze(&mut self, coin: &str, direction: i8)
        requires
            old(self).wf(),
        ensures
            final(self).wf(),
            final(self)@ == old(self)@.insert(
                coin@,
                CoinRecord {
                    freeze_remaining: 50,
                    freeze_direction: direction,
                    last_flip_cycle: 0,
                    ..old(self).rec_of(coin@)
                },
            ),
    {
        let i = self.slot(coin);
        let ghost before = self.coins;
        self.coins.entries[i].value.freeze_remaining = 50;
        self.coins.entries[i].value.freeze_direction = direction;
        self.coins.entries[i].value.last_flip_cycle = 0;
        proof {
            CoinStateMachine::lemma_commit(before, self.coins, i as int);
        }
    }

    /// One cycle off the directional freeze (stays at zero).
    pub fn tick_freeze(&mut self, coin: &str)
        requires
            old(self).wf(),
        ensures
            final(self).wf(),
            ({
                let o = old(self).rec_of(coin@);
                final(self)@ == old(self)@.insert(
                    coin@,
                    CoinRecord {
                        freeze_remaining: if o.freeze_remaining > 0 {
                            (o.freeze_remaining - 1) as u32
                        } else {
                            0
                        },
                        ..o
                    },
                )
            }),
    {
        let i = self.slot(coin);
        let ghost before = self.coins;
        if self.coins.entries[i].value.freeze_remaining > 0 {
            self.coins.entries[i].value.freeze_remaining = self.coins.entries[i].value.freeze_remaining - 1;
        }
        proof {
            CoinStateMachine::lemma_commit(before, self.coins, i as int);
            assert(self.coins.entries()[i as int].value.record() =~= ({
                let o = old(self).rec_of(coin@);
                CoinRecord {
                    freeze_remaining: if o.freeze_remaining > 0 {
                        (o.freeze_remaining - 1) as u32
                    } else {
                        0
                    },
                    ..o
                }
            }));
        }
    }

    /// Whether a directional freeze is active (false for unseen coins).
    pub fn is_frozen(&self, coin: &str) -> (r: bool)
        requires
            self.wf(),
        ensures
            r == (self@.contains_key(coin@) && self@[coin@].freeze_remaining > 0),
    {
        match self.coins.get(coin) {
            Some(cs) => cs.freeze_remaining > 0,
            None => false,
        }
    }

    /// Frozen direction: -1 short, 1 long, 0 none (0 for unseen coins).
    pub fn freeze_direction_for(&self, coin: &str) -> (r: i8)
        requires
            self.wf(),
        ensures
            r == (if self@.contains_key(coin@) {
                self@[coin@].freeze_direction
            } else {
                0
            }),
    {
        match self.coins.get(coin) {
            Some(cs) => cs.freeze_direction,
            None => 0,
        }
    }

    /// Record the side of a fill: the run of same-side fills grows by one
    /// when the side repeats and restarts at one when it switches. Returns
    /// the new run length.
    pub fn record_fill_side(&mut self, coin: &str, is_buy: bool) -> (r: u32)
        requires
            old(self).wf(),
            old(self).rec_of(coin@).last_fill_side == Some(side_text(is_buy)) ==> old(self).rec_of(
                coin@,
            ).consecutive_same_side_fills < u32::MAX,
        ensures
            final(self).wf(),
            ({
                let o = old(self).rec_of(coin@);
                &&& r == (if o.last_fill_side == Some(side_text(is_buy)) {
                    (o.consecutive_same_side_fills + 1) as u32
                } else {
                    1u32
                })
                &&& final(self)@ == old(self)@.insert(
                    coin@,
                    CoinRecord {
                        consecutive_same_side_fills: r,
                        last_fill_side: Some(side_text(is_buy)),
                        ..o
                    },
                )
            }),
    {
        let i = self.slot(coin);
        let ghost before = self.coins;
        let this_side: &str = if is_buy {
            "buy"
        } else {
            "sell"
        };
        proof {
            reveal_strlit("buy");
            reveal_strlit("sell");
            assert("buy"@ =~= seq!['b', 'u', 'y']);
            assert("sell"@ =~= seq!['s', 'e', 'l', 'l']);
        }
        let same = match &self.coins.entries[i].value.last_fill_side {
            Some(last) => crate::text::text_eq(last.as_str(), this_side),
            None => false,
        };
        if same {
            self.coins.entries[i].value.consecutive_same_side_fills = self.coins.entries[i].value.consecutive_same_side_fills + 1;
        } else {
            self.coins.entries[i].value.consecutive_same_side_fills = 1;
        }
        self.coins.entries[i].value.last_fill_side = Some(this_side.to_owned());
        proof {
            CoinStateMachine::lemma_commit(before, self.coins, i as int);
            assert(self.coins.entries()[i as int].value.record() =~= ({
                let o = old(self).rec_of(coin@);
                CoinRecord {
                    consecutive_same_side_fills: self.coins.entries()[i as int].value.consecutive_same_side_fills,
                    last_fill_side: Some(side_text(is_buy)),
                    ..o
                }
            }));
        }
        self.coins.entries[i].value.consecutive_same_side_fills
    }

    /// The side blocked by fill momentum: the last fill side once the run of
    /// same-side fills reaches `threshold`, else none (none for unseen coins).
    pub fn toxicity_blocked_side(&self, coin: &str, threshold: u32) -> (r: Option<String>)
        requires
            self.wf(),
        ensures
            opt_text(r) == (if self@.contains_key(coin@) && self@[coin@].consecutive_same_side_fills
                >= threshold {
                self@[coin@].last_fill_side
            } else {
                None
            }),
    {
        match self.coins.get(coin) {
            Some(cs) => {
                if cs.consecutive_same_side_fills >= threshold {
                    match &cs.last_fill_side {
                        Some(s) => Some(s.clone()),
                        None => None,
                    }
                } else {
                    None
                }
            },
            None => None,
        }
    }

    /// Clear fill-momentum tracking.
    pub fn reset_toxicity(&mut self, coin: &str)
        requires
            old(self).wf(),
        ensures
            final(self).wf(),
            final(self)@ == old(self)@.insert(
                coin@,
                CoinRecord {
                    consecutive_same_side_fills: 0,
                    last_fill_side: None,
                    ..old(self).rec_of(coin@)
                },
            ),
    {
        let i = self.slot(coin);
        let ghost before = self.coins;
        self.coins.entries[i].value.consecutive_same_side_fills = 0;
        self.coins.entries[i].value.last_fill_side = None;
        proof {
            CoinStateMachine::lemma_commit(before, self.coins, i as int);
        }
    }
}

} // verus!
