//! Toxic-flow sniper policy: evacuation levels, the evacuation pipeline
//! (the most severe signal wins), the probe/snipe phase machine and the
//! parsing of whale decisions.

use crate::proto::{ascii_upper, spec_to_uppercase, str_to_uppercase};
use crate::text::{chars_of, contains_text, seq_contains_seq, text_eq};
use crate::textmap::TextMap;
use vstd::prelude::*;

verus! {

/// Kind of toxic flow detected.
#[derive(Debug, Clone, Copy, PartialEq, Eq, Structural)]
pub enum ToxicEventKind {
    FillBurst,
    Spoof,
    QuoteStuffing,
    OIDivergence,
}

/// Escalating evacuation levels.
#[derive(Debug, Clone, Copy, PartialEq, Eq, Structural)]
pub enum EvacuationLevel {
    Monitor,
    Alert,
    Reduce,
    Hedge,
    FullEvac,
    Panic,
}

impl EvacuationLevel {
    /// Position of the level in the escalation order (Monitor = 0 ... Panic = 5).
    pub open spec fn spec_rank(self) -> u8 {
        match self {
            EvacuationLevel::Monitor => 0,
            EvacuationLevel::Alert => 1,
            EvacuationLevel::Reduce => 2,
            EvacuationLevel::Hedge => 3,
            EvacuationLevel::FullEvac => 4,
            EvacuationLevel::Panic => 5,
        }
    }

    /// Position of the level in the escalation order (Monitor = 0 ... Panic = 5).
    pub fn rank(&self) -> (r: u8)
        ensures
            r == self.spec_rank(),
    {
        match self {
            EvacuationLevel::Monitor => 0,
            EvacuationLevel::Alert => 1,
            EvacuationLevel::Reduce => 2,
            EvacuationLevel::Hedge => 3,
            EvacuationLevel::FullEvac => 4,
            EvacuationLevel::Panic => 5,
        }
    }
}

/// The more severe of two levels.
pub open spec fn max_level(a: EvacuationLevel, b: EvacuationLevel) -> EvacuationLevel {
    if a.spec_rank() >= b.spec_rank() {
        a
    } else {
        b
    }
}

/// Distinct levels have distinct ranks.
pub proof fn lemma_rank_injective(a: EvacuationLevel, b: EvacuationLevel)
    ensures
        (a.spec_rank() == b.spec_rank()) == (a == b),
{
}

/// Escalation does not depend on the order of signals: folding two
/// actions into a level in either order gives the same level, and the
/// result is never below any of them.
pub proof fn lemma_escalation_order_independent(l: EvacuationLevel, a: EvacuationLevel, b: EvacuationLevel)
    ensures
        max_level(max_level(l, a), b) == max_level(max_level(l, b), a),
        max_level(max_level(l, a), b).spec_rank() >= l.spec_rank(),
        max_level(max_level(l, a), b).spec_rank() >= a.spec_rank(),
        max_level(max_level(l, a), b).spec_rank() >= b.spec_rank(),
{
}

/// Evacuation level for a severity score (0-30 Monitor, 31-50 Alert,
/// 51-65 Reduce, 66-80 Hedge, 81-90 FullEvac, above Panic).
pub open spec fn spec_severity_to_evac_level(severity: u8) -> EvacuationLevel {
    if severity <= 30 {
        EvacuationLevel::Monitor
    } else if severity <= 50 {
        EvacuationLevel::Alert
    } else if severity <= 65 {
        EvacuationLevel::Reduce
    } else if severity <= 80 {
        EvacuationLevel::Hedge
    } else if severity <= 90 {
        EvacuationLevel::FullEvac
    } else {
        EvacuationLevel::Panic
    }
}

/// Evacuation level for a severity score.
pub fn severity_to_evac_level(severity: u8) -> (r: EvacuationLevel)
    ensures
        r == spec_severity_to_evac_level(severity),
{
    if severity <= 30 {
        EvacuationLevel::Monitor
    } else if severity <= 50 {
        EvacuationLevel::Alert
    } else if severity <= 65 {
        EvacuationLevel::Reduce
    } else if severity <= 80 {
        EvacuationLevel::Hedge
    } else if severity <= 90 {
        EvacuationLevel::FullEvac
    } else {
        EvacuationLevel::Panic
    }
}

/// A higher severity never maps to a lower evacuation level.
pub proof fn lemma_severity_level_monotone(a: u8, b: u8)
    requires
        a <= b,
    ensures
        spec_severity_to_evac_level(a).spec_rank() <= spec_severity_to_evac_level(b).spec_rank(),
{
}

/// Direction implied by a whale decision, read after upper-casing: any
/// `LONG` gives long; otherwise `SHORT` or `FORCE_QUIT` gives short.
pub open spec fn direction_of_upper(d: Seq<char>) -> Option<Seq<char>> {
    if seq_contains_seq(d, seq!['L', 'O', 'N', 'G']) {
        Some(seq!['L', 'O', 'N', 'G'])
    } else if seq_contains_seq(d, seq!['S', 'H', 'O', 'R', 'T']) || seq_contains_seq(
        d,
        seq!['F', 'O', 'R', 'C', 'E', '_', 'Q', 'U', 'I', 'T'],
    ) {
        Some(seq!['S', 'H', 'O', 'R', 'T'])
    } else {
        None
    }
}

/// View of an optional text value.
pub open spec fn opt_view(o: Option<String>) -> Option<Seq<char>> {
    match o {
        Some(s) => Some(s@),
        None => None,
    }
}

/// Parse the direction from a whale decision string
/// (`EXECUTE_STANDARD_LONG` is long, `FORCE_QUIT` is short, `HOLD` none).
pub fn parse_direction(decision: &str) -> (r: Option<String>)
    ensures
        opt_view(r) == direction_of_upper(spec_to_uppercase(decision@)),
        vstd::utf8::is_ascii_chars(decision@) ==> opt_view(r) == direction_of_upper(
            ascii_upper(decision@),
        ),
{
    let up = str_to_uppercase(decision);
    direction_from_upper(up.as_str())
}

/// Direction implied by an already upper-cased whale decision.
pub fn direction_from_upper(up: &str) -> (r: Option<String>)
    ensures
        opt_view(r) == direction_of_upper(up@),
{
    let d = chars_of(up);
    let long_text = chars_of("LONG");
    let short_text = chars_of("SHORT");
    let quit_text = chars_of("FORCE_QUIT");
    proof {
        reveal_strlit("LONG");
        reveal_strlit("SHORT");
        reveal_strlit("FORCE_QUIT");
        assert(long_text@ =~= seq!['L', 'O', 'N', 'G']);
        assert(short_text@ =~= seq!['S', 'H', 'O', 'R', 'T']);
        assert(quit_text@ =~= seq!['F', 'O', 'R', 'C', 'E', '_', 'Q', 'U', 'I', 'T']);
    }
    if contains_text(&d, &long_text) {
        Some("LONG".to_owned())
    } else if contains_text(&d, &short_text) || contains_text(&d, &quit_text) {
        Some("SHORT".to_owned())
    } else {
        None
    }
}

/// State published for the companion process.
#[derive(Debug, Clone)]
pub struct SniperState {
    pub active: bool,
    pub coin: Option<String>,
    pub direction: Option<String>,
    /// Idle | Probing | Sniping | Retreating
    pub phase: String,
    pub severity: u8,
    pub cooldown_until_ms: u64,
    pub updated_at: u64,
}

impl Default for SniperState {
    fn default() -> (r: SniperState)
        ensures
            !r.active,
            r.coin is None,
            r.direction is None,
            r.phase@ == seq!['I', 'd', 'l', 'e'],
            r.severity == 0,
            r.cooldown_until_ms == 0,
            r.updated_at == 0,
    {
        proof {
            reveal_strlit("Idle");
        }
        SniperState {
            active: false,
            coin: None,
            direction: None,
            phase: "Idle".to_owned(),
            severity: 0,
            cooldown_until_ms: 0,
            updated_at: 0,
        }
    }
}

/// A detected toxic-flow event. `W` is the type of the whale score, which
/// the policy here only carries along.
#[derive(Debug, Clone)]
pub struct ToxicFlowEvent<W> {
    pub kind: ToxicEventKind,
    pub coin: String,
    /// "BUY" | "SELL"
    pub attack_side: String,
    pub severity: u8,
    pub action: EvacuationLevel,
    pub whale_state: String,
    pub whale_score: W,
    pub direction_bias: Option<String>,
    pub ts_ms: u64,
}

/// Order-book pre-positioning state.
#[derive(Debug, Clone, Copy, PartialEq, Eq, Structural)]
pub enum FrontrunState {
    Idle,
    PrePositioning,
    Frontrunning,
    Filled,
}

/// Phase of the probe/snipe cycle.
#[derive(Debug, Clone, Copy, PartialEq, Eq, Structural)]
pub enum ProbePhase {
    Idle,
    Probing,
    Sniping,
    Retreating,
}

/// Action asked of the executor. `S` is the type of an order size.
#[derive(Debug, Clone)]
pub enum SniperAction<S> {
    Probe { coin: String, direction: String, sz: S, probe_ttl_ms: u64 },
    Snipe { coin: String, sz: S, max_hold_ms: u64 },
}

/// Lifetime of a probe order, in milliseconds.
pub open spec fn probe_ttl() -> u64 {
    100
}

/// Cooldown after a probe is rejected or a snipe completes, in milliseconds.
pub open spec fn retreat_cooldown() -> u64 {
    10_000
}

/// Probe/snipe phase machine. `S` is the type of an order size, which the
/// machine only hands out.
pub struct MicroSniper<S> {
    phase: ProbePhase,
    current_coin: Option<String>,
    probe_started_at: Option<u64>,
    cooldown_until: u64,
    probe_sz: S,
    snipe_sz: S,
}

impl<S: Copy> MicroSniper<S> {
    pub closed spec fn spec_phase(&self) -> ProbePhase {
        self.phase
    }

    pub closed spec fn spec_coin(&self) -> Option<Seq<char>> {
        opt_view(self.current_coin)
    }

    pub closed spec fn spec_started_at(&self) -> Option<u64> {
        self.probe_started_at
    }

    pub closed spec fn spec_cooldown_until(&self) -> u64 {
        self.cooldown_until
    }

    pub closed spec fn spec_probe_sz(&self) -> S {
        self.probe_sz
    }

    pub closed spec fn spec_snipe_sz(&self) -> S {
        self.snipe_sz
    }

    /// An idle sniper with the given probe and snipe sizes.
    pub fn new(probe_sz: S, snipe_sz: S) -> (r: Self)
        ensures
            r.spec_phase() == ProbePhase::Idle,
            r.spec_coin() is None,
            r.spec_started_at() is None,
            r.spec_cooldown_until() == 0,
            r.spec_probe_sz() == probe_sz,
            r.spec_snipe_sz() == snipe_sz,
    {
        MicroSniper {
            phase: ProbePhase::Idle,
            current_coin: None,
            probe_started_at: None,
            cooldown_until: 0,
            probe_sz,
            snipe_sz,
        }
    }

    /// React to a toxic-flow event: from Idle, or from Retreating once the
    /// cooldown is over, a severe event (severity 55 or more) attacking the
    /// BUY or SELL side starts a probe on the opposite side of that coin.
    pub fn on_toxic_flow<W>(&mut self, event: &ToxicFlowEvent<W>, now_ms: u64) -> (r: Option<SniperAction<S>>)
        ensures
            ({
                let ready = (old(self).spec_phase() == ProbePhase::Idle || (old(self).spec_phase()
                    == ProbePhase::Retreating && now_ms >= old(self).spec_cooldown_until()));
                let dir = if event.attack_side@ == seq!['S', 'E', 'L', 'L'] {
                    Some(seq!['B', 'U', 'Y'])
                } else if event.attack_side@ == seq!['B', 'U', 'Y'] {
                    Some(seq!['S', 'E', 'L', 'L'])
                } else {
                    None
                };
                if ready && event.severity >= 55 && dir is Some {
                    &&& r matches Some(SniperAction::Probe { coin, direction, sz, probe_ttl_ms }) && coin@
                        == event.coin@ && direction@ == dir->0 && sz == old(self).spec_probe_sz()
                        && probe_ttl_ms == probe_ttl()
                    &&& final(self).spec_phase() == ProbePhase::Probing
                    &&& final(self).spec_coin() == Some(event.coin@)
                    &&& final(self).spec_started_at() == Some(now_ms)
                    &&& final(self).spec_cooldown_until() == old(self).spec_cooldown_until()
                    &&& final(self).spec_probe_sz() == old(self).spec_probe_sz()
                    &&& final(self).spec_snipe_sz() == old(self).spec_snipe_sz()
                } else {
                    r is None && *final(self) == *old(self)
                }
            }),
    {
        proof {
            reveal_strlit("SELL");
            reveal_strlit("BUY");
            assert("SELL"@ =~= seq!['S', 'E', 'L', 'L']);
            assert("BUY"@ =~= seq!['B', 'U', 'Y']);
        }
        if self.phase != ProbePhase::Idle && self.phase != ProbePhase::Retreating {
            return None;
        }
        if self.phase == ProbePhase::Retreating && now_ms < self.cooldown_until {
            return None;
        }
        if event.severity < 55 {
            return None;
        }
        let direction: &str = if text_eq(event.attack_side.as_str(), "SELL") {
            "BUY"
        } else if text_eq(event.attack_side.as_str(), "BUY") {
            "SELL"
        } else {
            return None;
        };
        self.phase = ProbePhase::Probing;
        self.current_coin = Some(event.coin.clone());
        self.probe_started_at = Some(now_ms);
        Some(
            SniperAction::Probe {
                coin: event.coin.clone(),
                direction: direction.to_owned(),
                sz: self.probe_sz,
                probe_ttl_ms: 100,
            },
        )
    }

    /// A probe fill while probing moves to Sniping and asks for a snipe on
    /// the probed coin (empty coin name if none is recorded); otherwise
    /// nothing happens.
    pub fn on_probe_fill(&mut self, now_ms: u64) -> (r: Option<SniperAction<S>>)
        ensures
            old(self).spec_phase() == ProbePhase::Probing ==> ({
                &&& r matches Some(SniperAction::Snipe { coin, sz, max_hold_ms }) && coin@ == (
                match old(self).spec_coin() {
                    Some(c) => c,
                    None => Seq::<char>::empty(),
                }) && sz == old(self).spec_snipe_sz() && max_hold_ms == 2000
                &&& final(self).spec_phase() == ProbePhase::Sniping
                &&& final(self).spec_coin() == old(self).spec_coin()
                &&& final(self).spec_started_at() == old(self).spec_started_at()
                &&& final(self).spec_cooldown_until() == old(self).spec_cooldown_until()
                &&& final(self).spec_probe_sz() == old(self).spec_probe_sz()
                &&& final(self).spec_snipe_sz() == old(self).spec_snipe_sz()
            }),
            old(self).spec_phase() != ProbePhase::Probing ==> (r is None && *final(self) == *old(
                self,
            )),
    {
        if self.phase != ProbePhase::Probing {
            return None;
        }
        self.phase = ProbePhase::Sniping;
        let coin = match &self.current_coin {
            Some(c) => c.clone(),
            None => String::new(),
        };
        Some(SniperAction::Snipe { coin, sz: self.snipe_sz, max_hold_ms: 2000 })
    }

    /// A rejected or expired probe: retreat and cool down.
    pub fn on_probe_rejected(&mut self, now_ms: u64)
        requires
            now_ms <= u64::MAX - retreat_cooldown(),
        ensures
            final(self).spec_phase() == ProbePhase::Retreating,
            final(self).spec_cooldown_until() == now_ms + retreat_cooldown(),
            final(self).spec_coin() is None,
            final(self).spec_started_at() is None,
            final(self).spec_probe_sz() == old(self).spec_probe_sz(),
            final(self).spec_snipe_sz() == old(self).spec_snipe_sz(),
    {
        self.phase = ProbePhase::Retreating;
        self.cooldown_until = now_ms + 10_000;
        self.current_coin = None;
        self.probe_started_at = None;
    }

    /// A completed snipe: retreat and cool down.
    pub fn on_snipe_complete(&mut self, now_ms: u64)
        requires
            now_ms <= u64::MAX - retreat_cooldown(),
        ensures
            final(self).spec_phase() == ProbePhase::Retreating,
            final(self).spec_cooldown_until() == now_ms + retreat_cooldown(),
            final(self).spec_coin() is None,
            final(self).spec_started_at() is None,
            final(self).spec_probe_sz() == old(self).spec_probe_sz(),
            final(self).spec_snipe_sz() == old(self).spec_snipe_sz(),
    {
        self.phase = ProbePhase::Retreating;
        self.cooldown_until = now_ms + 10_000;
        self.current_coin = None;
        self.probe_started_at = None;
    }

    /// Current phase.
    pub fn phase(&self) -> (r: &ProbePhase)
        ensures
            *r == self.spec_phase(),
    {
        &self.phase
    }
}

/// Result of feeding an event to the evacuation pipeline.
#[derive(Debug, Clone)]
pub struct EvacuationResponse {
    pub coin: String,
    pub level: EvacuationLevel,
    pub cancel_all: bool,
    pub hedge_direction: Option<String>,
    pub cooldown_ms: u64,
}

/// Cooldown for an evacuation level: FullEvac 5 min, Panic 10 min, Hedge
/// 2 min, otherwise 1 min (milliseconds).
pub open spec fn evac_cooldown_ms(level: EvacuationLevel) -> u64 {
    match level {
        EvacuationLevel::FullEvac => 300_000,
        EvacuationLevel::Panic => 600_000,
        EvacuationLevel::Hedge => 120_000,
        _ => 60_000,
    }
}

/// Hedge direction for a level and an attacked side: only Hedge and
/// FullEvac hedge, on the side opposite to the attack.
pub open spec fn evac_hedge(level: EvacuationLevel, attack_side: Seq<char>) -> Option<Seq<char>> {
    if level == EvacuationLevel::Hedge || level == EvacuationLevel::FullEvac {
        if attack_side == seq!['B', 'U', 'Y'] {
            Some(seq!['S', 'E', 'L', 'L'])
        } else if attack_side == seq!['S', 'E', 'L', 'L'] {
            Some(seq!['B', 'U', 'Y'])
        } else {
            None
        }
    } else {
        None
    }
}

/// Hedging: at the Hedge and FullEvac levels an attack from buyers is hedged
/// by selling and one from sellers by buying; every other level, and every
/// other attack side, hedges nothing.
pub proof fn lemma_hedge_opposes_attack(level: EvacuationLevel, attack_side: Seq<char>)
    ensures
        (level == EvacuationLevel::Hedge || level == EvacuationLevel::FullEvac) ==> {
            &&& attack_side == seq!['B', 'U', 'Y'] ==> evac_hedge(level, attack_side) == Some(
                seq!['S', 'E', 'L', 'L'],
            )
            &&& attack_side == seq!['S', 'E', 'L', 'L'] ==> evac_hedge(level, attack_side) == Some(
                seq!['B', 'U', 'Y'],
            )
        },
        !(level == EvacuationLevel::Hedge || level == EvacuationLevel::FullEvac) ==> evac_hedge(
            level,
            attack_side,
        ) is None,
        attack_side != seq!['B', 'U', 'Y'] && attack_side != seq!['S', 'E', 'L', 'L'] ==> evac_hedge(
            level,
            attack_side,
        ) is None,
{
}

/// Phase text published for an evacuation level.
pub open spec fn evac_phase_text(level: EvacuationLevel) -> Seq<char> {
    if level.spec_rank() >= 2 {
        seq!['R', 'e', 't', 'r', 'e', 'a', 't', 'i', 'n', 'g']
    } else {
        seq!['I', 'd', 'l', 'e']
    }
}

/// Per-coin evacuation levels.
pub struct EvacuationPipeline {
    states: TextMap<EvacuationLevel>,
}

impl EvacuationPipeline {
    /// Keys are distinct.
    pub closed spec fn wf(&self) -> bool {
        self.states.wf()
    }

    /// Evacuation level of every coin that has one.
    pub closed spec fn view(&self) -> Map<Seq<char>, EvacuationLevel> {
        self.states@
    }

    /// Level of a coin, Monitor when it has none.
    pub open spec fn level_of(&self, coin: Seq<char>) -> EvacuationLevel {
        if self@.contains_key(coin) {
            self@[coin]
        } else {
            EvacuationLevel::Monitor
        }
    }

    /// A pipeline with no coin under evacuation.
    pub fn new() -> (r: Self)
        ensures
            r.wf(),
            r@ == Map::<Seq<char>, EvacuationLevel>::empty(),
    {
        EvacuationPipeline { states: TextMap::new() }
    }

    /// Escalate the coin of the event to the more severe of its current
    /// level and the event's action (concurrent signals never downgrade),
    /// and say what to do at that level.
    pub fn ingest<W>(&mut self, event: &ToxicFlowEvent<W>) -> (r: EvacuationResponse)
        requires
            old(self).wf(),
        ensures
            final(self).wf(),
            ({
                let lvl = max_level(old(self).level_of(event.coin@), event.action);
                &&& final(self)@ == old(self)@.insert(event.coin@, lvl)
                &&& r.coin@ == event.coin@
                &&& r.level == lvl
                &&& r.cancel_all == (lvl == EvacuationLevel::FullEvac || lvl == EvacuationLevel::Panic)
                &&& opt_view(r.hedge_direction) == evac_hedge(lvl, event.attack_side@)
                &&& r.cooldown_ms == evac_cooldown_ms(lvl)
            }),
            final(self).level_of(event.coin@).spec_rank() >= old(self).level_of(event.coin@).spec_rank(),
            final(self).level_of(event.coin@).spec_rank() >= event.action.spec_rank(),
    {
        let current = match self.states.get(event.coin.as_str()) {
            Some(l) => *l,
            None => EvacuationLevel::Monitor,
        };
        let new_level = if current.rank() >= event.action.rank() {
            current
        } else {
            event.action
        };
        self.states.insert(event.coin.clone(), new_level);
        let needs_cancel_all = matches!(new_level, EvacuationLevel::FullEvac | EvacuationLevel::Panic);
        let needs_hedge = matches!(new_level, EvacuationLevel::Hedge | EvacuationLevel::FullEvac);
        proof {
            reveal_strlit("SELL");
            reveal_strlit("BUY");
            assert("SELL"@ =~= seq!['S', 'E', 'L', 'L']);
            assert("BUY"@ =~= seq!['B', 'U', 'Y']);
        }
        let hedge_direction = if needs_hedge {
            if text_eq(event.attack_side.as_str(), "BUY") {
                Some("SELL".to_owned())
            } else if text_eq(event.attack_side.as_str(), "SELL") {
                Some("BUY".to_owned())
            } else {
                None
            }
        } else {
            None
        };
        let cooldown_ms: u64 = match new_level {
            EvacuationLevel::FullEvac => 300_000,
            EvacuationLevel::Panic => 600_000,
            EvacuationLevel::Hedge => 120_000,
            _ => 60_000,
        };
        EvacuationResponse {
            coin: event.coin.clone(),
            level: new_level,
            cancel_all: needs_cancel_all,
            hedge_direction,
            cooldown_ms,
        }
    }

    /// Forget the evacuation level of a coin.
    pub fn reset(&mut self, coin: &str)
        requires
            old(self).wf(),
        ensures
            final(self).wf(),
            final(self)@ == old(self)@.remove(coin@),
    {
        self.states.remove(coin)
    }

    /// Published state: when some coin has a level, a coin whose level is
    /// the highest of all, with that level as severity; the time stamp is
    /// the current wall-clock time.
    pub fn current_state(&self) -> (r: SniperState)
        requires
            self.wf(),
        ensures
            r.direction is None,
            r.cooldown_until_ms == 0,
            self@.dom().len() == 0 ==> (!r.active && r.coin is None && r.severity == 0
                && r.phase@ == seq!['I', 'd', 'l', 'e']),
            self@.dom().len() > 0 ==> ({
                &&& r.active
                &&& r.coin is Some
                &&& self@.contains_key(r.coin->0@)
                &&& forall|c: Seq<char>| #[trigger] self@.contains_key(c)
                    ==> self@[c].spec_rank() <= self@[r.coin->0@].spec_rank()
                &&& r.severity == self@[r.coin->0@].spec_rank()
                &&& r.phase@ == evac_phase_text(self@[r.coin->0@])
            }),
    {
        self.current_state_at(crate::clock::now_ms())
    }

    /// Published state at time `now_ms`: as `current_state`, stamped with
    /// `now_ms`.
    pub fn current_state_at(&self, now_ms: u64) -> (r: SniperState)
        requires
            self.wf(),
        ensures
            r.direction is None,
            r.cooldown_until_ms == 0,
            self@.dom().len() == 0 ==> (!r.active && r.coin is None && r.severity == 0
                && r.phase@ == seq!['I', 'd', 'l', 'e']),
            self@.dom().len() > 0 ==> ({
                &&& r.active
                &&& r.coin is Some
                &&& self@.contains_key(r.coin->0@)
                &&& forall|c: Seq<char>| #[trigger] self@.contains_key(c)
                    ==> self@[c].spec_rank() <= self@[r.coin->0@].spec_rank()
                &&& r.severity == self@[r.coin->0@].spec_rank()
                &&& r.phase@ == evac_phase_text(self@[r.coin->0@])
            }),
            r.updated_at == now_ms,
    {
        let mut s = SniperState::default();
        let n = self.states.len();
        proof {
            self.states.lemma_dom_len();
        }
        if n > 0 {
            let mut best: usize = 0;
            let mut i: usize = 1;
            while i < n
                invariant
                    n == self.states.entries().len(),
                    self.states.wf(),
                    0 <= best < n,
                    1 <= i <= n,
                    forall|j: int| 0 <= j < i ==> (#[trigger] self.states.entries()[j]).value.spec_rank()
                        <= self.states.entries()[best as int].value.spec_rank(),
                decreases n - i,
            {
                if self.states.value_at(i).rank() >= self.states.value_at(best).rank() {
                    best = i;
                }
                i = i + 1;
            }
            let level = *self.states.value_at(best);
            proof {
                self.states.lemma_entry_in_view(best as int);
                assert forall|c: Seq<char>| #[trigger] self@.contains_key(c) implies self@[c].spec_rank()
                    <= level.spec_rank() by {
                    self.states.lemma_key_has_entry(c);
                }
                reveal_strlit("Retreating");
                reveal_strlit("Idle");
            }
            s.active = true;
            s.coin = Some(self.states.key_at(best).clone());
            s.severity = level.rank();
            s.phase = match level {
                EvacuationLevel::FullEvac | EvacuationLevel::Panic => "Retreating".to_owned(),
                EvacuationLevel::Hedge | EvacuationLevel::Reduce => "Retreating".to_owned(),
                EvacuationLevel::Monitor | EvacuationLevel::Alert => "Idle".to_owned(),
            };
            assert(s.phase@ =~= evac_phase_text(level));
        }
        s.updated_at = now_ms;
        s
    }
}

/// Order-book imbalance stream settings: book depth and rank weighting.
pub struct OBIStream {
    depth: usize,
    weighted: bool,
}

impl OBIStream {
    pub closed spec fn spec_depth(&self) -> usize {
        self.depth
    }

    pub closed spec fn spec_weighted(&self) -> bool {
        self.weighted
    }

    /// A stream over the top `depth` levels, weighting level `i` by
    /// `1/(i+1)` when `weighted`.
    pub fn new(depth: usize, weighted: bool) -> (r: Self)
        ensures
            r.spec_depth() == depth,
            r.spec_weighted() == weighted,
    {
        OBIStream { depth, weighted }
    }

    /// Number of book levels considered.
    pub fn depth(&self) -> (r: usize)
        ensures
            r == self.spec_depth(),
    {
        self.depth
    }

    /// Whether levels are weighted by rank.
    pub fn weighted(&self) -> (r: bool)
        ensures
            r == self.spec_weighted(),
    {
        self.weighted
    }
}

} // verus!
