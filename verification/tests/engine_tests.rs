use growth_engine::engine::{
    any_double_filled, apply_gate, cycle_transition, finish_shedding, nonce_after, park_flat_coin,
    plan_sides, rejection_retreat_ticks, select_gate, take_orders_for, CycleFacts, GateMode, PositionClass,
};
use growth_engine::state::{CoinStateMachine, State};

fn facts() -> CycleFacts {
    CycleFacts {
        has_reserve: true,
        gross_spread_positive: true,
        should_shed: false,
        flat: true,
        should_unwind: false,
        spread_ok: true,
        spread_collapsed: false,
        portfolio_over_limit: false,
        unwind_safe: false,
        ws_drift: false,
        cooldown_elapsed: false,
        spread_stable_cycles: 2,
        thin_spread_reason: "net_spread 0.10 <= min 2.67 bps (deteriorated)".to_string(),
        cooldown_spread_reason: "net_spread 0.10 <= min 2.67 bps".to_string(),
        reserve_reason: "reserve depleted (wd=1)".to_string(),
    }
}

fn step(m: &mut CoinStateMachine, coin: &str, f: &CycleFacts) -> bool {
    let cur = m.state_of(coin);
    cycle_transition(m, coin, cur, f)
}

#[test]
fn idle_to_active_through_cold_start() {
    let mut m = CoinStateMachine::new();
    let f = facts();
    let mut no_reserve = facts();
    no_reserve.has_reserve = false;
    step(&mut m, "ACE", &no_reserve);
    assert_eq!(m.state_of("ACE"), State::Idle);
    step(&mut m, "ACE", &f);
    assert_eq!(m.state_of("ACE"), State::ColdStart);
    step(&mut m, "ACE", &f);
    assert_eq!(m.state_of("ACE"), State::ColdStart);
    step(&mut m, "ACE", &f);
    assert_eq!(m.state_of("ACE"), State::Active);
    step(&mut m, "ACE", &f);
    assert_eq!(m.state_of("ACE"), State::Active);
}

#[test]
fn active_branches() {
    let mut m = CoinStateMachine::new();
    m.init_coin("ACE", State::Active);
    let mut f = facts();
    f.ws_drift = true;
    f.should_shed = true;
    assert!(step(&mut m, "ACE", &f));
    assert_eq!(m.state_of("ACE"), State::ColdStart);

    m.init_coin("ACE", State::Active);
    let mut f = facts();
    f.should_shed = true;
    assert!(!step(&mut m, "ACE", &f));
    assert_eq!(m.state_of("ACE"), State::Shedding);

    m.init_coin("ACE", State::Active);
    let mut f = facts();
    f.has_reserve = false;
    f.flat = false;
    step(&mut m, "ACE", &f);
    assert_eq!(m.state_of("ACE"), State::Active);
    f.flat = true;
    step(&mut m, "ACE", &f);
    assert_eq!(m.state_of("ACE"), State::Cooldown);

    m.init_coin("ACE", State::Active);
    let mut f = facts();
    f.should_unwind = true;
    f.spread_collapsed = true;
    step(&mut m, "ACE", &f);
    assert_eq!(m.state_of("ACE"), State::Unwind);

    m.init_coin("ACE", State::Active);
    let mut f = facts();
    f.spread_collapsed = true;
    f.portfolio_over_limit = true;
    step(&mut m, "ACE", &f);
    assert_eq!(m.state_of("ACE"), State::Waiting);
    assert_eq!(m.waiting_reason_for("ACE"), "net_spread 0.10 <= min 2.67 bps (deteriorated)");

    m.init_coin("ACE", State::Active);
    let mut f = facts();
    f.portfolio_over_limit = true;
    step(&mut m, "ACE", &f);
    assert_eq!(m.waiting_reason_for("ACE"), "portfolio over limit (deteriorated)");
}

#[test]
fn unwind_and_waiting() {
    let mut m = CoinStateMachine::new();
    m.init_coin("ACE", State::Unwind);
    let mut f = facts();
    f.unwind_safe = true;
    step(&mut m, "ACE", &f);
    assert_eq!(m.state_of("ACE"), State::Active);
    assert_eq!(m.unwind_cooldown_left("ACE"), 5);

    m.init_coin("ACE", State::Unwind);
    let mut f = facts();
    f.should_shed = true;
    step(&mut m, "ACE", &f);
    assert_eq!(m.state_of("ACE"), State::Shedding);

    m.enter_waiting("ACE", "x");
    let f = facts();
    step(&mut m, "ACE", &f);
    assert_eq!(m.state_of("ACE"), State::Waiting);
    let mut bad = facts();
    bad.spread_ok = false;
    step(&mut m, "ACE", &bad);
    step(&mut m, "ACE", &f);
    assert_eq!(m.state_of("ACE"), State::Waiting);
    step(&mut m, "ACE", &f);
    assert_eq!(m.state_of("ACE"), State::Active);
}

#[test]
fn cooldown_holds_until_elapsed() {
    let mut m = CoinStateMachine::new();
    m.init_coin("ACE", State::Cooldown);
    step(&mut m, "ACE", &facts());
    assert_eq!(m.state_of("ACE"), State::Cooldown);
    m.init_coin("ACE", State::GateBlocked);
    step(&mut m, "ACE", &facts());
    assert_eq!(m.state_of("ACE"), State::GateBlocked);
}

#[test]
fn elapsed_cooldown_resumes_or_waits() {
    let mut m = CoinStateMachine::new();
    let mut f = facts();
    f.cooldown_elapsed = true;
    m.init_coin("ACE", State::Cooldown);
    step(&mut m, "ACE", &f);
    assert_eq!(m.state_of("ACE"), State::Active);

    m.init_coin("ACE", State::Cooldown);
    f.spread_ok = false;
    f.spread_collapsed = true;
    step(&mut m, "ACE", &f);
    assert_eq!(m.state_of("ACE"), State::Waiting);
    assert_eq!(m.waiting_reason_for("ACE"), "net_spread 0.10 <= min 2.67 bps");

    m.init_coin("ACE", State::Cooldown);
    f.spread_collapsed = false;
    f.portfolio_over_limit = true;
    step(&mut m, "ACE", &f);
    assert_eq!(m.waiting_reason_for("ACE"), "portfolio over limit");

    m.init_coin("ACE", State::Cooldown);
    f.portfolio_over_limit = false;
    f.has_reserve = false;
    step(&mut m, "ACE", &f);
    assert_eq!(m.waiting_reason_for("ACE"), "reserve depleted (wd=1)");
}

#[test]
fn watermark_starts_passive_unwind() {
    let mut m = CoinStateMachine::new();
    m.init_coin("ACE", State::Active);
    let mut f = facts();
    f.should_unwind = true;
    f.flat = false;
    step(&mut m, "ACE", &f);
    assert_eq!(m.state_of("ACE"), State::Unwind);
    assert!(m.is_unwind("ACE"));
}

#[test]
fn shedding_rounds_and_gtc_last_resort() {
    let mut m = CoinStateMachine::new();
    m.init_coin("ACE", State::Shedding);
    assert!(!finish_shedding(&mut m, "ACE", true));
    assert_eq!(m.state_of("ACE"), State::Cooldown);
    assert_eq!(m.zero_shed_rounds("ACE"), 1);
    assert!(!finish_shedding(&mut m, "ACE", true));
    assert!(finish_shedding(&mut m, "ACE", true));
    assert_eq!(m.zero_shed_rounds("ACE"), 0);
    assert!(!finish_shedding(&mut m, "ACE", true));
    assert!(!finish_shedding(&mut m, "ACE", false));
    assert_eq!(m.zero_shed_rounds("ACE"), 0);
}

#[test]
fn side_plans() {
    let p = plan_sides(true, true, false, false, false, 0, PositionClass::Flat);
    assert!(p.place && !p.freeze_buy && !p.freeze_sell && !p.reduce_only);
    let p = plan_sides(false, false, false, true, false, 0, PositionClass::LongBeyondDust);
    assert!(p.place && p.reduce_only && p.freeze_buy && !p.freeze_sell);
    let p = plan_sides(false, false, false, true, false, 0, PositionClass::ShortBeyondDust);
    assert!(p.place && p.freeze_sell && !p.freeze_buy);
    let p = plan_sides(false, true, false, true, false, 0, PositionClass::Flat);
    assert!(!p.place);
    let p = plan_sides(false, false, true, false, false, 0, PositionClass::LongDust);
    assert!(p.place && p.freeze_buy && !p.freeze_sell);
    let p = plan_sides(true, true, false, false, false, 3, PositionClass::ShortDust);
    assert!(p.freeze_sell && !p.freeze_buy);
    let p = plan_sides(false, false, false, false, true, 0, PositionClass::LongBeyondDust);
    assert!(p.place && p.reduce_only && !p.freeze_buy);
}

#[test]
fn gate_priority() {
    assert_eq!(select_gate(true, true, true, 1, 1, 0), GateMode::Crossed);
    assert_eq!(select_gate(false, true, true, 1, 1, 0), GateMode::ThinSpread);
    assert_eq!(select_gate(false, false, true, 1, 1, 0), GateMode::Coarse);
    assert_eq!(select_gate(false, false, true, 2, 1, 0), GateMode::Tsunami);
    assert_eq!(select_gate(false, false, false, 1, 2, 1), GateMode::Sniper);
    assert_eq!(select_gate(false, false, false, 0, 2, 1), GateMode::Blocked);
    assert_eq!(GateMode::ThinSpread.name(), "THIN_SPREAD");
    assert_eq!(GateMode::Coarse.name(), "COARSE");
}

#[test]
fn nonces_are_monotonic() {
    assert_eq!(nonce_after(0, 1_700_000_000_000), 1_700_000_000_000);
    assert_eq!(nonce_after(1_700_000_000_000, 1_700_000_000_000), 1_700_000_000_001);
    assert_eq!(nonce_after(1_700_000_000_500, 1_699_999_000_000), 1_700_000_000_501);
    assert_eq!(nonce_after(u64::MAX, 5), u64::MAX);
}

#[test]
fn double_fill_and_order_tracking() {
    assert!(any_double_filled(&vec![1, 2, 3], &vec![9, 3]));
    assert!(!any_double_filled(&vec![1, 2], &vec![3, 4]));
    assert!(!any_double_filled(&vec![], &vec![1]));
    let mut active = vec![
        ("ACE".to_string(), 1u64),
        ("BTC".to_string(), 2u64),
        ("ACE".to_string(), 3u64),
    ];
    let ours = take_orders_for(&mut active, "ACE");
    assert_eq!(ours, vec![("ACE".to_string(), 1u64), ("ACE".to_string(), 3u64)]);
    assert_eq!(active, vec![("BTC".to_string(), 2u64)]);
}

#[test]
fn rejection_retreat_steps() {
    assert_eq!(rejection_retreat_ticks(0), 0);
    assert_eq!(rejection_retreat_ticks(2), 0);
    assert_eq!(rejection_retreat_ticks(3), 1);
    assert_eq!(rejection_retreat_ticks(5), 1);
    assert_eq!(rejection_retreat_ticks(6), 2);
    assert_eq!(rejection_retreat_ticks(u32::MAX), 2);
}

#[test]
fn gate_blocks_and_lifts_after_stable_cycles() {
    let mut m = CoinStateMachine::new();
    m.init_coin("ACE", State::Active);
    assert!(apply_gate(&mut m, "ACE", true, "gross 1.0 < 2", 2));
    assert_eq!(m.state_of("ACE"), State::GateBlocked);
    assert_eq!(m.waiting_reason_for("ACE"), "gross 1.0 < 2");
    // already blocked: no new cancel
    assert!(!apply_gate(&mut m, "ACE", true, "gross 1.0 < 2", 2));
    assert!(!apply_gate(&mut m, "ACE", false, "", 2));
    assert_eq!(m.state_of("ACE"), State::GateBlocked);
    assert!(!apply_gate(&mut m, "ACE", false, "", 2));
    assert_eq!(m.state_of("ACE"), State::Active);
    // an open gate leaves an unblocked coin alone
    assert!(!apply_gate(&mut m, "ACE", false, "", 2));
    assert_eq!(m.state_of("ACE"), State::Active);
}

#[test]
fn flat_active_coins_park_over_the_limit() {
    let mut m = CoinStateMachine::new();
    m.init_coin("ACE", State::Active);
    m.init_coin("HMSTR", State::Active);
    m.init_coin("MEME", State::Unwind);
    assert!(park_flat_coin(&mut m, "ACE", false));
    assert!(!park_flat_coin(&mut m, "HMSTR", true));
    assert!(!park_flat_coin(&mut m, "MEME", false));
    assert_eq!(m.state_of("ACE"), State::Cooldown);
    assert_eq!(m.state_of("HMSTR"), State::Active);
    assert_eq!(m.state_of("MEME"), State::Unwind);
}

#[test]
fn unseen_coin_steps_from_a_fresh_record() {
    let mut m = CoinStateMachine::new();
    cycle_transition(&mut m, "NEW", State::Idle, &facts());
    assert_eq!(m.state_of("NEW"), State::ColdStart);
    let mut no_reserve = facts();
    no_reserve.has_reserve = false;
    cycle_transition(&mut m, "OTHER", State::Idle, &no_reserve);
    assert_eq!(m.state_of("OTHER"), State::Idle);
    assert!(m.record_of("OTHER").is_some());
}
