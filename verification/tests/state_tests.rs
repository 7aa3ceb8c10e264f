use growth_engine::state::{cooldown_finished, CoinStateMachine, PerCoinState, State};

#[test]
fn unseen_coin_starts_idle_with_blocked_gate() {
    let mut m = CoinStateMachine::new();
    assert!(m.record_of("ACE").is_none());
    assert_eq!(m.state_of("ACE"), State::Idle);
    let rec = m.record_of("ACE").unwrap();
    assert_eq!(rec.gate_mode, "BLOCKED");
    assert_eq!(rec.waiting_reason, "");
    assert_eq!(rec.cold_start_cycles, 0);
    let p = PerCoinState::new();
    assert_eq!(p.state, State::Idle);
    assert_eq!(PerCoinState::new_with_state(State::Active).state, State::Active);
}

#[test]
fn transition_resets_counters_only_on_change() {
    let mut m = CoinStateMachine::new();
    m.transition("ACE", State::Active);
    assert_eq!(m.increment_ask_rejections("ACE"), 1);
    assert_eq!(m.tally_buy_fill("ACE"), 1);
    assert_eq!(m.tally_sell_fill("ACE"), 1);
    // same state: nothing is reset
    m.transition("ACE", State::Active);
    assert_eq!(m.ask_rejection_count("ACE"), 1);
    assert!(m.buy_side_tapped_out("ACE", 1));
    // real change: counters reset
    m.transition("ACE", State::Unwind);
    assert_eq!(m.state_of("ACE"), State::Unwind);
    assert_eq!(m.ask_rejection_count("ACE"), 0);
    assert!(!m.buy_side_tapped_out("ACE", 1));
    assert!(!m.sell_side_tapped_out("ACE", 1));
}

#[test]
fn coins_are_independent() {
    let mut m = CoinStateMachine::new();
    m.transition("HMSTR", State::Shedding);
    m.transition("MEME", State::Active);
    m.increment_zero_shed("HMSTR");
    assert_eq!(m.state_of("HMSTR"), State::Shedding);
    assert_eq!(m.state_of("MEME"), State::Active);
    assert_eq!(m.zero_shed_rounds("MEME"), 0);
    assert_eq!(m.zero_shed_rounds("HMSTR"), 1);
}

#[test]
fn cold_start_needs_two_cycles() {
    let mut m = CoinStateMachine::new();
    m.transition("ACE", State::ColdStart);
    assert!(!m.advance_cold_start("ACE"));
    assert!(m.advance_cold_start("ACE"));
}

#[test]
fn waiting_and_gate_blocked() {
    let mut m = CoinStateMachine::new();
    m.enter_waiting("ACE", "thin");
    assert_eq!(m.state_of("ACE"), State::Waiting);
    assert_eq!(m.waiting_reason_for("ACE"), "thin");
    assert!(!m.tick_waiting("ACE", 3));
    assert!(!m.tick_waiting("ACE", 3));
    assert!(m.tick_waiting("ACE", 3));
    m.reset_favorable_cycles("ACE");
    assert!(!m.tick_waiting("ACE", 2));
    m.enter_gate_blocked("ACE", "gross 0.0 < 1");
    assert!(m.is_gate_blocked("ACE"));
    assert!(!m.is_gate_blocked("BTC"));
    assert!(!m.tick_waiting("ACE", 0));
    assert_eq!(m.note_favorable_cycle("ACE"), 1);
    assert_eq!(m.waiting_reason_for("ACE"), "gross 0.0 < 1");
}

#[test]
fn orderable_states() {
    let mut m = CoinStateMachine::new();
    assert!(!m.can_place_orders("ACE"));
    for (s, ok) in [
        (State::ColdStart, true),
        (State::Active, true),
        (State::Shedding, true),
        (State::Unwind, true),
        (State::Cooldown, false),
        (State::Waiting, false),
        (State::GateBlocked, false),
    ] {
        m.init_coin("ACE", s);
        assert_eq!(m.can_place_orders("ACE"), ok);
    }
    m.init_coin("ACE", State::Unwind);
    assert!(m.is_unwind("ACE"));
    assert!(!m.is_shedding("ACE"));
}

#[test]
fn cooldowns_and_freeze_count_down_to_zero() {
    let mut m = CoinStateMachine::new();
    m.reset_unwind_cooldown("ACE", 2);
    m.tick_unwind_cooldown("ACE");
    assert_eq!(m.unwind_cooldown_left("ACE"), 1);
    m.tick_unwind_cooldown("ACE");
    m.tick_unwind_cooldown("ACE");
    assert_eq!(m.unwind_cooldown_left("ACE"), 0);
    assert!(!m.is_frozen("ACE"));
    m.set_freeze("ACE", -1);
    assert!(m.is_frozen("ACE"));
    assert_eq!(m.freeze_direction_for("ACE"), -1);
    assert_eq!(m.freeze_direction_for("BTC"), 0);
    for _ in 0..50 {
        m.tick_freeze("ACE");
    }
    assert!(!m.is_frozen("ACE"));
}

#[test]
fn fill_momentum() {
    let mut m = CoinStateMachine::new();
    assert_eq!(m.record_fill_side("ACE", true), 1);
    assert_eq!(m.record_fill_side("ACE", true), 2);
    assert_eq!(m.toxicity_blocked_side("ACE", 3), None);
    assert_eq!(m.record_fill_side("ACE", true), 3);
    assert_eq!(m.toxicity_blocked_side("ACE", 3), Some("buy".to_string()));
    assert_eq!(m.record_fill_side("ACE", false), 1);
    assert_eq!(m.toxicity_blocked_side("ACE", 1), Some("sell".to_string()));
    m.reset_toxicity("ACE");
    assert_eq!(m.toxicity_blocked_side("ACE", 0), None);
    assert_eq!(m.toxicity_blocked_side("BTC", 0), None);
}

#[test]
fn gate_mode_and_cooldown() {
    let mut m = CoinStateMachine::new();
    assert_eq!(m.gate_mode_for("ACE"), "BLOCKED");
    m.set_gate_mode("ACE", "TSUNAMI");
    assert_eq!(m.gate_mode_for("ACE"), "TSUNAMI");
    m.transition("ACE", State::Cooldown);
    // the cooldown has just started
    assert!(!m.cooldown_done("ACE"));
    m.transition("ACE", State::Active);
    assert!(!m.cooldown_done("ACE"));
    assert!(m.elapsed_ms("ACE") < 60_000);
    m.reset_fill_tallies("ACE");
    m.reset_zero_shed("ACE");
    m.reset_ask_rejections("ACE");
}

#[test]
fn gate_mode_change_resets_fill_tallies() {
    let mut m = CoinStateMachine::new();
    m.transition("HMSTR", State::Active);
    m.tally_buy_fill("HMSTR");
    m.tally_sell_fill("HMSTR");
    // same mode as the fresh coin's: tallies stay
    assert!(!m.apply_gate_mode("HMSTR", "BLOCKED"));
    assert!(m.buy_side_tapped_out("HMSTR", 1));
    assert!(m.sell_side_tapped_out("HMSTR", 1));
    // new regime: mode recorded, tallies cleared
    assert!(m.apply_gate_mode("HMSTR", "COARSE"));
    assert_eq!(m.gate_mode_for("HMSTR"), "COARSE");
    assert!(!m.buy_side_tapped_out("HMSTR", 1));
    assert!(!m.sell_side_tapped_out("HMSTR", 1));
    // recording it again changes nothing
    m.tally_buy_fill("HMSTR");
    assert!(!m.apply_gate_mode("HMSTR", "COARSE"));
    assert!(m.buy_side_tapped_out("HMSTR", 1));
}

#[test]
fn cooldown_finishes_after_its_length() {
    assert!(!cooldown_finished(State::Cooldown, 29_999, 30_000));
    assert!(cooldown_finished(State::Cooldown, 30_000, 30_000));
    assert!(cooldown_finished(State::Cooldown, 90_000, 30_000));
    assert!(!cooldown_finished(State::Active, 90_000, 30_000));
}
