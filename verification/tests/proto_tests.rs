use growth_engine::proto::{InstType, OrderSide, OrderState, OrderType, StateMachine, StrategyGeneState};
use growth_engine::state::State;

#[test]
fn order_state_transitions_valid() {
    // Normal lifecycle
    assert!(OrderState::New.can_transition_to(&OrderState::Posted));
    assert!(OrderState::Posted.can_transition_to(&OrderState::PartialFilled));
    assert!(OrderState::PartialFilled.can_transition_to(&OrderState::Filled));
    assert!(OrderState::Filled.is_terminal());

    // Cancel path
    assert!(OrderState::Posted.can_transition_to(&OrderState::PendingCancel));
    assert!(OrderState::PendingCancel.can_transition_to(&OrderState::Canceled));

    // Reject
    assert!(OrderState::New.can_transition_to(&OrderState::Rejected));
    assert!(OrderState::Rejected.is_terminal());
}

#[test]
fn order_state_transitions_invalid() {
    // Can't go back from terminal
    assert!(!OrderState::Filled.can_transition_to(&OrderState::Posted));
    // Can't skip states
    assert!(!OrderState::New.can_transition_to(&OrderState::Filled));
    // Can't cancel after filled
    assert!(!OrderState::Filled.can_transition_to(&OrderState::Canceled));
}

#[test]
fn engine_state_transitions() {
    // Happy path: Idle → ColdStart → NORMAL → UNWIND → NORMAL
    assert!(State::Idle.can_transition_to(&State::ColdStart));
    assert!(State::ColdStart.can_transition_to(&State::Active));
    assert!(State::Active.can_transition_to(&State::Unwind));
    assert!(State::Unwind.can_transition_to(&State::Active));
    // Emergency: NORMAL → EMERGENCY_IOC → COOLDOWN → NORMAL
    assert!(State::Active.can_transition_to(&State::Shedding));
    assert!(State::Shedding.can_transition_to(&State::Cooldown));
    assert!(State::Cooldown.can_transition_to(&State::Active));
    // No engine state is terminal
    assert!(!State::Idle.is_terminal());
    assert!(!State::Cooldown.is_terminal());
    // Invalid: can't skip states
    assert!(!State::Idle.can_transition_to(&State::Active));
    assert!(!State::Idle.can_transition_to(&State::Shedding));
}

#[test]
fn strategy_gene_transitions() {
    // Promotion path
    assert!(StrategyGeneState::Sandbox.can_transition_to(&StrategyGeneState::Probation));
    assert!(StrategyGeneState::Probation.can_transition_to(&StrategyGeneState::Core));
    // Demotion path
    assert!(StrategyGeneState::Core.can_transition_to(&StrategyGeneState::Probation));
    // Retirement
    assert!(StrategyGeneState::Core.can_transition_to(&StrategyGeneState::Retired));
    assert!(StrategyGeneState::Retired.is_terminal());
    // Invalid
    assert!(!StrategyGeneState::Sandbox.can_transition_to(&StrategyGeneState::Core));
    assert!(!StrategyGeneState::Retired.can_transition_to(&StrategyGeneState::Sandbox));
}

const ALL_ORDER_STATES: [OrderState; 11] = [
    OrderState::Unspecified,
    OrderState::New,
    OrderState::Posted,
    OrderState::PartialFilled,
    OrderState::Filled,
    OrderState::PartialCanceled,
    OrderState::Canceled,
    OrderState::Rejected,
    OrderState::Expired,
    OrderState::Unknown,
    OrderState::PendingCancel,
];

#[test]
fn terminal_order_states_have_no_successor() {
    for s in ALL_ORDER_STATES {
        let has_successor = ALL_ORDER_STATES.iter().any(|n| s.can_transition_to(n));
        assert_eq!(s.is_terminal(), !has_successor, "{}", s.state_name());
    }
}

#[test]
fn every_engine_state_has_a_successor() {
    let all = [
        State::Idle,
        State::ColdStart,
        State::Active,
        State::Unwind,
        State::Shedding,
        State::Cooldown,
        State::Waiting,
        State::GateBlocked,
    ];
    for s in all {
        assert!(!s.is_terminal());
        assert!(all.iter().any(|n| s.can_transition_to(n)), "{}", s.state_name());
    }
}

#[test]
fn transition_to_reports_invalid_moves() {
    assert_eq!(OrderState::New.transition_to(OrderState::Posted), Ok(OrderState::Posted));
    assert_eq!(
        OrderState::Filled.transition_to(OrderState::Posted),
        Err("invalid transition".to_string())
    );
    assert_eq!(State::Idle.transition_to(State::ColdStart), Ok(State::ColdStart));
    assert!(StrategyGeneState::Retired.transition_to(StrategyGeneState::Core).is_err());
}

#[test]
fn state_names() {
    assert_eq!(OrderState::PartialFilled.state_name(), "PARTIAL_FILLED");
    assert_eq!(OrderState::PendingCancel.state_name(), "PENDING_CANCEL");
    assert_eq!(State::Active.state_name(), "NORMAL");
    assert_eq!(State::Shedding.state_name(), "EMERGENCY_IOC");
    assert_eq!(State::GateBlocked.state_name(), "GATE_BLOCKED");
    assert_eq!(StrategyGeneState::Probation.state_name(), "PROBATION");
    assert_eq!(State::default(), State::Idle);
}

#[test]
fn inst_type_from_wire_is_case_insensitive() {
    assert_eq!(InstType::from_wire("spot"), Some(InstType::Spot));
    assert_eq!(InstType::from_wire("Perp"), Some(InstType::Swap));
    assert_eq!(InstType::from_wire("PERPETUAL"), Some(InstType::Swap));
    assert_eq!(InstType::from_wire("future"), Some(InstType::Futures));
    assert_eq!(InstType::from_wire("options"), Some(InstType::Option_));
    assert_eq!(InstType::from_wire("margin"), Some(InstType::Margin));
    assert_eq!(InstType::from_wire("Limit"), None);
    assert_eq!(InstType::from_wire(""), None);
}

#[test]
fn inst_type_name_roundtrip() {
    for t in [InstType::Spot, InstType::Swap, InstType::Futures, InstType::Option_, InstType::Margin] {
        assert_eq!(InstType::from_wire(t.name()), Some(t));
    }
    assert_eq!(InstType::Option_.name(), "OPTION");
}

#[test]
fn order_side_and_tif() {
    assert_eq!(OrderSide::from_bool(true), OrderSide::Buy);
    assert_eq!(OrderSide::from_bool(false), OrderSide::Sell);
    assert!(OrderSide::from_bool(true).is_buy());
    assert!(!OrderSide::from_bool(true).is_sell());
    assert!(OrderSide::from_bool(false).is_sell());
    assert_eq!(OrderType::Limit.tif_str(), "Gtc");
    assert_eq!(OrderType::PostOnly.tif_str(), "Alo");
    assert_eq!(OrderType::Ioc.tif_str(), "Ioc");
    assert_eq!(OrderType::Market.tif_str(), "Ioc");
    assert_eq!(OrderType::Fok.tif_str(), "Ioc");
}

#[test]
fn inst_type_from_upper_needs_upper_case() {
    assert_eq!(InstType::from_upper("SPOT"), Some(InstType::Spot));
    assert_eq!(InstType::from_upper("PERP"), Some(InstType::Swap));
    assert_eq!(InstType::from_upper("FUTURE"), Some(InstType::Futures));
    assert_eq!(InstType::from_upper("OPTIONS"), Some(InstType::Option_));
    assert_eq!(InstType::from_upper("spot"), None);
}
