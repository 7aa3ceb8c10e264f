use growth_engine::types::{
    ioc_filled_size, limit_order_outcome, tick_retreat_step, FilledOrder, OrderOutcome, OrderStatus,
    RestingOrder, RetreatStep,
};

fn resting(oid: u64) -> OrderStatus {
    OrderStatus { resting: Some(RestingOrder { oid, cloid: None }), filled: None, error: None }
}

fn filled(sz: &str) -> OrderStatus {
    OrderStatus {
        resting: None,
        filled: Some(FilledOrder { oid: 7, total_sz: sz.to_string(), avg_px: "1.0".to_string() }),
        error: None,
    }
}

fn error(e: &str) -> OrderStatus {
    OrderStatus { resting: None, filled: None, error: Some(e.to_string()) }
}

#[test]
fn limit_outcome_first_decisive_status_wins() {
    match limit_order_outcome(&vec![resting(42)]) {
        OrderOutcome::Rested(oid) => assert_eq!(oid, 42),
        other => panic!("unexpected {:?}", other),
    }
    match limit_order_outcome(&vec![error("x"), filled("3"), resting(9)]) {
        OrderOutcome::FilledTaker => {}
        other => panic!("unexpected {:?}", other),
    }
    // a resting status without an id does not count
    match limit_order_outcome(&vec![resting(0), filled("1")]) {
        OrderOutcome::FilledTaker => {}
        other => panic!("unexpected {:?}", other),
    }
}

#[test]
fn limit_outcome_rejections_keep_last_error() {
    match limit_order_outcome(&vec![error("first"), OrderStatus { resting: None, filled: None, error: None }, error("second")]) {
        OrderOutcome::Rejected(Some(r)) => assert_eq!(r, "second"),
        other => panic!("unexpected {:?}", other),
    }
    match limit_order_outcome(&vec![]) {
        OrderOutcome::Rejected(None) => {}
        other => panic!("unexpected {:?}", other),
    }
    match limit_order_outcome(&vec![resting(0)]) {
        OrderOutcome::Rejected(None) => {}
        other => panic!("unexpected {:?}", other),
    }
}

#[test]
fn ioc_fill_size() {
    assert_eq!(ioc_filled_size(&vec![resting(1), filled("12.5"), filled("3")]), Some("12.5".to_string()));
    assert_eq!(ioc_filled_size(&vec![resting(1), error("e")]), None);
}

#[test]
fn tick_retreat_decisions() {
    let wm = "Post only order would have immediately matched, bbo was 1.0";
    assert_eq!(tick_retreat_step(&vec![error(wm)], 0, 3), RetreatStep::Retreat);
    assert_eq!(tick_retreat_step(&vec![error(wm)], 3, 3), RetreatStep::GiveUp);
    assert_eq!(tick_retreat_step(&vec![error("Insufficient margin")], 0, 3), RetreatStep::GiveUp);
    assert_eq!(tick_retreat_step(&vec![resting(5), error(wm), resting(6)], 0, 3), RetreatStep::Rested(6));
    assert_eq!(tick_retreat_step(&vec![], 0, 3), RetreatStep::GiveUp);
}
