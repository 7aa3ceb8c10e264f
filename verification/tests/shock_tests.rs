use growth_engine::shock::{is_toxic_burst, retain_recent, tick_oids, FillTick};

fn tick(time: u64, oid: u64) -> FillTick<f64> {
    FillTick { time, sign: 1.0, oid }
}

#[test]
fn window_keeps_recent_fills_in_order() {
    let mut w = vec![tick(1_000, 1), tick(7_500, 2), tick(6_999, 3), tick(9_000, 4)];
    retain_recent(&mut w, 10_000, 3_000);
    assert_eq!(tick_oids(&w), vec![2, 4]);
    // a window reaching back past the epoch keeps everything
    let mut early = vec![tick(0, 5), tick(10, 6)];
    retain_recent(&mut early, 1_000, 3_000);
    assert_eq!(tick_oids(&early), vec![5, 6]);
}

#[test]
fn burst_needs_three_fills() {
    assert!(!is_toxic_burst(0));
    assert!(!is_toxic_burst(2));
    assert!(is_toxic_burst(3));
    assert!(is_toxic_burst(10));
}
