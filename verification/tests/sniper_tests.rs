use growth_engine::sniper::{
    direction_from_upper, parse_direction, severity_to_evac_level, EvacuationLevel, EvacuationPipeline, FrontrunState,
    MicroSniper, OBIStream, ProbePhase, SniperAction, SniperState, ToxicEventKind, ToxicFlowEvent,
};

fn event(coin: &str, side: &str, severity: u8) -> ToxicFlowEvent<f64> {
    ToxicFlowEvent {
        kind: ToxicEventKind::FillBurst,
        coin: coin.to_string(),
        attack_side: side.to_string(),
        severity,
        action: severity_to_evac_level(severity),
        whale_state: "随机游走".to_string(),
        whale_score: 0.0,
        direction_bias: None,
        ts_ms: 0,
    }
}

#[test]
fn severity_bands() {
    assert_eq!(severity_to_evac_level(0), EvacuationLevel::Monitor);
    assert_eq!(severity_to_evac_level(30), EvacuationLevel::Monitor);
    assert_eq!(severity_to_evac_level(31), EvacuationLevel::Alert);
    assert_eq!(severity_to_evac_level(50), EvacuationLevel::Alert);
    assert_eq!(severity_to_evac_level(55), EvacuationLevel::Reduce);
    assert_eq!(severity_to_evac_level(66), EvacuationLevel::Hedge);
    assert_eq!(severity_to_evac_level(81), EvacuationLevel::FullEvac);
    assert_eq!(severity_to_evac_level(90), EvacuationLevel::FullEvac);
    assert_eq!(severity_to_evac_level(91), EvacuationLevel::Panic);
    assert_eq!(EvacuationLevel::Panic.rank(), 5);
    assert_eq!(EvacuationLevel::Monitor.rank(), 0);
}

#[test]
fn whale_direction() {
    assert_eq!(parse_direction("EXECUTE_STANDARD_LONG"), Some("LONG".to_string()));
    assert_eq!(parse_direction("execute_aggressive_long"), Some("LONG".to_string()));
    assert_eq!(parse_direction("FORCE_QUIT"), Some("SHORT".to_string()));
    assert_eq!(parse_direction("EXECUTE_SHORT"), Some("SHORT".to_string()));
    assert_eq!(parse_direction("HOLD"), None);
    assert_eq!(parse_direction("FORCE_CLOSE"), None);
}

#[test]
fn evacuation_max_severity_wins() {
    let mut p = EvacuationPipeline::new();
    let r = p.ingest(&event("ACE", "BUY", 70));
    assert_eq!(r.level, EvacuationLevel::Hedge);
    assert_eq!(r.hedge_direction, Some("SELL".to_string()));
    assert!(!r.cancel_all);
    assert_eq!(r.cooldown_ms, 120_000);
    // a milder signal does not downgrade
    let r = p.ingest(&event("ACE", "SELL", 10));
    assert_eq!(r.level, EvacuationLevel::Hedge);
    assert_eq!(r.hedge_direction, Some("BUY".to_string()));
    let r = p.ingest(&event("ACE", "NONE", 95));
    assert_eq!(r.level, EvacuationLevel::Panic);
    assert!(r.cancel_all);
    assert_eq!(r.hedge_direction, None);
    assert_eq!(r.cooldown_ms, 600_000);
    let r = p.ingest(&event("BTC", "BUY", 85));
    assert_eq!(r.level, EvacuationLevel::FullEvac);
    assert_eq!(r.cooldown_ms, 300_000);
    assert_eq!(r.coin, "BTC");
    let r = p.ingest(&event("ETH", "BUY", 40));
    assert_eq!(r.cooldown_ms, 60_000);

    let s = p.current_state();
    assert!(s.active);
    assert_eq!(s.coin, Some("ACE".to_string()));
    assert_eq!(s.severity, 5);
    assert_eq!(s.phase, "Retreating");
    p.reset("ACE");
    p.reset("BTC");
    let s = p.current_state();
    assert_eq!(s.coin, Some("ETH".to_string()));
    assert_eq!(s.phase, "Idle");
    p.reset("ETH");
    let s = p.current_state();
    assert!(!s.active);
    assert_eq!(s.coin, None);
    assert!(s.updated_at > 0);
    p.ingest(&event("SOL", "SELL", 70));
    let s = p.current_state_at(1_700_000_000_123);
    assert_eq!(s.updated_at, 1_700_000_000_123);
    assert_eq!(s.coin, Some("SOL".to_string()));
    assert_eq!(s.severity, 3);
    assert_eq!(s.phase, "Retreating");
}

#[test]
fn sniper_state_default() {
    let s = SniperState::default();
    assert!(!s.active);
    assert_eq!(s.phase, "Idle");
    assert_eq!(s.severity, 0);
}

#[test]
fn micro_sniper_cycle() {
    let mut m: MicroSniper<f64> = MicroSniper::new(2.0, 10.0);
    assert_eq!(*m.phase(), ProbePhase::Idle);
    assert!(m.on_toxic_flow(&event("ACE", "SELL", 54), 1_000).is_none());
    match m.on_toxic_flow(&event("ACE", "SELL", 55), 1_000) {
        Some(SniperAction::Probe { coin, direction, sz, probe_ttl_ms }) => {
            assert_eq!(coin, "ACE");
            assert_eq!(direction, "BUY");
            assert_eq!(sz, 2.0);
            assert_eq!(probe_ttl_ms, 100);
        }
        other => panic!("unexpected {:?}", other),
    }
    assert_eq!(*m.phase(), ProbePhase::Probing);
    // busy: further events are ignored
    assert!(m.on_toxic_flow(&event("BTC", "BUY", 90), 1_001).is_none());
    match m.on_probe_fill(1_050) {
        Some(SniperAction::Snipe { coin, sz, max_hold_ms }) => {
            assert_eq!(coin, "ACE");
            assert_eq!(sz, 10.0);
            assert_eq!(max_hold_ms, 2000);
        }
        other => panic!("unexpected {:?}", other),
    }
    assert!(m.on_probe_fill(1_060).is_none());
    m.on_snipe_complete(2_000);
    assert_eq!(*m.phase(), ProbePhase::Retreating);
    assert!(m.on_toxic_flow(&event("ACE", "BUY", 90), 11_999).is_none());
    match m.on_toxic_flow(&event("ACE", "BUY", 90), 12_000) {
        Some(SniperAction::Probe { direction, .. }) => assert_eq!(direction, "SELL"),
        other => panic!("unexpected {:?}", other),
    }
    m.on_probe_rejected(12_050);
    assert_eq!(*m.phase(), ProbePhase::Retreating);
    assert!(m.on_toxic_flow(&event("ACE", "NONE", 90), 30_000).is_none());
}

#[test]
fn obi_stream_settings() {
    let s = OBIStream::new(5, true);
    assert_eq!(s.depth(), 5);
    assert!(s.weighted());
    assert_ne!(FrontrunState::Idle, FrontrunState::PrePositioning);
}

#[test]
fn direction_from_upper_case_text() {
    assert_eq!(direction_from_upper("EXECUTE_STANDARD_LONG"), Some("LONG".to_string()));
    assert_eq!(direction_from_upper("FORCE_QUIT"), Some("SHORT".to_string()));
    assert_eq!(direction_from_upper("LONG_AND_SHORT"), Some("LONG".to_string()));
    assert_eq!(direction_from_upper("execute_standard_long"), None);
    assert_eq!(direction_from_upper("HOLD"), None);
}
