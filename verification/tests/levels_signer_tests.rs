use growth_engine::levels::{LevelManager, LevelState};
use growth_engine::signer::Signer;

#[test]
fn level_grid_tracks_active_orders() {
    let mut g: LevelManager<f64> = LevelManager::new();
    assert!(g.order_at(0).is_none());
    g.register(0, 100, 0.08, 10.0, 1);
    g.register(1, 101, 0.079, 12.0, 2);
    g.register(2, 102, 0.078, 14.0, 3);
    assert_eq!(g.active_count(), 3);
    g.mark_filled(1);
    g.mark_cancelled(2);
    g.mark_filled(9);
    assert_eq!(g.active_oids(), vec![100]);
    assert_eq!(g.active_count(), 1);
    assert_eq!(g.order_at(1).unwrap().state, LevelState::Filled);
    assert_eq!(g.order_at(2).unwrap().state, LevelState::Cancelled);
    g.register(1, 201, 0.0795, 11.0, 4);
    assert_eq!(g.active_oids(), vec![100, 201]);
    assert_eq!(g.active_sizes(), vec![10.0, 11.0]);
    assert_eq!(g.order_at(1).unwrap().placed_at_ms, 4);
}

#[test]
fn signer_asset_indices() {
    let mut s = Signer::new("0xkey".to_string(), "0xEC1FbcaD".to_string());
    assert_eq!(s.address(), "0xEC1FbcaD");
    assert_eq!(s.private_key(), "0xkey");
    assert_eq!(s.asset_index_for("PUMP"), 0);
    s.cache_asset_indices(&vec![
        Some("BTC".to_string()),
        None,
        Some("PUMP".to_string()),
        Some("BTC".to_string()),
    ]);
    assert_eq!(s.asset_index_for("PUMP"), 2);
    assert_eq!(s.asset_index_for("BTC"), 3);
    assert_eq!(s.asset_index_for("ETH"), 0);
}

#[test]
fn levels_without_active_order_need_requote() {
    let mut g: LevelManager<f64> = LevelManager::new();
    assert!(g.lacks_active_order(0));
    g.register(0, 100, 0.08, 10.0, 1);
    g.register(1, 101, 0.079, 12.0, 2);
    assert!(!g.lacks_active_order(0));
    g.mark_filled(0);
    g.mark_cancelled(1);
    assert!(g.lacks_active_order(0));
    assert!(g.lacks_active_order(1));
    assert!(g.lacks_active_order(7));
}
