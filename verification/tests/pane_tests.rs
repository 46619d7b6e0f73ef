use chart_rs::error::ChartError;
use chart_rs::lwc_chart_model::ChartModel;
use chart_rs::lwc_invalidate_mask::{InvalidationLevel, TimeScaleInvalidationType, TimeScaleAnimation};
use chart_rs::pane::{PaneCollection, PaneId};

fn b(v: f64) -> u64 {
    v.to_bits()
}

#[test]
fn pane_collection_default_has_single_main_pane() {
    let panes = PaneCollection::default();
    assert_eq!(panes.panes().len(), 1);
    assert!(panes.panes()[0].is_main);
    assert_eq!(panes.main_pane_id(), PaneId::new(0));
}

#[test]
fn pane_collection_creates_and_removes_panes() {
    let mut panes = PaneCollection::default();
    let pane_a = panes.create_pane(b(2.0)).expect("create pane A");
    let pane_b = panes.create_pane(b(1.0)).expect("create pane B");
    assert_eq!(pane_a, PaneId::new(1));
    assert_eq!(pane_b, PaneId::new(2));
    assert_eq!(panes.panes().len(), 3);

    assert_eq!(panes.remove_pane(pane_a), Ok(true));
    assert!(panes.contains(pane_b));
    assert!(!panes.contains(pane_a));
    assert_eq!(panes.panes().len(), 2);
    assert_eq!(panes.remove_pane(pane_a), Ok(false));
    assert!(matches!(panes.remove_pane(PaneId::new(0)), Err(ChartError::InvalidData(_))));
}

#[test]
fn pane_stretch_factors_are_validated() {
    let mut panes = PaneCollection::default();
    assert!(panes.create_pane(b(0.0)).is_err());
    assert_eq!(panes.panes().len(), 1);
    let id = panes.create_pane(b(1.0)).unwrap();
    assert_eq!(panes.set_stretch_factor(id, b(3.0)), Ok(true));
    assert_eq!(panes.panes()[1].stretch_factor, b(3.0));
    assert_eq!(panes.set_stretch_factor(PaneId::new(42), b(3.0)), Ok(false));
    assert!(panes.set_stretch_factor(id, b(f64::NAN)).is_err());
    panes.replace_stretch_factors(&[b(0.25), b(0.75)]);
    assert_eq!(panes.panes()[0].stretch_factor, b(0.25));
    assert!(panes.panes()[0].is_main);
}

#[test]
fn default_chart_model_starts_with_full_invalidation() {
    let model = ChartModel::with_default_pane(b(800.0));
    let pending = model.pending_invalidation().expect("pending");
    assert_eq!(pending.full_invalidation(), InvalidationLevel::Full);
}

#[test]
fn invalidate_merges_masks() {
    let mut model = ChartModel::with_default_pane(b(800.0));
    model.take_pending_invalidation();
    model.light_update();
    model.cursor_update();
    let pending = model.pending_invalidation().expect("pending");
    assert_eq!(pending.full_invalidation(), InvalidationLevel::Light);
}

#[test]
fn chart_model_width_and_animation_requests() {
    let mut model = ChartModel::with_default_pane(b(800.0));
    assert!(model.set_width(b(0.0)).is_err());
    assert_eq!(model.width(), b(800.0));
    model.take_pending_invalidation();
    model.set_time_scale_animation(TimeScaleAnimation { from: b(0.0), to: b(1.0), start_time: b(0.0), duration: b(5.0) });
    model.stop_time_scale_animation();
    let pending = model.take_pending_invalidation().expect("pending");
    let kinds: Vec<_> = pending.time_scale_invalidations().iter().map(|i| i.kind()).collect();
    assert_eq!(kinds, Vec::<TimeScaleInvalidationType>::new());
    model.invalidate_pane(2, InvalidationLevel::Cursor, true);
    let pending = model.pending_invalidation().unwrap();
    assert!(pending.invalidation_for_pane(2).auto_scale);
}

#[test]
fn chart_model_sync_reuses_existing_panes() {
    let mut model = ChartModel::with_default_pane(b(800.0));
    assert_eq!(model.sync_panes(&[]), None);
    assert_eq!(model.sync_panes(&[PaneId::new(0)]), None);
    model.take_pending_invalidation();
    let plan = model.sync_panes(&[PaneId::new(3), PaneId::new(0), PaneId::new(3)]).expect("plan");
    assert_eq!(plan, vec![None, Some(0), None]);
    assert_eq!(model.pane_ids(), &[PaneId::new(3), PaneId::new(0), PaneId::new(3)]);
    assert_eq!(model.pending_invalidation().unwrap().full_invalidation(), InvalidationLevel::Full);
    let plan = model.sync_panes(&[PaneId::new(0), PaneId::new(3)]).expect("plan");
    assert_eq!(plan, vec![Some(1), Some(2)]);
}

#[test]
fn pane_collection_can_create_remove_and_normalize() {
    let mut panes = PaneCollection::default();
    let pane_a = panes.create_pane(b(2.0)).expect("create pane A");
    let pane_b = panes.create_pane(b(1.0)).expect("create pane B");
    assert_eq!(panes.panes().len(), 3);

    let weights: Vec<f64> = panes.panes().iter().map(|pane| f64::from_bits(pane.stretch_factor)).collect();
    let total: f64 = weights.iter().sum();
    let normalized: Vec<u64> = weights.iter().map(|w| (w / total).to_bits()).collect();
    panes.replace_stretch_factors(&normalized);
    let sum: f64 = panes.panes().iter().map(|pane| f64::from_bits(pane.stretch_factor)).sum();
    assert!((sum - 1.0).abs() <= 1e-12);

    let removed = panes.remove_pane(pane_a).expect("remove pane A");
    assert!(removed);
    assert!(panes.contains(pane_b));
    assert_eq!(panes.panes().len(), 2);
}
