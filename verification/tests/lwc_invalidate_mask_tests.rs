use chart_rs::lwc_invalidate_mask::{
    InvalidateMask, InvalidationLevel, PaneInvalidation, TimeScaleAnimation, TimeScaleInvalidation,
    TimeScaleInvalidationType,
};
use chart_rs::lwc_time_scale::LogicalRange;

fn range(from: f64, to: f64) -> LogicalRange {
    LogicalRange { from: from.to_bits(), to: to.to_bits() }
}

fn animation(from: f64, to: f64, start_time: f64, duration: f64) -> TimeScaleAnimation {
    TimeScaleAnimation {
        from: from.to_bits(),
        to: to.to_bits(),
        start_time: start_time.to_bits(),
        duration: duration.to_bits(),
    }
}

#[test]
fn pane_invalidation_merges_level_and_autoscale() {
    let mut mask = InvalidateMask::new(InvalidationLevel::Nothing);
    mask.invalidate_pane(1, PaneInvalidation { level: InvalidationLevel::Cursor, auto_scale: false });
    mask.invalidate_pane(1, PaneInvalidation { level: InvalidationLevel::Light, auto_scale: true });
    let result = mask.invalidation_for_pane(1);
    assert_eq!(result.level, InvalidationLevel::Light);
    assert!(result.auto_scale);
}

#[test]
fn set_fit_content_replaces_previous_time_scale_invalidations() {
    let mut mask = InvalidateMask::light();
    mask.set_bar_spacing(8.0f64.to_bits());
    mask.apply_range(range(10.0, 20.0));
    assert_eq!(
        mask.time_scale_invalidations(),
        &[TimeScaleInvalidation::ApplyRange(range(10.0, 20.0))]
    );
    mask.set_fit_content();
    assert_eq!(mask.time_scale_invalidations(), &[TimeScaleInvalidation::FitContent]);
}

#[test]
fn animation_is_removed_before_pushing_new_animation_or_stop() {
    let mut mask = InvalidateMask::light();
    let a = animation(0.0, 5.0, 0.0, 100.0);
    let b = animation(5.0, 10.0, 10.0, 100.0);

    mask.set_time_scale_animation(a);
    mask.set_time_scale_animation(b);
    assert_eq!(mask.time_scale_invalidations().len(), 1);
    assert_eq!(mask.time_scale_invalidations()[0].kind(), TimeScaleInvalidationType::Animation);

    mask.stop_time_scale_animation();
    assert_eq!(mask.time_scale_invalidations().len(), 1);
    assert_eq!(mask.time_scale_invalidations()[0].kind(), TimeScaleInvalidationType::StopAnimation);
}

#[test]
fn merge_preserves_stronger_global_level_and_combines_panes() {
    let mut a = InvalidateMask::new(InvalidationLevel::Cursor);
    let mut b = InvalidateMask::new(InvalidationLevel::Light);
    a.invalidate_pane(0, PaneInvalidation { level: InvalidationLevel::Cursor, auto_scale: false });
    b.invalidate_pane(0, PaneInvalidation { level: InvalidationLevel::Light, auto_scale: true });
    b.invalidate_pane(1, PaneInvalidation { level: InvalidationLevel::Cursor, auto_scale: false });
    a.merge(&b);
    assert_eq!(a.full_invalidation(), InvalidationLevel::Light);
    assert_eq!(a.invalidation_for_pane(0).level, InvalidationLevel::Light);
    assert!(a.invalidation_for_pane(0).auto_scale);
    assert_eq!(a.invalidation_for_pane(1).level, InvalidationLevel::Light);
}

#[test]
fn explicit_pane_invalidations_are_ordered_by_pane_index() {
    let mut mask = InvalidateMask::full();
    mask.invalidate_pane(3, PaneInvalidation { level: InvalidationLevel::Light, auto_scale: false });
    mask.invalidate_pane(1, PaneInvalidation { level: InvalidationLevel::Cursor, auto_scale: true });
    let explicit = mask.explicit_pane_invalidations();
    assert_eq!(
        explicit,
        vec![
            (1, PaneInvalidation { level: InvalidationLevel::Cursor, auto_scale: true }),
            (3, PaneInvalidation { level: InvalidationLevel::Light, auto_scale: false }),
        ]
    );
    assert_eq!(mask.invalidation_for_pane(1).level, InvalidationLevel::Full);
    assert_eq!(mask.invalidation_for_pane(7), PaneInvalidation { level: InvalidationLevel::Full, auto_scale: false });
}

#[test]
fn merge_replays_time_scale_changes_and_keeps_one_animation() {
    let mut a = InvalidateMask::light();
    a.set_time_scale_animation(animation(0.0, 1.0, 0.0, 10.0));
    let mut b = InvalidateMask::light();
    b.set_right_offset(3.0f64.to_bits());
    b.set_time_scale_animation(animation(1.0, 2.0, 0.0, 10.0));
    a.merge(&b);
    let kinds: Vec<TimeScaleInvalidationType> =
        a.time_scale_invalidations().iter().map(|inv| inv.kind()).collect();
    assert_eq!(
        kinds,
        vec![
            TimeScaleInvalidationType::StopAnimation,
            TimeScaleInvalidationType::ApplyRightOffset,
            TimeScaleInvalidationType::Animation,
        ]
    );
    let animations = kinds.iter().filter(|k| **k == TimeScaleInvalidationType::Animation).count();
    assert_eq!(animations, 1);
}

#[test]
fn reset_replaces_pending_changes() {
    let mut mask = InvalidateMask::light();
    mask.set_bar_spacing(6.0f64.to_bits());
    mask.reset_time_scale();
    assert_eq!(mask.time_scale_invalidations(), &[TimeScaleInvalidation::Reset]);
}

#[test]
fn level_max_prefers_stronger() {
    assert_eq!(InvalidationLevel::Cursor.max(InvalidationLevel::Full), InvalidationLevel::Full);
    assert_eq!(InvalidationLevel::Light.max(InvalidationLevel::Nothing), InvalidationLevel::Light);
}
