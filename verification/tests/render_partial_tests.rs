use chart_rs::invalidation::{InvalidationLevel, InvalidationMask, InvalidationTopic, InvalidationTopics};
use chart_rs::lwc_invalidate_mask as lwc;
use chart_rs::pane::PaneId;
use chart_rs::render_partial::{
    axis_only_plot_layers, collect_known_pane_targets, cursor_only_plot_layers, layered_with_panes,
    light_plot_layers, pending_has_time_scale_topic, resolve_api_or_all_targets,
    resolve_api_pane_targets, resolve_lwc_explicit_or_api_or_all_targets,
    resolve_lwc_partial_render_policy, select_plot_layers_for_pending, CanvasLayerKind,
    PartialCairoRenderPlan, PartialPaneTargets,
};

#[test]
fn resolve_api_or_all_returns_all_when_api_targets_are_unknown() {
    let layered = layered_with_panes(&[PaneId::new(0), PaneId::new(1)]);
    let targets = resolve_api_or_all_targets(&[PaneId::new(99)], &layered);
    assert!(matches!(targets, PartialPaneTargets::All));
}

#[test]
fn resolve_api_or_all_returns_some_for_known_api_targets() {
    let pane = PaneId::new(1);
    let layered = layered_with_panes(&[PaneId::new(0), pane]);
    let targets = resolve_api_or_all_targets(&[pane], &layered);
    assert!(matches!(targets, PartialPaneTargets::Selected(values) if values == vec![pane]));
}

#[test]
fn resolve_lwc_explicit_or_api_or_all_prioritizes_non_empty_explicit_targets() {
    let pane = PaneId::new(2);
    let layered = layered_with_panes(&[PaneId::new(0), pane]);
    let targets = resolve_lwc_explicit_or_api_or_all_targets(Some(vec![pane]), &[], &layered);
    assert!(matches!(targets, PartialPaneTargets::Selected(values) if values == vec![pane]));
}

#[test]
fn resolve_lwc_explicit_or_api_or_all_falls_back_to_api_when_explicit_is_empty() {
    let pane = PaneId::new(1);
    let layered = layered_with_panes(&[PaneId::new(0), pane]);
    let targets = resolve_lwc_explicit_or_api_or_all_targets(Some(Vec::new()), &[pane], &layered);
    assert!(matches!(targets, PartialPaneTargets::Selected(values) if values == vec![pane]));
}

#[test]
fn resolve_lwc_explicit_or_api_or_all_falls_back_to_all_without_explicit_or_api() {
    let layered = layered_with_panes(&[PaneId::new(0), PaneId::new(1)]);
    let targets = resolve_lwc_explicit_or_api_or_all_targets(None, &[], &layered);
    assert!(matches!(targets, PartialPaneTargets::All));
}

#[test]
fn select_plot_layers_uses_cursor_only_for_pure_cursor_invalidations() {
    let pending = InvalidationMask::with_level_and_topics(
        InvalidationLevel::Cursor,
        InvalidationTopics::from_topic(InvalidationTopic::Cursor),
    );
    assert_eq!(select_plot_layers_for_pending(pending), cursor_only_plot_layers());
}

#[test]
fn select_plot_layers_uses_light_layers_for_series_light_invalidations() {
    let pending = InvalidationMask::with_level_and_topics(
        InvalidationLevel::Light,
        InvalidationTopics::from_topic(InvalidationTopic::Series),
    );
    assert_eq!(select_plot_layers_for_pending(pending), light_plot_layers());
}

#[test]
fn select_plot_layers_uses_cursor_layers_for_axis_cursor_light_invalidations() {
    let pending = InvalidationMask::with_level_and_topics(
        InvalidationLevel::Light,
        InvalidationTopics::from_topic(InvalidationTopic::Axis).with_topic(InvalidationTopic::Cursor),
    );
    assert_eq!(select_plot_layers_for_pending(pending), cursor_only_plot_layers());
}

#[test]
fn select_plot_layers_uses_axis_only_layers_for_axis_only_invalidations() {
    let pending = InvalidationMask::with_level_and_topics(
        InvalidationLevel::Light,
        InvalidationTopics::from_topic(InvalidationTopic::Axis),
    );
    assert_eq!(select_plot_layers_for_pending(pending), axis_only_plot_layers());
}

#[test]
fn pending_has_time_scale_topic_detects_time_scale_presence() {
    let with_topic = InvalidationMask::with_level_and_topics(
        InvalidationLevel::Light,
        InvalidationTopics::from_topic(InvalidationTopic::TimeScale),
    );
    let without_topic = InvalidationMask::with_level_and_topics(
        InvalidationLevel::Light,
        InvalidationTopics::from_topic(InvalidationTopic::Series),
    );

    assert!(pending_has_time_scale_topic(with_topic));
    assert!(!pending_has_time_scale_topic(without_topic));
}

#[test]
fn partial_plan_requires_multiple_panes_and_lightweight_invalidation_levels() {
    let single_pane = layered_with_panes(&[PaneId::new(0)]);
    let pending_cursor = InvalidationMask::with_level_and_topics(
        InvalidationLevel::Cursor,
        InvalidationTopics::from_topic(InvalidationTopic::Cursor),
    );
    assert!(PartialCairoRenderPlan::build(pending_cursor, &[], &single_pane).is_none());

    let multi_pane = layered_with_panes(&[PaneId::new(0), PaneId::new(1)]);
    let pending_full = InvalidationMask::full();
    assert!(PartialCairoRenderPlan::build(pending_full, &[], &multi_pane).is_none());
}

#[test]
fn partial_plan_uses_cursor_only_plot_layers_for_pure_cursor_invalidations() {
    let multi_pane = layered_with_panes(&[PaneId::new(0), PaneId::new(1)]);
    let pending = InvalidationMask::with_level_and_topics(
        InvalidationLevel::Cursor,
        InvalidationTopics::from_topic(InvalidationTopic::Cursor),
    );
    let plan = PartialCairoRenderPlan::build(pending, &[], &multi_pane).expect("plan");
    assert_eq!(plan.plot_layers(), cursor_only_plot_layers().as_slice());
}

#[test]
fn partial_plan_uses_full_plot_layers_for_non_cursor_light_invalidations() {
    let multi_pane = layered_with_panes(&[PaneId::new(0), PaneId::new(1)]);
    let pending = InvalidationMask::with_level_and_topics(
        InvalidationLevel::Light,
        InvalidationTopics::from_topic(InvalidationTopic::Series),
    );
    let plan = PartialCairoRenderPlan::build(pending, &[], &multi_pane).expect("plan");
    assert_eq!(plan.plot_layers(), light_plot_layers().as_slice());
}

#[test]
fn partial_plan_uses_api_targets_and_ignores_unknown_targets() {
    let main = PaneId::new(0);
    let aux = PaneId::new(3);
    let multi_pane = layered_with_panes(&[main, aux]);
    let pending = InvalidationMask::with_level_and_topics(
        InvalidationLevel::Light,
        InvalidationTopics::from_topic(InvalidationTopic::Series),
    );

    let invalid_hint_plan =
        PartialCairoRenderPlan::build(pending, &[PaneId::new(99)], &multi_pane).expect("plan");
    assert!(invalid_hint_plan.targets_pane(main));
    assert!(invalid_hint_plan.targets_pane(aux));

    let aux_only_plan = PartialCairoRenderPlan::build(pending, &[aux], &multi_pane).expect("plan");
    assert!(!aux_only_plan.targets_pane(main));
    assert!(aux_only_plan.targets_pane(aux));
}

#[test]
fn partial_plan_prefers_lwc_cursor_invalidation_when_available() {
    let main = PaneId::new(0);
    let aux = PaneId::new(1);
    let multi_pane = layered_with_panes(&[main, aux]);
    let legacy_pending = InvalidationMask::with_level_and_topics(
        InvalidationLevel::Full,
        InvalidationTopics::from_topic(InvalidationTopic::Series),
    );
    let lwc_pane_ids = vec![main, aux];

    let lwc_pending = lwc::InvalidateMask::new(lwc::InvalidationLevel::Cursor);
    let plan = PartialCairoRenderPlan::build_from_masks(
        legacy_pending,
        &[],
        Some(&lwc_pending),
        &lwc_pane_ids,
        &multi_pane,
    )
    .expect("plan");
    assert_eq!(plan.plot_layers(), cursor_only_plot_layers().as_slice());
}

#[test]
fn partial_plan_uses_single_lwc_pane_invalidation_as_target() {
    let main = PaneId::new(0);
    let aux = PaneId::new(1);
    let multi_pane = layered_with_panes(&[main, aux]);
    let legacy_pending = InvalidationMask::light();
    let lwc_pane_ids = vec![main, aux];

    let mut lwc_pending = lwc::InvalidateMask::new(lwc::InvalidationLevel::Cursor);
    lwc_pending.invalidate_pane(
        1,
        lwc::PaneInvalidation { level: lwc::InvalidationLevel::Light, auto_scale: false },
    );

    let plan = PartialCairoRenderPlan::build_from_masks(
        legacy_pending,
        &[],
        Some(&lwc_pending),
        &lwc_pane_ids,
        &multi_pane,
    )
    .expect("plan");
    assert!(!plan.targets_pane(main));
    assert!(plan.targets_pane(aux));
}

#[test]
fn partial_plan_uses_multiple_lwc_pane_invalidations_as_targets() {
    let main = PaneId::new(0);
    let pane_a = PaneId::new(1);
    let pane_b = PaneId::new(2);
    let multi_pane = layered_with_panes(&[main, pane_a, pane_b]);
    let legacy_pending = InvalidationMask::light();
    let lwc_pane_ids = vec![main, pane_a, pane_b];

    let mut lwc_pending = lwc::InvalidateMask::new(lwc::InvalidationLevel::Light);
    lwc_pending.invalidate_pane(
        1,
        lwc::PaneInvalidation { level: lwc::InvalidationLevel::Light, auto_scale: false },
    );
    lwc_pending.invalidate_pane(
        2,
        lwc::PaneInvalidation { level: lwc::InvalidationLevel::Light, auto_scale: false },
    );

    let plan = PartialCairoRenderPlan::build_from_masks(
        legacy_pending,
        &[],
        Some(&lwc_pending),
        &lwc_pane_ids,
        &multi_pane,
    )
    .expect("plan");
    assert!(!plan.targets_pane(main));
    assert!(plan.targets_pane(pane_a));
    assert!(plan.targets_pane(pane_b));
}

#[test]
fn partial_plan_falls_back_to_full_for_lwc_cursor_with_time_scale_mutation() {
    let main = PaneId::new(0);
    let aux = PaneId::new(1);
    let multi_pane = layered_with_panes(&[main, aux]);
    let legacy_pending = InvalidationMask::cursor();
    let lwc_pane_ids = vec![main, aux];

    let mut lwc_pending = lwc::InvalidateMask::new(lwc::InvalidationLevel::Cursor);
    lwc_pending.set_bar_spacing(8.0f64.to_bits());

    let plan = PartialCairoRenderPlan::build_from_masks(
        legacy_pending,
        &[],
        Some(&lwc_pending),
        &lwc_pane_ids,
        &multi_pane,
    );
    assert!(plan.is_none());
}

#[test]
fn partial_plan_falls_back_to_full_for_lwc_autoscale_invalidation() {
    let main = PaneId::new(0);
    let aux = PaneId::new(1);
    let multi_pane = layered_with_panes(&[main, aux]);
    let legacy_pending = InvalidationMask::light();
    let lwc_pane_ids = vec![main, aux];

    let mut lwc_pending = lwc::InvalidateMask::new(lwc::InvalidationLevel::Light);
    lwc_pending.invalidate_pane(
        1,
        lwc::PaneInvalidation { level: lwc::InvalidationLevel::Light, auto_scale: true },
    );

    let plan = PartialCairoRenderPlan::build_from_masks(
        legacy_pending,
        &[],
        Some(&lwc_pending),
        &lwc_pane_ids,
        &multi_pane,
    );
    assert!(plan.is_none());
}

#[test]
fn partial_plan_falls_back_to_full_when_api_mask_contains_time_scale_topic() {
    let main = PaneId::new(0);
    let aux = PaneId::new(1);
    let multi_pane = layered_with_panes(&[main, aux]);
    let legacy_pending = InvalidationMask::with_level_and_topics(
        InvalidationLevel::Light,
        InvalidationTopics::from_topic(InvalidationTopic::TimeScale),
    );
    let lwc_pane_ids = vec![main, aux];
    let lwc_pending = lwc::InvalidateMask::new(lwc::InvalidationLevel::Cursor);

    let plan = PartialCairoRenderPlan::build_from_masks(
        legacy_pending,
        &[],
        Some(&lwc_pending),
        &lwc_pane_ids,
        &multi_pane,
    );
    assert!(plan.is_none());
}

#[test]
fn partial_plan_uses_api_pane_targets_when_provided() {
    let main = PaneId::new(0);
    let pane_a = PaneId::new(1);
    let pane_b = PaneId::new(2);
    let multi_pane = layered_with_panes(&[main, pane_a, pane_b]);
    let pending = InvalidationMask::with_level_and_topics(
        InvalidationLevel::Light,
        InvalidationTopics::from_topic(InvalidationTopic::Series),
    );

    let plan = PartialCairoRenderPlan::build(pending, &[pane_a, pane_b], &multi_pane).expect("plan");
    assert!(!plan.targets_pane(main));
    assert!(plan.targets_pane(pane_a));
    assert!(plan.targets_pane(pane_b));
}

#[test]
fn policy_rejects_single_pane_layered_frames() {
    let layered = layered_with_panes(&[PaneId::new(0)]);
    let api_pending = InvalidationMask::light();
    let lwc_pending = lwc::InvalidateMask::new(lwc::InvalidationLevel::Cursor);
    let lwc_pane_ids = vec![PaneId::new(0)];

    let policy = resolve_lwc_partial_render_policy(api_pending, &lwc_pending, &lwc_pane_ids, &layered);
    assert!(policy.is_none());
}

#[test]
fn policy_rejects_api_time_scale_topic_requests() {
    let layered = layered_with_panes(&[PaneId::new(0), PaneId::new(1)]);
    let api_pending = InvalidationMask::with_level_and_topics(
        InvalidationLevel::Light,
        InvalidationTopics::from_topic(InvalidationTopic::TimeScale),
    );
    let lwc_pending = lwc::InvalidateMask::new(lwc::InvalidationLevel::Cursor);
    let lwc_pane_ids = vec![PaneId::new(0), PaneId::new(1)];

    let policy = resolve_lwc_partial_render_policy(api_pending, &lwc_pending, &lwc_pane_ids, &layered);
    assert!(policy.is_none());
}

#[test]
fn policy_rejects_time_scale_mutations_inside_lwc_pending() {
    let layered = layered_with_panes(&[PaneId::new(0), PaneId::new(1)]);
    let api_pending = InvalidationMask::light();
    let mut lwc_pending = lwc::InvalidateMask::new(lwc::InvalidationLevel::Cursor);
    lwc_pending.set_bar_spacing(8.0f64.to_bits());
    let lwc_pane_ids = vec![PaneId::new(0), PaneId::new(1)];

    let policy = resolve_lwc_partial_render_policy(api_pending, &lwc_pending, &lwc_pane_ids, &layered);
    assert!(policy.is_none());
}

#[test]
fn policy_rejects_lwc_autoscale_pane_invalidations() {
    let layered = layered_with_panes(&[PaneId::new(0), PaneId::new(1)]);
    let api_pending = InvalidationMask::light();
    let mut lwc_pending = lwc::InvalidateMask::new(lwc::InvalidationLevel::Light);
    lwc_pending.invalidate_pane(
        1,
        lwc::PaneInvalidation { level: lwc::InvalidationLevel::Light, auto_scale: true },
    );
    let lwc_pane_ids = vec![PaneId::new(0), PaneId::new(1)];

    let policy = resolve_lwc_partial_render_policy(api_pending, &lwc_pending, &lwc_pane_ids, &layered);
    assert!(policy.is_none());
}

#[test]
fn policy_detects_cursor_only_lwc_invalidations() {
    let layered = layered_with_panes(&[PaneId::new(0), PaneId::new(1)]);
    let api_pending = InvalidationMask::light();
    let lwc_pending = lwc::InvalidateMask::new(lwc::InvalidationLevel::Cursor);
    let lwc_pane_ids = vec![PaneId::new(0), PaneId::new(1)];

    let policy = resolve_lwc_partial_render_policy(api_pending, &lwc_pending, &lwc_pane_ids, &layered)
        .expect("policy");
    assert!(policy.cursor_only);
    assert!(policy.explicit_pane_targets.is_none());
}

#[test]
fn policy_collects_explicit_known_pane_targets() {
    let main = PaneId::new(0);
    let pane = PaneId::new(1);
    let layered = layered_with_panes(&[main, pane]);
    let api_pending = InvalidationMask::light();
    let mut lwc_pending = lwc::InvalidateMask::new(lwc::InvalidationLevel::Light);
    lwc_pending.invalidate_pane(
        1,
        lwc::PaneInvalidation { level: lwc::InvalidationLevel::Light, auto_scale: false },
    );
    let lwc_pane_ids = vec![main, pane];

    let policy = resolve_lwc_partial_render_policy(api_pending, &lwc_pending, &lwc_pane_ids, &layered)
        .expect("policy");

    assert_eq!(policy.explicit_pane_targets, Some(vec![pane]));
    assert!(!policy.cursor_only);
}

#[test]
fn collect_known_targets_sorts_dedups_and_drops_unknown() {
    let layered = layered_with_panes(&[PaneId::new(5), PaneId::new(2), PaneId::new(9)]);
    let targets = collect_known_pane_targets(
        &[PaneId::new(9), PaneId::new(2), PaneId::new(7), PaneId::new(9), PaneId::new(5)],
        &layered,
    );
    assert_eq!(targets, vec![PaneId::new(2), PaneId::new(5), PaneId::new(9)]);
}

#[test]
fn resolve_api_pane_targets_is_none_for_empty_or_unknown_requests() {
    let layered = layered_with_panes(&[PaneId::new(0), PaneId::new(1)]);
    assert!(resolve_api_pane_targets(&[], &layered).is_none());
    assert!(resolve_api_pane_targets(&[PaneId::new(4)], &layered).is_none());
    assert_eq!(resolve_api_pane_targets(&[PaneId::new(1), PaneId::new(0)], &layered), Some(vec![PaneId::new(0), PaneId::new(1)]));
}

#[test]
fn layered_frame_uses_canonical_layer_order() {
    let layered = layered_with_panes(&[PaneId::new(3)]);
    assert_eq!(layered.panes.len(), 1);
    assert_eq!(layered.panes[0].pane_id, PaneId::new(3));
    assert_eq!(
        layered.panes[0].layers,
        vec![
            CanvasLayerKind::Background,
            CanvasLayerKind::Grid,
            CanvasLayerKind::Series,
            CanvasLayerKind::Overlay,
            CanvasLayerKind::Crosshair,
            CanvasLayerKind::Axis
        ]
    );
}
