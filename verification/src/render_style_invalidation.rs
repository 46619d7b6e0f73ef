use vstd::prelude::*;

use crate::float_bits::{bits_eq, eq};
use crate::invalidation::{InvalidationTopic, InvalidationTopics};
use crate::render_style::{render_style_eq, RenderStyle};
use crate::validation::{render_style_requirement, render_style_valid};

verus! {

/// What a change of render style asks to redraw.
#[derive(Debug, Clone, Copy, PartialEq, Eq, Structural)]
pub enum RenderStyleInvalidationDecision {
    /// The style did not change.
    Nothing,
    /// The plot area moved: everything is redrawn.
    Full,
    /// Only the given topics are redrawn.
    Light(InvalidationTopics),
}

/// The topics redrawn after a style change that keeps the layout.
pub open spec fn render_style_light_topics_set() -> Set<InvalidationTopic> {
    set![
        InvalidationTopic::Style,
        InvalidationTopic::Axis,
        InvalidationTopic::Series,
        InvalidationTopic::Cursor,
    ]
}

/// The axis panels changed size, which moves the plot area.
pub open spec fn render_style_layout_changed_spec(previous: RenderStyle, next: RenderStyle) -> bool {
    !eq(previous.price_axis_width_px, next.price_axis_width_px) || !eq(
        previous.time_axis_height_px,
        next.time_axis_height_px,
    )
}

/// The decision for a change from `previous` to `next`.
pub open spec fn render_style_decision(
    previous: RenderStyle,
    next: RenderStyle,
    r: RenderStyleInvalidationDecision,
) -> bool {
    if render_style_eq(previous, next) {
        r is Nothing
    } else if render_style_layout_changed_spec(previous, next) {
        r is Full
    } else {
        r matches RenderStyleInvalidationDecision::Light(t) && t@ == render_style_light_topics_set()
    }
}

/// The topics redrawn after a style change that keeps the layout: style, axis, series and
/// cursor.
pub fn render_style_light_topics() -> (r: InvalidationTopics)
    ensures
        r@ == render_style_light_topics_set(),
{
    let r = InvalidationTopics::from_topic(InvalidationTopic::Style).with_topic(
        InvalidationTopic::Axis,
    ).with_topic(InvalidationTopic::Series).with_topic(InvalidationTopic::Cursor);
    assert(r@ =~= render_style_light_topics_set());
    r
}

fn render_style_layout_changed(previous: &RenderStyle, next: &RenderStyle) -> (r: bool)
    ensures
        r == render_style_layout_changed_spec(*previous, *next),
{
    !bits_eq(previous.price_axis_width_px, next.price_axis_width_px) || !bits_eq(
        previous.time_axis_height_px,
        next.time_axis_height_px,
    )
}

/// Decides what a change of render style asks to redraw: nothing when the styles are equal,
/// everything when an axis panel changed size, and otherwise the light topics.
pub fn resolve_render_style_invalidation(previous: RenderStyle, next: RenderStyle) -> (r:
    RenderStyleInvalidationDecision)
    ensures
        render_style_decision(previous, next, r),
{
    if previous == next {
        return RenderStyleInvalidationDecision::Nothing;
    }
    if render_style_layout_changed(&previous, &next) {
        return RenderStyleInvalidationDecision::Full;
    }
    RenderStyleInvalidationDecision::Light(render_style_light_topics())
}

/// A valid render style equals itself, so setting it again asks for no redraw.
pub proof fn lemma_valid_render_style_unchanged(s: RenderStyle)
    requires
        render_style_valid(s),
    ensures
        render_style_eq(s, s),
        render_style_decision(s, s, RenderStyleInvalidationDecision::Nothing),
{
    assert(render_style_requirement(s, 0).0);
    assert(render_style_requirement(s, 1).0);
    assert(render_style_requirement(s, 2).0);
    assert(render_style_requirement(s, 3).0);
    assert(render_style_requirement(s, 4).0);
    assert(render_style_requirement(s, 5).0);
    assert(render_style_requirement(s, 6).0);
    assert(render_style_requirement(s, 7).0);
    assert(render_style_requirement(s, 8).0);
    assert(render_style_requirement(s, 9).0);
    assert(render_style_requirement(s, 10).0);
    assert(render_style_requirement(s, 11).0);
    assert(render_style_requirement(s, 12).0);
    assert(render_style_requirement(s, 13).0);
    assert(render_style_requirement(s, 14).0);
    assert(render_style_requirement(s, 15).0);
    assert(render_style_requirement(s, 16).0);
    assert(render_style_requirement(s, 17).0);
    assert(render_style_requirement(s, 18).0);
    assert(render_style_requirement(s, 19).0);
    assert(render_style_requirement(s, 20).0);
    assert(render_style_requirement(s, 21).0);
    assert(render_style_requirement(s, 22).0);
    assert(render_style_requirement(s, 23).0);
    assert(render_style_requirement(s, 24).0);
    assert(render_style_requirement(s, 25).0);
    assert(render_style_requirement(s, 26).0);
    assert(render_style_requirement(s, 27).0);
    assert(render_style_requirement(s, 28).0);
    assert(render_style_requirement(s, 29).0);
    assert(render_style_requirement(s, 30).0);
    assert(render_style_requirement(s, 31).0);
    assert(render_style_requirement(s, 32).0);
    assert(render_style_requirement(s, 33).0);
    assert(render_style_requirement(s, 34).0);
    assert(render_style_requirement(s, 35).0);
    assert(render_style_requirement(s, 36).0);
    assert(render_style_requirement(s, 37).0);
    assert(render_style_requirement(s, 38).0);
    assert(render_style_requirement(s, 39).0);
    assert(render_style_requirement(s, 40).0);
    assert(render_style_requirement(s, 41).0);
    assert(render_style_requirement(s, 42).0);
    assert(render_style_requirement(s, 43).0);
    assert(render_style_requirement(s, 44).0);
    assert(render_style_requirement(s, 45).0);
    assert(render_style_requirement(s, 46).0);
    assert(render_style_requirement(s, 47).0);
    assert(render_style_requirement(s, 48).0);
    assert(render_style_requirement(s, 49).0);
    assert(render_style_requirement(s, 50).0);
    assert(render_style_requirement(s, 51).0);
    assert(render_style_requirement(s, 52).0);
    assert(render_style_requirement(s, 53).0);
    assert(render_style_requirement(s, 54).0);
    assert(render_style_requirement(s, 55).0);
    assert(render_style_requirement(s, 56).0);
    assert(render_style_requirement(s, 57).0);
    assert(render_style_requirement(s, 58).0);
    assert(render_style_requirement(s, 59).0);
    assert(render_style_requirement(s, 60).0);
    assert(render_style_requirement(s, 61).0);
    assert(render_style_requirement(s, 62).0);
    assert(render_style_requirement(s, 63).0);
    assert(render_style_requirement(s, 64).0);
    assert(render_style_requirement(s, 65).0);
    assert(render_style_requirement(s, 66).0);
    assert(render_style_requirement(s, 67).0);
    assert(render_style_requirement(s, 68).0);
    assert(render_style_requirement(s, 69).0);
    assert(render_style_requirement(s, 70).0);
    assert(render_style_requirement(s, 71).0);
    assert(render_style_requirement(s, 72).0);
    assert(render_style_requirement(s, 73).0);
    assert(render_style_requirement(s, 74).0);
    assert(render_style_requirement(s, 75).0);
    assert(render_style_requirement(s, 76).0);
    assert(render_style_requirement(s, 77).0);
    assert(render_style_requirement(s, 78).0);
    assert(render_style_requirement(s, 79).0);
    assert(render_style_requirement(s, 80).0);
    assert(render_style_requirement(s, 81).0);
    assert(render_style_requirement(s, 82).0);
    assert(render_style_requirement(s, 83).0);
    assert(render_style_requirement(s, 84).0);
    assert(render_style_requirement(s, 85).0);
    assert(render_style_requirement(s, 86).0);
    assert(render_style_requirement(s, 87).0);
    assert(render_style_requirement(s, 88).0);
    assert(render_style_requirement(s, 89).0);
    assert(render_style_requirement(s, 90).0);
    assert(render_style_requirement(s, 91).0);
    assert(render_style_requirement(s, 92).0);
    assert(render_style_requirement(s, 93).0);
}


/// When an axis panel changes size (the price-axis width or the time-axis height differ as
/// `f64` values) the plot area moves, so the decision is a full redraw; and a full redraw is
/// decided only then.
pub proof fn lemma_axis_panel_resize_is_full(
    previous: RenderStyle,
    next: RenderStyle,
    r: RenderStyleInvalidationDecision,
)
    requires
        render_style_decision(previous, next, r),
    ensures
        !eq(previous.time_axis_height_px, next.time_axis_height_px) ==> r is Full,
        !eq(previous.price_axis_width_px, next.price_axis_width_px) ==> r is Full,
        r is Full ==> !eq(previous.time_axis_height_px, next.time_axis_height_px) || !eq(
            previous.price_axis_width_px,
            next.price_axis_width_px,
        ),
{
    if !eq(previous.time_axis_height_px, next.time_axis_height_px) || !eq(
        previous.price_axis_width_px,
        next.price_axis_width_px,
    ) {
        assert(!crate::render_style::axis_metrics_eq(previous, next));
        assert(!render_style_eq(previous, next));
    }
}

} // verus!
