use chart_rs::extensions::compare_marker_placement;
use chart_rs::lwc_price_scale::{PriceScaleMode, PriceScaleState, PriceScaleStateChange};
use chart_rs::pane::{PaneCollection, PaneId};
use chart_rs::series::{points_in_time_window, DataPoint};

fn b(v: f64) -> u64 {
    v.to_bits()
}

#[test]
fn empty_price_scale_change_keeps_the_state() {
    let state = PriceScaleState { auto_scale: false, is_inverted: true, mode: PriceScaleMode::Logarithmic };
    assert_eq!(state.apply_change(PriceScaleStateChange::default()), state);
}

#[test]
fn price_scale_change_applied_twice_is_applied_once() {
    let state = PriceScaleState { auto_scale: false, is_inverted: false, mode: PriceScaleMode::Normal };
    let change = PriceScaleStateChange { auto_scale: Some(false), is_inverted: Some(true), mode: Some(PriceScaleMode::Logarithmic) };
    let once = state.apply_change(change);
    assert_eq!(once.apply_change(change), once);
    assert_eq!(once, PriceScaleState { auto_scale: false, is_inverted: true, mode: PriceScaleMode::Logarithmic });
}

#[test]
fn percentage_modes_turn_auto_scale_on() {
    let state = PriceScaleState { auto_scale: false, is_inverted: false, mode: PriceScaleMode::Normal };
    for mode in [PriceScaleMode::Percentage, PriceScaleMode::IndexedTo100] {
        let change = PriceScaleStateChange { auto_scale: Some(false), is_inverted: None, mode: Some(mode) };
        assert!(state.apply_change(change).auto_scale);
    }
    assert!(state.leaves_logarithmic(PriceScaleState { mode: PriceScaleMode::Normal, ..state }) == false);
    let log = PriceScaleState { mode: PriceScaleMode::Logarithmic, ..state };
    assert!(log.leaves_logarithmic(state));
    assert!(state.enters_logarithmic(log));
}

#[test]
fn removing_a_created_pane_restores_the_panes() {
    let mut panes = PaneCollection::default();
    let before: Vec<_> = panes.panes().to_vec();
    let id = panes.create_pane(b(2.0)).unwrap();
    assert_eq!(panes.remove_pane(id), Ok(true));
    assert_eq!(panes.panes(), &before[..]);
    assert!(!panes.contains(id));
    assert!(panes.contains(PaneId::new(0)));
}

#[test]
fn marker_order_is_antisymmetric_and_transitive() {
    let markers = [(b(1.0), 2, "b", 0usize), (b(1.0), 2, "a", 1), (b(-0.0), 5, "c", 2), (b(f64::NAN), 0, "a", 3), (b(0.0), 5, "c", 4)];
    for a in markers {
        for c in markers {
            let ac = compare_marker_placement(a.0, a.1, a.2, a.3, c.0, c.1, c.2, c.3);
            let ca = compare_marker_placement(c.0, c.1, c.2, c.3, a.0, a.1, a.2, a.3);
            assert_eq!(ac, -ca);
            for m in markers {
                let am = compare_marker_placement(a.0, a.1, a.2, a.3, m.0, m.1, m.2, m.3);
                let mc = compare_marker_placement(m.0, m.1, m.2, m.3, c.0, c.1, c.2, c.3);
                if am <= 0 && mc <= 0 {
                    assert!(ac <= 0);
                }
            }
        }
    }
}

#[test]
fn time_window_does_not_depend_on_the_order_of_its_ends() {
    let points = vec![DataPoint::new(b(-1.0), b(0.0)), DataPoint::new(b(0.0), b(0.0)), DataPoint::new(b(5.0), b(0.0))];
    assert_eq!(points_in_time_window(&points, b(-0.0), b(5.0)), points_in_time_window(&points, b(5.0), b(0.0)));
    assert_eq!(points_in_time_window(&points, b(-0.0), b(5.0)).len(), 2);
}
