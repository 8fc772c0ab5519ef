//! Tests for the path normalizer: one Begin and one End per subpath, and the
//! implicit-close inference within the 0.01-unit epsilon.

use piet_hardware::geometry::PointFx;
use piet_hardware::path::{normalize, PathEvent, PathInstruction};

fn pt(x: i64, y: i64) -> PointFx {
    PointFx { x, y }
}

fn count_begins(events: &[PathEvent]) -> usize {
    events.iter().filter(|e| matches!(e, PathEvent::Begin { .. })).count()
}

fn count_ends(events: &[PathEvent]) -> usize {
    events.iter().filter(|e| matches!(e, PathEvent::End { .. })).count()
}

#[test]
fn square_with_explicit_close() {
    // A 10-by-10-unit square (10000 subunits a side), explicitly closed.
    let els = vec![
        PathInstruction::MoveTo(pt(0, 0)),
        PathInstruction::LineTo(pt(10_000, 0)),
        PathInstruction::LineTo(pt(10_000, 10_000)),
        PathInstruction::LineTo(pt(0, 10_000)),
        PathInstruction::ClosePath,
    ];
    let events = normalize(&els);
    assert_eq!(events.len(), 5);
    assert_eq!(events[0], PathEvent::Begin { at: pt(0, 0) });
    assert_eq!(events[1], PathEvent::Line { from: pt(0, 0), to: pt(10_000, 0) });
    assert_eq!(events[2], PathEvent::Line { from: pt(10_000, 0), to: pt(10_000, 10_000) });
    assert_eq!(events[3], PathEvent::Line { from: pt(10_000, 10_000), to: pt(0, 10_000) });
    assert_eq!(
        events[4],
        PathEvent::End { first: pt(0, 0), last: pt(0, 10_000), close: true }
    );
    assert_eq!(count_begins(&events), 1);
    assert_eq!(count_ends(&events), 1);
}

#[test]
fn implicit_close_within_epsilon() {
    // The last point returns to within 0.01 units (10 subunits) of the first:
    // close is inferred without an explicit close instruction.
    let els = vec![
        PathInstruction::MoveTo(pt(0, 0)),
        PathInstruction::LineTo(pt(10_000, 0)),
        PathInstruction::LineTo(pt(4, 9)),
    ];
    let events = normalize(&els);
    assert_eq!(
        events[3],
        PathEvent::End { first: pt(0, 0), last: pt(4, 9), close: true }
    );
}

#[test]
fn endpoints_apart_leave_subpath_open() {
    // 10 subunits is exactly the epsilon: not strictly within, so no close.
    let els = vec![
        PathInstruction::MoveTo(pt(0, 0)),
        PathInstruction::LineTo(pt(10_000, 0)),
        PathInstruction::LineTo(pt(10, 0)),
    ];
    let events = normalize(&els);
    assert_eq!(
        events[3],
        PathEvent::End { first: pt(0, 0), last: pt(10, 0), close: false }
    );
}

#[test]
fn two_subpaths_each_get_begin_and_end() {
    let els = vec![
        PathInstruction::MoveTo(pt(0, 0)),
        PathInstruction::LineTo(pt(5_000, 0)),
        PathInstruction::MoveTo(pt(20_000, 0)),
        PathInstruction::LineTo(pt(25_000, 0)),
    ];
    let events = normalize(&els);
    assert_eq!(events.len(), 6);
    assert_eq!(events[0], PathEvent::Begin { at: pt(0, 0) });
    assert_eq!(
        events[2],
        PathEvent::End { first: pt(0, 0), last: pt(5_000, 0), close: false }
    );
    assert_eq!(events[3], PathEvent::Begin { at: pt(20_000, 0) });
    assert_eq!(
        events[5],
        PathEvent::End { first: pt(20_000, 0), last: pt(25_000, 0), close: false }
    );
    assert_eq!(count_begins(&events), 2);
    assert_eq!(count_ends(&events), 2);
}

#[test]
fn lone_move_is_a_closed_point_subpath() {
    // A subpath of one point: its first and last points coincide, so its end
    // is inferred closed.
    let els = vec![PathInstruction::MoveTo(pt(5, 5))];
    let events = normalize(&els);
    assert_eq!(events.len(), 2);
    assert_eq!(events[0], PathEvent::Begin { at: pt(5, 5) });
    assert_eq!(events[1], PathEvent::End { first: pt(5, 5), last: pt(5, 5), close: true });
}

#[test]
fn close_with_nothing_open_is_a_no_op() {
    let els = vec![
        PathInstruction::MoveTo(pt(0, 0)),
        PathInstruction::LineTo(pt(5_000, 0)),
        PathInstruction::ClosePath,
        PathInstruction::ClosePath,
    ];
    let events = normalize(&els);
    assert_eq!(events.len(), 3);
    assert_eq!(
        events[2],
        PathEvent::End { first: pt(0, 0), last: pt(5_000, 0), close: true }
    );
    assert_eq!(count_ends(&events), 1);
}

#[test]
fn quadratic_and_cubic_segments_chain_the_current_point() {
    let els = vec![
        PathInstruction::MoveTo(pt(0, 0)),
        PathInstruction::QuadTo(pt(1_000, 2_000), pt(3_000, 0)),
        PathInstruction::CurveTo(pt(4_000, 1_000), pt(5_000, 2_000), pt(6_000, 0)),
    ];
    let events = normalize(&els);
    assert_eq!(
        events[1],
        PathEvent::Quadratic { from: pt(0, 0), ctrl: pt(1_000, 2_000), to: pt(3_000, 0) }
    );
    assert_eq!(
        events[2],
        PathEvent::Cubic {
            from: pt(3_000, 0),
            ctrl1: pt(4_000, 1_000),
            ctrl2: pt(5_000, 2_000),
            to: pt(6_000, 0),
        }
    );
    assert_eq!(
        events[3],
        PathEvent::End { first: pt(0, 0), last: pt(6_000, 0), close: false }
    );
}

#[test]
fn empty_path_yields_no_events() {
    let els: Vec<PathInstruction> = Vec::new();
    let events = normalize(&els);
    assert!(events.is_empty());
}
