use emergency_backup::confirm::{Confirm, ConfirmOutcome};
use emergency_backup::geometry::Point;
use emergency_backup::rectangle::{GestureStatus, RectPhase, Rectangle};

fn pt(x: i32, y: i32) -> Point {
    Point::new(x, y)
}

#[test]
fn rectangle_full_traversal_arms() {
    let mut r = Rectangle::new(pt(0, 0), 100, 50, 10);
    let samples = vec![
        pt(50, 5),
        pt(100, 0),
        pt(105, 20),
        pt(100, 50),
        pt(50, 45),
        pt(0, 50),
        pt(5, 25),
        pt(0, 0),
    ];
    assert!(r.draw_rectangle(&samples));
    assert_eq!(r.phase, RectPhase::Done);
}

#[test]
fn rectangle_band_violation_fails_despite_later_samples() {
    let mut r = Rectangle::new(pt(0, 0), 100, 50, 10);
    let samples = vec![
        pt(50, 5),
        pt(60, 20), // 20 is outside the +/-10 band of the first leg
        pt(100, 0),
        pt(100, 50),
        pt(0, 50),
        pt(0, 0),
    ];
    assert!(!r.draw_rectangle(&samples));
    assert_eq!(r.phase, RectPhase::Failed);
}

#[test]
fn rectangle_incomplete_traversal_is_not_armed() {
    let mut r = Rectangle::new(pt(0, 0), 100, 50, 10);
    let samples = vec![pt(50, 5), pt(100, 0), pt(105, 20)];
    assert!(!r.draw_rectangle(&samples));
    assert_eq!(r.phase, RectPhase::Down);
}

#[test]
fn rectangle_step_reports_progress() {
    let mut r = Rectangle::new(pt(0, 0), 10, 10, 5);
    assert_eq!(r.step(pt(3, 2)), GestureStatus::InProgress);
    assert_eq!(r.step(pt(10, 0)), GestureStatus::InProgress);
    assert_eq!(r.step(pt(10, 10)), GestureStatus::InProgress);
    assert_eq!(r.step(pt(0, 10)), GestureStatus::InProgress);
    assert_eq!(r.step(pt(0, 0)), GestureStatus::Armed);
    // terminal phases absorb further samples
    assert_eq!(r.step(pt(500, 500)), GestureStatus::Armed);
}

#[test]
fn rectangle_set_position_moves_anchor() {
    let mut r = Rectangle::new(pt(0, 0), 10, 10, 5);
    r.set_position(7, 9);
    assert_eq!(r.x, 7);
    assert_eq!(r.y, 9);
}

#[test]
fn confirm_positive_then_negative_confirms() {
    // diagonal down-right, then straight down past the depth
    let mut c = Confirm::new(pt(0, 0), 10, 100, 20);
    let samples = vec![pt(30, 30), pt(60, 60), pt(60, 100)];
    assert_eq!(c.confirm(&samples), Some(true));
}

#[test]
fn confirm_negative_then_positive_aborts() {
    // straight down, then diagonal down-right past the depth
    let mut c = Confirm::new(pt(0, 0), 10, 100, 20);
    let samples = vec![pt(0, 30), pt(40, 70), pt(110, 140)];
    assert_eq!(c.confirm(&samples), Some(false));
}

#[test]
fn confirm_short_pattern_stays_undecided() {
    let mut c = Confirm::new(pt(0, 0), 10, 1000, 20);
    let samples = vec![pt(30, 30), pt(60, 60), pt(60, 100)];
    assert_eq!(c.confirm(&samples), None);
}

#[test]
fn confirm_unclassifiable_sample_resets_history() {
    let mut c = Confirm::new(pt(0, 0), 10, 100, 20);
    // a good diagonal, then a move up-left that fits neither direction
    assert_eq!(c.step(false, pt(30, 30)), ConfirmOutcome::Pending);
    assert_eq!(c.step(false, pt(-20, -20)), ConfirmOutcome::Pending);
    // the pattern must now be built afresh from (-20, -20)
    assert_eq!(c.step(false, pt(10, 10)), ConfirmOutcome::Pending);
    assert_eq!(c.step(false, pt(40, 40)), ConfirmOutcome::Pending);
    assert_eq!(c.step(false, pt(40, 75)), ConfirmOutcome::Pending);
    // vertical displacement from (-20,-20) reaches 100 only now
    assert_eq!(c.step(false, pt(40, 85)), ConfirmOutcome::Decided(true));
}

#[test]
fn confirm_cancellation_returns_false_and_keeps_state() {
    let mut c = Confirm::new(pt(0, 0), 10, 100, 20);
    assert_eq!(c.step(false, pt(30, 30)), ConfirmOutcome::Pending);
    let before = c;
    // external decision reported: abort immediately, touch nothing
    assert_eq!(c.step(true, pt(60, 60)), ConfirmOutcome::Decided(false));
    assert_eq!(c, before);
    // the untouched detector still recognises the rest of the pattern
    assert_eq!(c.step(false, pt(60, 60)), ConfirmOutcome::Pending);
    assert_eq!(c.step(false, pt(60, 100)), ConfirmOutcome::Decided(true));
}

#[test]
fn confirm_decision_is_final() {
    let mut c = Confirm::new(pt(0, 0), 10, 100, 20);
    let samples = vec![pt(30, 30), pt(60, 60), pt(60, 100)];
    assert_eq!(c.confirm(&samples), Some(true));
    assert_eq!(c.step(false, pt(-500, -500)), ConfirmOutcome::Decided(true));
}
