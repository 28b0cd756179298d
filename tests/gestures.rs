use kaesar_core::geom::{Axis, DiagDir, Dir, Point};
use kaesar_core::input::gestures::state_machine::{StateMachine, TouchStates};
use kaesar_core::input::gestures::{
    abs_variance, elbow, interpret_double_gesture, interpret_segment, is_within_jitter,
    x_y_variance, GestureEvent, Scale,
};
use kaesar_core::input::{ButtonCode, ButtonStatus, DeviceEvent, FingerStatus};

const DPI: u16 = 300;

fn pt(x: i32, y: i32) -> Point {
    Point::new(x, y)
}

fn finger(id: i32, time_ms: u64, status: FingerStatus, x: i32, y: i32) -> DeviceEvent {
    DeviceEvent::Finger { id, time: time_ms * 1000, status, position: pt(x, y) }
}

fn button(time_ms: u64, code: ButtonCode, status: ButtonStatus) -> DeviceEvent {
    DeviceEvent::Button { time: time_ms * 1000, code, status }
}

fn feed(mut sm: StateMachine, evs: &[DeviceEvent], out: &mut Vec<GestureEvent>) -> StateMachine {
    for ev in evs {
        sm = sm.transition(*ev, out);
    }
    sm
}

fn is_untouched(sm: &StateMachine) -> bool {
    matches!(sm.state, TouchStates::NoTouch)
}

#[test]
fn tap_inside_jitter_gives_one_tap() {
    let evs = [
        finger(1, 0, FingerStatus::Down, 100, 100),
        finger(1, 20, FingerStatus::Motion, 102, 101),
        finger(1, 40, FingerStatus::Motion, 99, 100),
        finger(1, 60, FingerStatus::Motion, 101, 98),
        finger(1, 100, FingerStatus::Up, 101, 98),
    ];
    let mut out = Vec::new();
    let sm = feed(StateMachine::new(DPI), &evs, &mut out);
    assert_eq!(out, vec![GestureEvent::Tap(pt(100, 100))]);
    assert!(is_untouched(&sm));
}

#[test]
fn hold_escalates_once_short_then_once_long() {
    let mut evs = vec![finger(7, 0, FingerStatus::Down, 200, 300)];
    let mut t = 20;
    while t <= 2000 {
        evs.push(finger(7, t, FingerStatus::Motion, 200 + (t as i32 / 20) % 2, 300));
        t += 20;
    }
    let mut out = Vec::new();
    let _ = feed(StateMachine::new(DPI), &evs, &mut out);
    assert_eq!(out.len(), 2);
    // 680 ms is the first sample past 666 ms; 1340 ms the first past 1333 ms.
    assert_eq!(out[0], GestureEvent::HoldFingerShort(pt(200, 300), 7));
    assert_eq!(out[1], GestureEvent::HoldFingerLong(pt(201, 300), 7));
}

#[test]
fn late_first_hold_sample_gives_long_hold_then_tap() {
    let evs = [
        finger(3, 0, FingerStatus::Down, 50, 50),
        finger(3, 1400, FingerStatus::Motion, 50, 50),
        finger(3, 1420, FingerStatus::Motion, 50, 50),
        finger(3, 1440, FingerStatus::Motion, 50, 50),
        finger(3, 1500, FingerStatus::Up, 50, 50),
    ];
    let mut out = Vec::new();
    let sm = feed(StateMachine::new(DPI), &evs, &mut out);
    // A long hold leaves the finger unheld: no short hold follows, and its
    // release is still a tap.
    assert_eq!(
        out,
        vec![GestureEvent::HoldFingerLong(pt(50, 50), 3), GestureEvent::Tap(pt(50, 50))]
    );
    assert!(is_untouched(&sm));
}

#[test]
fn movement_reported_once_per_window_and_history_cut_to_ten() {
    let mut sm = StateMachine::new(DPI);
    let mut out = Vec::new();
    sm = sm.transition(finger(1, 0, FingerStatus::Down, 0, 0), &mut out);
    for i in 1..=30 {
        sm = sm.transition(finger(1, i * 10, FingerStatus::Motion, i as i32 * 10, 0), &mut out);
    }
    assert_eq!(out, vec![GestureEvent::Movement { start: pt(0, 0), end: pt(300, 0) }]);
    match &sm.state {
        TouchStates::OneFinger(f) => {
            assert_eq!(f.positions.len(), 10);
            assert_eq!(f.positions[0], pt(210, 0));
            assert_eq!(f.positions[9], pt(300, 0));
        },
        _ => panic!("the finger should still be tracked"),
    }
    // Twenty more samples bring the history to thirty: no report yet.
    for i in 31..=50 {
        sm = sm.transition(finger(1, i * 10, FingerStatus::Motion, i as i32 * 10, 0), &mut out);
    }
    assert_eq!(out.len(), 1);
    sm = sm.transition(finger(1, 510, FingerStatus::Motion, 510, 0), &mut out);
    assert_eq!(out.len(), 2);
    assert_eq!(out[1], GestureEvent::Movement { start: pt(210, 0), end: pt(510, 0) });
    match &sm.state {
        TouchStates::OneFinger(f) => assert_eq!(f.positions.len(), 10),
        _ => panic!("the finger should still be tracked"),
    }
}

#[test]
fn swipe_ends_movement_and_is_classified() {
    let mut evs = vec![finger(1, 0, FingerStatus::Down, 100, 400)];
    for i in 1..=8 {
        evs.push(finger(1, i * 10, FingerStatus::Motion, 100 + i as i32 * 40, 400));
    }
    evs.push(finger(1, 100, FingerStatus::Up, 420, 400));
    let mut out = Vec::new();
    let sm = feed(StateMachine::new(DPI), &evs, &mut out);
    assert_eq!(
        out,
        vec![
            GestureEvent::MovementEnded,
            GestureEvent::Swipe { dir: Dir::Right, start: pt(100, 400), end: pt(420, 400) },
        ]
    );
    assert!(is_untouched(&sm));
}

#[test]
fn multitap_with_first_finger_released_first() {
    let evs = [
        finger(1, 0, FingerStatus::Down, 100, 100),
        finger(2, 10, FingerStatus::Down, 300, 300),
        finger(1, 30, FingerStatus::Motion, 101, 100),
        finger(2, 40, FingerStatus::Motion, 300, 302),
        finger(1, 80, FingerStatus::Up, 101, 100),
        finger(2, 90, FingerStatus::Up, 300, 302),
    ];
    let mut out = Vec::new();
    let sm = feed(StateMachine::new(DPI), &evs, &mut out);
    assert_eq!(out, vec![GestureEvent::MultiTap([pt(100, 100), pt(300, 300)])]);
    assert!(is_untouched(&sm));
}

#[test]
fn multitap_with_second_finger_released_first() {
    let evs = [
        finger(1, 0, FingerStatus::Down, 100, 100),
        finger(2, 10, FingerStatus::Down, 300, 300),
        finger(2, 80, FingerStatus::Up, 300, 300),
        finger(1, 90, FingerStatus::Up, 100, 100),
    ];
    let mut out = Vec::new();
    let mut sm = StateMachine::new(DPI);
    for (k, ev) in evs.iter().enumerate() {
        sm = sm.transition(*ev, &mut out);
        if k == 2 {
            // One finger is still down: nothing yet.
            assert!(out.is_empty());
            assert!(!is_untouched(&sm));
        }
    }
    assert_eq!(out, vec![GestureEvent::MultiTap([pt(100, 100), pt(300, 300)])]);
    assert!(is_untouched(&sm));
}

fn two_finger_swipe(s1: i32, e1: i32, s2: i32, e2: i32) -> Vec<GestureEvent> {
    let mut evs = vec![
        finger(1, 0, FingerStatus::Down, s1, 500),
        finger(2, 5, FingerStatus::Down, s2, 500),
    ];
    for i in 1..=10 {
        let t = 5 + i as u64 * 10;
        evs.push(finger(1, t, FingerStatus::Motion, s1 + (e1 - s1) * i / 10, 500));
        evs.push(finger(2, t + 1, FingerStatus::Motion, s2 + (e2 - s2) * i / 10, 500));
    }
    evs.push(finger(1, 200, FingerStatus::Up, e1, 500));
    evs.push(finger(2, 201, FingerStatus::Up, e2, 500));
    let mut out = Vec::new();
    let sm = feed(StateMachine::new(DPI), &evs, &mut out);
    assert!(is_untouched(&sm));
    out
}

#[test]
fn converging_fingers_pinch() {
    let out = two_finger_swipe(100, 300, 700, 500);
    assert_eq!(
        out,
        vec![GestureEvent::Pinch {
            axis: Axis::Horizontal,
            center: pt(400, 500),
            factor: Scale { start_sq: 360_000, end_sq: 40_000 },
        }]
    );
    if let GestureEvent::Pinch { factor, .. } = out[0] {
        assert!(factor.shrinks());
    }
}

#[test]
fn diverging_fingers_spread() {
    let out = two_finger_swipe(300, 100, 500, 700);
    assert_eq!(
        out,
        vec![GestureEvent::Spread {
            axis: Axis::Horizontal,
            center: pt(400, 500),
            factor: Scale { start_sq: 40_000, end_sq: 360_000 },
        }]
    );
    if let GestureEvent::Spread { factor, .. } = out[0] {
        assert!(!factor.shrinks());
    }
}

#[test]
fn parallel_fingers_give_nothing() {
    let out = two_finger_swipe(100, 300, 500, 700);
    assert!(out.is_empty());
}

#[test]
fn elbow_offset_of_exactly_a_fifth_is_linear() {
    let sp = [pt(0, 0), pt(50, 20), pt(100, 0)];
    assert_eq!(elbow(&sp), 1);
    assert_eq!(
        interpret_segment(&sp),
        GestureEvent::Swipe { dir: Dir::Right, start: pt(0, 0), end: pt(100, 0) }
    );
    let sp = [pt(0, 0), pt(50, 21), pt(100, 0)];
    assert_eq!(
        interpret_segment(&sp),
        GestureEvent::Arrow { dir: Dir::Down, start: pt(0, 0), end: pt(100, 0) }
    );
}

#[test]
fn segment_classes() {
    let slanted = [pt(0, 0), pt(50, 50), pt(100, 100)];
    assert_eq!(
        interpret_segment(&slanted),
        GestureEvent::SlantedSwipe { dir: DiagDir::DownRight, start: pt(0, 0), end: pt(100, 100) }
    );
    let up = [pt(10, 200), pt(12, 100), pt(10, 0)];
    assert_eq!(
        interpret_segment(&up),
        GestureEvent::Swipe { dir: Dir::Up, start: pt(10, 200), end: pt(10, 0) }
    );
    // An L drawn right then up: its elbow sits below-right of the chord.
    let corner = [pt(0, 100), pt(100, 100), pt(100, 0)];
    assert_eq!(
        interpret_segment(&corner),
        GestureEvent::Corner { dir: DiagDir::DownRight, start: pt(0, 100), end: pt(100, 0) }
    );
    // A back-and-forth stroke: first and last points coincide.
    let back = [pt(0, 0), pt(0, -80), pt(0, 0)];
    assert_eq!(
        interpret_segment(&back),
        GestureEvent::Arrow { dir: Dir::Up, start: pt(0, 0), end: pt(0, 0) }
    );
}

#[test]
fn slanted_swipes_in_opposite_directions_pinch_diagonally() {
    let f1 = [pt(0, 0), pt(50, 50), pt(100, 100)];
    let f2 = [pt(400, 400), pt(350, 350), pt(300, 300)];
    assert_eq!(
        interpret_double_gesture(&f1, &f2),
        Some(GestureEvent::Pinch {
            axis: Axis::Diagonal,
            center: pt(200, 200),
            factor: Scale { start_sq: 320_000, end_sq: 80_000 },
        })
    );
    let f3 = [pt(0, 0), pt(0, 50), pt(0, 100)];
    assert_eq!(interpret_double_gesture(&f1, &f3), None);
}

#[test]
fn pinch_center_rounds_towards_zero() {
    let f1 = [pt(-3, 0), pt(-103, 0)];
    let f2 = [pt(0, 0), pt(100, 0)];
    assert_eq!(
        interpret_double_gesture(&f1, &f2),
        Some(GestureEvent::Spread {
            axis: Axis::Horizontal,
            center: pt(-1, 0),
            factor: Scale { start_sq: 9, end_sq: 41_209 },
        })
    );
}

#[test]
fn reset_after_tap_makes_next_down_behave_as_first() {
    let first = [
        finger(4, 0, FingerStatus::Down, 10, 10),
        finger(4, 50, FingerStatus::Up, 10, 10),
    ];
    let mut out = Vec::new();
    let sm = feed(StateMachine::new(DPI), &first, &mut out);
    assert_eq!(out, vec![GestureEvent::Tap(pt(10, 10))]);
    assert!(is_untouched(&sm));

    let second = [
        finger(9, 1000, FingerStatus::Down, 500, 600),
        finger(9, 1800, FingerStatus::Motion, 500, 600),
        finger(9, 1900, FingerStatus::Up, 500, 600),
    ];
    let mut reused = Vec::new();
    let sm = feed(sm, &second, &mut reused);
    let mut fresh = Vec::new();
    let fresh_sm = feed(StateMachine::new(DPI), &second, &mut fresh);
    assert_eq!(reused, fresh);
    assert_eq!(reused, vec![GestureEvent::HoldFingerShort(pt(500, 600), 9)]);
    assert!(is_untouched(&sm) && is_untouched(&fresh_sm));
}

#[test]
fn third_finger_and_unknown_ids_are_ignored() {
    let evs = [
        finger(1, 0, FingerStatus::Down, 100, 100),
        finger(1, 5, FingerStatus::Down, 100, 100),
        finger(2, 10, FingerStatus::Down, 300, 300),
        finger(3, 20, FingerStatus::Down, 500, 500),
        finger(5, 25, FingerStatus::Motion, 900, 900),
        finger(5, 26, FingerStatus::Up, 900, 900),
        finger(1, 30, FingerStatus::Up, 100, 100),
        finger(2, 40, FingerStatus::Up, 300, 300),
    ];
    let mut out = Vec::new();
    let sm = feed(StateMachine::new(DPI), &evs, &mut out);
    assert_eq!(out, vec![GestureEvent::MultiTap([pt(100, 100), pt(300, 300)])]);
    assert!(is_untouched(&sm));
}

#[test]
fn events_without_a_down_are_ignored() {
    let evs = [
        finger(1, 0, FingerStatus::Motion, 100, 100),
        finger(1, 10, FingerStatus::Up, 100, 100),
        DeviceEvent::CoverOn,
    ];
    let mut out = Vec::new();
    let sm = feed(StateMachine::new(DPI), &evs, &mut out);
    assert!(out.is_empty());
    assert!(is_untouched(&sm));
}

#[test]
fn held_finger_blocks_second_finger_and_tap() {
    let evs = [
        finger(1, 0, FingerStatus::Down, 100, 100),
        finger(1, 700, FingerStatus::Motion, 100, 100),
        finger(2, 710, FingerStatus::Down, 300, 300),
        finger(1, 720, FingerStatus::Up, 100, 100),
    ];
    let mut out = Vec::new();
    let sm = feed(StateMachine::new(DPI), &evs, &mut out);
    assert_eq!(out, vec![GestureEvent::HoldFingerShort(pt(100, 100), 1)]);
    assert!(is_untouched(&sm));
}

#[test]
fn held_pair_resets_without_gesture() {
    let evs = [
        finger(1, 0, FingerStatus::Down, 100, 100),
        finger(2, 10, FingerStatus::Down, 300, 300),
        finger(2, 700, FingerStatus::Motion, 300, 300),
        finger(1, 720, FingerStatus::Up, 100, 100),
        finger(2, 730, FingerStatus::Up, 300, 300),
    ];
    let mut out = Vec::new();
    let sm = feed(StateMachine::new(DPI), &evs, &mut out);
    assert_eq!(out, vec![GestureEvent::HoldFingerShort(pt(300, 300), 2)]);
    assert!(is_untouched(&sm));
}

#[test]
fn button_hold_escalates_and_release_clears() {
    let evs = [
        button(0, ButtonCode::Power, ButtonStatus::Pressed),
        button(300, ButtonCode::Power, ButtonStatus::Pressed),
        button(700, ButtonCode::Power, ButtonStatus::Pressed),
        button(800, ButtonCode::Power, ButtonStatus::Repeated),
        button(900, ButtonCode::Power, ButtonStatus::Pressed),
        button(1400, ButtonCode::Home, ButtonStatus::Pressed),
        button(1500, ButtonCode::Power, ButtonStatus::Pressed),
        button(1600, ButtonCode::Power, ButtonStatus::Released),
        button(2000, ButtonCode::Power, ButtonStatus::Pressed),
        button(2100, ButtonCode::Power, ButtonStatus::Pressed),
    ];
    let mut out = Vec::new();
    let _ = feed(StateMachine::new(DPI), &evs, &mut out);
    assert_eq!(
        out,
        vec![
            GestureEvent::HoldButtonShort(ButtonCode::Power),
            GestureEvent::HoldButtonLong(ButtonCode::Home),
        ]
    );
}

#[test]
fn jitter_radius_follows_dpi() {
    let sm = StateMachine::new(DPI);
    assert_eq!(sm.tap_jitter_px, 47);
    assert_eq!(sm.hold_jitter_px, 23);
}

#[test]
fn within_jitter_uses_every_second_sample() {
    let pts = [pt(0, 0), pt(1000, 1000), pt(20, 0)];
    assert!(is_within_jitter(&pts, 10));
    assert!(!is_within_jitter(&pts, 9));
    let neg = [pt(0, 0), pt(0, 0), pt(-21, 0)];
    // The average -10.5 rounds towards zero.
    assert!(is_within_jitter(&neg, 10));
}

#[test]
fn variance_of_a_vertical_line() {
    let arr: Vec<Point> = (220..1024).map(|i| pt(1024, i)).collect();
    assert_eq!(x_y_variance(&arr), (0, 53867));
    assert_eq!(abs_variance(&arr), 14030);
}

#[test]
fn variances_of_small_sets() {
    assert_eq!(abs_variance(&[pt(3, 4), pt(6, 8), pt(0, 5)]), 6);
    assert_eq!(x_y_variance(&[pt(0, 0), pt(5, 1), pt(10, -3), pt(7, 7), pt(-4, 2)]), (34, 4));
    assert_eq!(abs_variance(&[pt(7, 24)]), 0);
}

#[test]
fn multitap_with_motion_between_releases() {
    let evs = [
        finger(1, 0, FingerStatus::Down, 100, 100),
        finger(2, 10, FingerStatus::Down, 300, 300),
        finger(2, 50, FingerStatus::Up, 301, 300),
        finger(1, 60, FingerStatus::Motion, 102, 101),
        finger(2, 70, FingerStatus::Motion, 302, 300),
        finger(1, 90, FingerStatus::Up, 102, 101),
    ];
    let mut out = Vec::new();
    let sm = feed(StateMachine::new(DPI), &evs, &mut out);
    assert_eq!(out, vec![GestureEvent::MultiTap([pt(100, 100), pt(300, 300)])]);
    assert!(is_untouched(&sm));
}

#[test]
fn long_hold_without_short_leaves_second_finger_welcome() {
    let evs = [
        finger(1, 0, FingerStatus::Down, 100, 100),
        finger(1, 1400, FingerStatus::Motion, 100, 100),
        finger(2, 1410, FingerStatus::Down, 300, 300),
        finger(1, 1420, FingerStatus::Up, 100, 100),
        finger(2, 1430, FingerStatus::Up, 300, 300),
    ];
    let mut out = Vec::new();
    let sm = feed(StateMachine::new(DPI), &evs, &mut out);
    assert_eq!(
        out,
        vec![
            GestureEvent::HoldFingerLong(pt(100, 100), 1),
            GestureEvent::MultiTap([pt(100, 100), pt(300, 300)]),
        ]
    );
    assert!(is_untouched(&sm));
}
