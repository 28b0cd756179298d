use vstd::prelude::*;

use crate::geom::{mm_to_px, spec_mm_to_px, Point};
use crate::input::gestures::{
    interpret_double_gesture, interpret_segment, is_within_jitter, spec_double_gesture,
    spec_interpret_segment, spec_within_jitter, GestureEvent, HOLD_DELAY_LONG_US,
    HOLD_DELAY_SHORT_US, HOLD_JITTER_MM, TAP_JITTER_MM,
};
use crate::input::{ButtonCode, ButtonStatus, DeviceEvent, FingerStatus};

verus! {

/// History length past which a moving finger reports its progress.
pub const MOVEMENT_WINDOW: usize = 30;
/// History kept after a progress report.
pub const MOVEMENT_KEEP: usize = 10;

/// State of a finger.
#[derive(Debug)]
pub struct FingerState {
    /// The id of the finger.
    pub id: i32,
    /// When the finger went down, in microseconds.
    pub time: u64,
    /// Whether the finger is pressed.
    pub is_down: bool,
    /// Whether the finger is being held.
    pub held: bool,
    /// Whether the finger is being long held.
    pub long_held: bool,
    /// Whether a movement has been started => No hold is possible anymore.
    pub movement_started: bool,
    /// The positions covered by the finger in its life.
    pub positions: Vec<Point>,
}

/// What the contracts know of a finger: its state with the history as a sequence.
pub struct FingerView {
    pub id: i32,
    pub time: u64,
    pub is_down: bool,
    pub held: bool,
    pub long_held: bool,
    pub movement_started: bool,
    pub positions: Seq<Point>,
}

impl View for FingerState {
    type V = FingerView;

    open spec fn view(&self) -> FingerView {
        FingerView {
            id: self.id,
            time: self.time,
            is_down: self.is_down,
            held: self.held,
            long_held: self.long_held,
            movement_started: self.movement_started,
            positions: self.positions@,
        }
    }
}

impl FingerView {
    /// A finger has a history.
    pub open spec fn wf(self) -> bool {
        self.positions.len() >= 1
    }

    pub open spec fn with_positions(self, positions: Seq<Point>) -> FingerView {
        FingerView { positions, ..self }
    }
}

/// A finger that has just gone down at `position`.
pub open spec fn spec_new_finger(id: i32, time: u64, position: Point) -> FingerView {
    FingerView {
        id,
        time,
        is_down: true,
        held: false,
        long_held: false,
        movement_started: false,
        positions: seq![position],
    }
}

/// State of a button.
#[derive(Debug, Copy, Clone, PartialEq, Eq, Structural)]
pub struct BtnState {
    /// The timestamp related to the `down` event, in microseconds.
    pub time: u64,
    /// Whether the button is being held.
    pub held: bool,
    /// Whether the button is being long held.
    pub long_held: bool,
}

/// Possible states for touch screen.
#[derive(Debug)]
pub enum TouchStates {
    NoTouch,
    OneFinger(FingerState),
    TwoFingers(FingerState, FingerState),
}

/// What the contracts know of the touch screen state.
pub enum TouchView {
    NoTouch,
    OneFinger(FingerView),
    TwoFingers(FingerView, FingerView),
}

impl View for TouchStates {
    type V = TouchView;

    open spec fn view(&self) -> TouchView {
        match self {
            TouchStates::NoTouch => TouchView::NoTouch,
            TouchStates::OneFinger(f) => TouchView::OneFinger(f@),
            TouchStates::TwoFingers(f1, f2) => TouchView::TwoFingers(f1@, f2@),
        }
    }
}

impl TouchView {
    /// Every tracked finger is well formed, and two fingers have distinct ids.
    pub open spec fn wf(self) -> bool {
        match self {
            TouchView::NoTouch => true,
            TouchView::OneFinger(f) => f.wf(),
            TouchView::TwoFingers(f1, f2) => f1.wf() && f2.wf() && f1.id != f2.id,
        }
    }

    /// The finger with id `id`, if one is tracked.
    pub open spec fn finger(self, id: i32) -> Option<FingerView> {
        match self {
            TouchView::NoTouch => None,
            TouchView::OneFinger(f) => if f.id == id {
                Some(f)
            } else {
                None
            },
            TouchView::TwoFingers(f1, f2) => if f1.id == id {
                Some(f1)
            } else if f2.id == id {
                Some(f2)
            } else {
                None
            },
        }
    }
}

/// Possible states for a button (one button at a time).
#[derive(Debug, Copy, Clone, PartialEq, Eq, Structural)]
pub enum BtnStates {
    NotPressed,
    Pressed(BtnState),
}

impl BtnStates {
    pub open spec fn wf(self) -> bool {
        true
    }
}

impl TouchStates {
    /// The state once the finger `f` has joined: a third finger is ignored.
    pub open spec fn spec_next(s: TouchView, f: FingerView) -> TouchView {
        match s {
            TouchView::NoTouch => TouchView::OneFinger(f),
            TouchView::OneFinger(f1) => TouchView::TwoFingers(f1, f),
            TouchView::TwoFingers(f1, f2) => TouchView::TwoFingers(f1, f2),
        }
    }

    /// Transition from a state to the next: the finger `f_state` has just been pressed.
    pub fn next(self, f_state: FingerState) -> (r: TouchStates)
        ensures
            r@ == Self::spec_next(self@, f_state@),
    {
        match self {
            TouchStates::NoTouch => TouchStates::OneFinger(f_state),
            TouchStates::OneFinger(f1) => TouchStates::TwoFingers(f1, f_state),
            TouchStates::TwoFingers(f1, f2) => TouchStates::TwoFingers(f1, f2),
        }
    }
}

/// The escalation that a hold reaches: short, then long, each at most once.
#[derive(Debug, Copy, Clone, PartialEq, Eq, Structural)]
pub enum HoldLevel {
    Short,
    Long,
}

/// Which hold event, if any, fires after `elapsed` microseconds down, given
/// the flags already set. Each fires at most once, and a short hold never
/// comes after a long one.
pub open spec fn spec_hold_trigger(held: bool, long_held: bool, elapsed: int) -> Option<HoldLevel> {
    if elapsed >= HOLD_DELAY_LONG_US && !long_held {
        Some(HoldLevel::Long)
    } else if elapsed >= HOLD_DELAY_SHORT_US && !held && !long_held {
        Some(HoldLevel::Short)
    } else {
        None
    }
}

/// Edge-triggered hold escalation for a contact that went down at `start` and
/// is still down at `now`.
pub fn hold_trigger(held: bool, long_held: bool, start: u64, now: u64) -> (r: Option<HoldLevel>)
    ensures
        r == spec_hold_trigger(held, long_held, now - start),
{
    if now < start {
        None
    } else {
        let elapsed = now - start;
        if elapsed >= HOLD_DELAY_LONG_US && !long_held {
            Some(HoldLevel::Long)
        } else if elapsed >= HOLD_DELAY_SHORT_US && !held && !long_held {
            Some(HoldLevel::Short)
        } else {
            None
        }
    }
}

/// A finger moves to `position` at `time`: its new state and what it emits.
pub open spec fn spec_motion(f: FingerView, time: u64, position: Point, hold_jitter: u32) -> (FingerView, Seq<GestureEvent>) {
    let ps = f.positions.push(position);
    if !f.movement_started && spec_within_jitter(ps, hold_jitter as int) {
        match spec_hold_trigger(f.held, f.long_held, time - f.time) {
            Some(HoldLevel::Long) => (
                FingerView { long_held: true, ..f.with_positions(ps) },
                seq![GestureEvent::HoldFingerLong(position, f.id)],
            ),
            Some(HoldLevel::Short) => (
                FingerView { held: true, ..f.with_positions(ps) },
                seq![GestureEvent::HoldFingerShort(position, f.id)],
            ),
            None => (f.with_positions(ps), seq![]),
        }
    } else if ps.len() > MOVEMENT_WINDOW {
        (
            FingerView {
                movement_started: true,
                ..f.with_positions(ps.subrange(ps.len() - MOVEMENT_KEEP, ps.len() as int))
            },
            seq![GestureEvent::Movement { start: ps[0], end: ps.last() }],
        )
    } else {
        (FingerView { movement_started: true, ..f.with_positions(ps) }, seq![])
    }
}

/// A lone finger leaves: a tap, or the end of a movement and its classification.
/// A held finger emits nothing.
pub open spec fn spec_single_up(f: FingerView, tap_jitter: u32) -> Seq<GestureEvent> {
    if f.held {
        seq![]
    } else if !f.movement_started && spec_within_jitter(f.positions, tap_jitter as int) {
        seq![GestureEvent::Tap(f.positions[0])]
    } else {
        seq![GestureEvent::MovementEnded, spec_interpret_segment(f.positions)]
    }
}

/// Both fingers have left: a multi-tap when neither moved beyond the tap
/// jitter, else a pinch or a spread if the two trajectories make one.
/// Nothing when either was held.
pub open spec fn spec_double_up(f1: FingerView, f2: FingerView, tap_jitter: u32) -> Seq<GestureEvent> {
    if f1.held || f2.held {
        seq![]
    } else if spec_within_jitter(f1.positions, tap_jitter as int) && spec_within_jitter(
        f2.positions,
        tap_jitter as int,
    ) {
        seq![GestureEvent::MultiTap([f1.positions[0], f2.positions[0]])]
    } else {
        match spec_double_gesture(
            spec_interpret_segment(f1.positions),
            spec_interpret_segment(f2.positions),
        ) {
            Some(g) => seq![g],
            None => seq![],
        }
    }
}

/// What the contracts know of the whole machine.
pub struct MachineView {
    pub state: TouchView,
    pub btn_state: BtnStates,
    pub tap_jitter_px: u32,
    pub hold_jitter_px: u32,
}

impl MachineView {
    pub open spec fn wf(self) -> bool {
        self.state.wf() && self.btn_state.wf()
    }

    pub open spec fn with_state(self, state: TouchView) -> MachineView {
        MachineView { state, ..self }
    }

    pub open spec fn with_btn(self, btn_state: BtnStates) -> MachineView {
        MachineView { btn_state, ..self }
    }
}

/// The touch screen's reaction to one finger event.
pub open spec fn spec_finger_step(
    m: MachineView,
    id: i32,
    time: u64,
    status: FingerStatus,
    position: Point,
) -> (MachineView, Seq<GestureEvent>) {
    match m.state {
        TouchView::NoTouch => match status {
            FingerStatus::Down => (
                m.with_state(TouchView::OneFinger(spec_new_finger(id, time, position))),
                seq![],
            ),
            _ => (m, seq![]),
        },
        TouchView::OneFinger(f) => match status {
            FingerStatus::Down => if !f.held && f.id != id {
                (
                    m.with_state(
                        TouchView::TwoFingers(
                            f.with_positions(seq![f.positions.last()]),
                            spec_new_finger(id, time, position),
                        ),
                    ),
                    seq![],
                )
            } else {
                (m, seq![])
            },
            FingerStatus::Motion => if f.id == id {
                let (g, out) = spec_motion(f, time, position, m.hold_jitter_px);
                (m.with_state(TouchView::OneFinger(g)), out)
            } else {
                (m, seq![])
            },
            FingerStatus::Up => if f.id == id {
                (m.with_state(TouchView::NoTouch), spec_single_up(f, m.tap_jitter_px))
            } else {
                (m, seq![])
            },
        },
        TouchView::TwoFingers(f1, f2) => match status {
            FingerStatus::Down => (m, seq![]),
            FingerStatus::Motion => if f1.id == id {
                let (g, out) = spec_motion(f1, time, position, m.hold_jitter_px);
                (m.with_state(TouchView::TwoFingers(g, f2)), out)
            } else if f2.id == id {
                let (g, out) = spec_motion(f2, time, position, m.hold_jitter_px);
                (m.with_state(TouchView::TwoFingers(f1, g)), out)
            } else {
                (m, seq![])
            },
            FingerStatus::Up => {
                let g1 = if f1.id == id {
                    FingerView { is_down: false, ..f1 }
                } else {
                    f1
                };
                let g2 = if f2.id == id {
                    FingerView { is_down: false, ..f2 }
                } else {
                    f2
                };
                if !g1.is_down && !g2.is_down {
                    (m.with_state(TouchView::NoTouch), spec_double_up(g1, g2, m.tap_jitter_px))
                } else {
                    (m.with_state(TouchView::TwoFingers(g1, g2)), seq![])
                }
            },
        },
    }
}

/// The button slot's reaction to one button event.
pub open spec fn spec_button_step(
    m: MachineView,
    time: u64,
    code: ButtonCode,
    status: ButtonStatus,
) -> (MachineView, Seq<GestureEvent>) {
    match status {
        ButtonStatus::Pressed => match m.btn_state {
            BtnStates::NotPressed => (
                m.with_btn(BtnStates::Pressed(BtnState { time, held: false, long_held: false })),
                seq![],
            ),
            BtnStates::Pressed(b) => match spec_hold_trigger(b.held, b.long_held, time - b.time) {
                Some(HoldLevel::Long) => (
                    m.with_btn(BtnStates::Pressed(BtnState { long_held: true, ..b })),
                    seq![GestureEvent::HoldButtonLong(code)],
                ),
                Some(HoldLevel::Short) => (
                    m.with_btn(BtnStates::Pressed(BtnState { held: true, ..b })),
                    seq![GestureEvent::HoldButtonShort(code)],
                ),
                None => (m, seq![]),
            },
        },
        ButtonStatus::Released => (m.with_btn(BtnStates::NotPressed), seq![]),
        ButtonStatus::Repeated => (m, seq![]),
    }
}

/// The machine's reaction to one device event: its next state and the
/// gestures emitted, in order.
pub open spec fn spec_transition(m: MachineView, ev: DeviceEvent) -> (MachineView, Seq<GestureEvent>) {
    match ev {
        DeviceEvent::Finger { id, time, status, position } => spec_finger_step(
            m,
            id,
            time,
            status,
            position,
        ),
        DeviceEvent::Button { time, code, status } => spec_button_step(m, time, code, status),
        _ => (m, seq![]),
    }
}

/// The finger with id `id` is tracked and has reached a long hold.
pub open spec fn long_held_in(t: TouchView, id: i32) -> bool {
    match t.finger(id) {
        Some(f) => f.long_held,
        None => false,
    }
}

/// `g` is a short hold report for the finger `id`.
pub open spec fn is_short_hold_of(g: GestureEvent, id: i32) -> bool {
    match g {
        GestureEvent::HoldFingerShort(_, i) => i == id,
        _ => false,
    }
}

/// `g` is a long hold report for the finger `id`.
pub open spec fn is_long_hold_of(g: GestureEvent, id: i32) -> bool {
    match g {
        GestureEvent::HoldFingerLong(_, i) => i == id,
        _ => false,
    }
}

/// `out` holds a short hold report for the finger `id`.
pub open spec fn emits_short_hold(out: Seq<GestureEvent>, id: i32) -> bool {
    exists|k: int| 0 <= k < out.len() && is_short_hold_of(out[k], id)
}

/// `out` holds a long hold report for the finger `id`.
pub open spec fn emits_long_hold(out: Seq<GestureEvent>, id: i32) -> bool {
    exists|k: int| 0 <= k < out.len() && is_long_hold_of(out[k], id)
}

/// Hold escalation only goes up: a long hold report leaves its finger long
/// held, and a finger that is long held never reports a short hold and stays
/// long held for as long as it is tracked. So for every sequence of events a
/// short hold never follows a long hold of the same contact.
pub proof fn lemma_no_short_hold_after_long(m: MachineView, ev: DeviceEvent, id: i32)
    requires
        m.wf(),
    ensures
        emits_long_hold(spec_transition(m, ev).1, id) ==> long_held_in(spec_transition(m, ev).0.state, id),
        long_held_in(m.state, id) ==> !emits_short_hold(spec_transition(m, ev).1, id),
        long_held_in(m.state, id) && spec_transition(m, ev).0.state.finger(id) is Some ==> long_held_in(
            spec_transition(m, ev).0.state,
            id,
        ),
{
    let (n, out) = spec_transition(m, ev);
    if emits_long_hold(out, id) {
        let k = choose|k: int| 0 <= k < out.len() && is_long_hold_of(out[k], id);
        assert(is_long_hold_of(out[k], id));
    }
    if emits_short_hold(out, id) {
        let k = choose|k: int| 0 <= k < out.len() && is_short_hold_of(out[k], id);
        assert(is_short_hold_of(out[k], id));
    }
    match ev {
        DeviceEvent::Finger { id: eid, time, status, position } => {
            match status {
                FingerStatus::Motion => match m.state {
                    TouchView::OneFinger(f) => {
                        lemma_motion_hold_flags(f, time, position, m.hold_jitter_px, id);
                    },
                    TouchView::TwoFingers(f1, f2) => {
                        lemma_motion_hold_flags(f1, time, position, m.hold_jitter_px, id);
                        lemma_motion_hold_flags(f2, time, position, m.hold_jitter_px, id);
                    },
                    TouchView::NoTouch => {},
                },
                FingerStatus::Up => match m.state {
                    TouchView::OneFinger(f) => {
                        lemma_no_hold_on_release(f, f, m.tap_jitter_px, id);
                    },
                    TouchView::TwoFingers(f1, f2) => {
                        let g1 = if f1.id == eid {
                            FingerView { is_down: false, ..f1 }
                        } else {
                            f1
                        };
                        let g2 = if f2.id == eid {
                            FingerView { is_down: false, ..f2 }
                        } else {
                            f2
                        };
                        lemma_no_hold_on_release(g1, g2, m.tap_jitter_px, id);
                    },
                    TouchView::NoTouch => {},
                },
                FingerStatus::Down => {},
            }
        },
        _ => {},
    }
}

/// Releasing fingers reports no hold.
proof fn lemma_no_hold_on_release(f1: FingerView, f2: FingerView, tap_jitter: u32, id: i32)
    ensures
        !emits_short_hold(spec_single_up(f1, tap_jitter), id),
        !emits_long_hold(spec_single_up(f1, tap_jitter), id),
        !emits_short_hold(spec_double_up(f1, f2, tap_jitter), id),
        !emits_long_hold(spec_double_up(f1, f2, tap_jitter), id),
{
    let a = spec_single_up(f1, tap_jitter);
    let b = spec_double_up(f1, f2, tap_jitter);
    let g1 = spec_interpret_segment(f1.positions);
    let g2 = spec_interpret_segment(f2.positions);
    assert(!is_short_hold_of(g1, id) && !is_long_hold_of(g1, id));
    if emits_short_hold(a, id) {
        let k = choose|k: int| 0 <= k < a.len() && is_short_hold_of(a[k], id);
        assert(is_short_hold_of(a[k], id));
    }
    if emits_long_hold(a, id) {
        let k = choose|k: int| 0 <= k < a.len() && is_long_hold_of(a[k], id);
        assert(is_long_hold_of(a[k], id));
    }
    if emits_short_hold(b, id) {
        let k = choose|k: int| 0 <= k < b.len() && is_short_hold_of(b[k], id);
        assert(is_short_hold_of(b[k], id));
    }
    if emits_long_hold(b, id) {
        let k = choose|k: int| 0 <= k < b.len() && is_long_hold_of(b[k], id);
        assert(is_long_hold_of(b[k], id));
    }
}

/// What one motion does to the hold flags and reports of a finger.
proof fn lemma_motion_hold_flags(f: FingerView, time: u64, position: Point, hold_jitter: u32, id: i32)
    ensures
        ({
            let (g, out) = spec_motion(f, time, position, hold_jitter);
            &&& g.id == f.id
            &&& f.long_held ==> g.long_held
            &&& f.long_held ==> !emits_short_hold(out, id)
            &&& emits_long_hold(out, id) ==> id == f.id && g.long_held
            &&& emits_short_hold(out, id) ==> id == f.id
        }),
{
    let (g, out) = spec_motion(f, time, position, hold_jitter);
    if emits_long_hold(out, id) {
        let k = choose|k: int| 0 <= k < out.len() && is_long_hold_of(out[k], id);
        assert(is_long_hold_of(out[k], id));
    }
    if emits_short_hold(out, id) {
        let k = choose|k: int| 0 <= k < out.len() && is_short_hold_of(out[k], id);
        assert(is_short_hold_of(out[k], id));
    }
}

/// The machine's reaction to a sequence of device events: its final state and
/// every gesture emitted, in order.
pub open spec fn spec_run(m: MachineView, evs: Seq<DeviceEvent>) -> (MachineView, Seq<GestureEvent>)
    decreases evs.len(),
{
    if evs.len() == 0 {
        (m, seq![])
    } else {
        let (m1, out1) = spec_transition(m, evs[0]);
        let (m2, out2) = spec_run(m1, evs.drop_first());
        (m2, out1 + out2)
    }
}

/// The finger `id` is still tracked after each of the events `evs`.
pub open spec fn stays_tracked(m: MachineView, evs: Seq<DeviceEvent>, id: i32) -> bool
    decreases evs.len(),
{
    if evs.len() == 0 {
        true
    } else {
        let m1 = spec_transition(m, evs[0]).0;
        m1.state.finger(id) is Some && stays_tracked(m1, evs.drop_first(), id)
    }
}

/// Every transition keeps the machine well formed.
pub proof fn lemma_transition_wf(m: MachineView, ev: DeviceEvent)
    requires
        m.wf(),
    ensures
        spec_transition(m, ev).0.wf(),
{
}

proof fn lemma_long_hold_persists(m: MachineView, evs: Seq<DeviceEvent>, id: i32)
    requires
        m.wf(),
        long_held_in(m.state, id),
        stays_tracked(m, evs, id),
    ensures
        !emits_short_hold(spec_run(m, evs).1, id),
        long_held_in(spec_run(m, evs).0.state, id),
    decreases evs.len(),
{
    if evs.len() > 0 {
        let (m1, out1) = spec_transition(m, evs[0]);
        lemma_no_short_hold_after_long(m, evs[0], id);
        lemma_transition_wf(m, evs[0]);
        lemma_long_hold_persists(m1, evs.drop_first(), id);
        let out2 = spec_run(m1, evs.drop_first()).1;
        let out = spec_run(m, evs).1;
        assert(out == out1 + out2);
        if emits_short_hold(out, id) {
            let k = choose|k: int| 0 <= k < out.len() && is_short_hold_of(out[k], id);
            if k < out1.len() {
                assert(out[k] == out1[k]);
                assert(emits_short_hold(out1, id));
            } else {
                assert(out[k] == out2[k - out1.len()]);
                assert(emits_short_hold(out2, id));
            }
        }
    }
}

/// For every sequence of events, a short hold report never follows a long
/// hold report of the same contact: once an event reports a long hold of the
/// finger `id`, the events after it report no short hold of that finger for
/// as long as it stays tracked.
pub proof fn lemma_short_hold_never_follows_long(
    m: MachineView,
    ev: DeviceEvent,
    evs: Seq<DeviceEvent>,
    id: i32,
)
    requires
        m.wf(),
        emits_long_hold(spec_transition(m, ev).1, id),
        stays_tracked(spec_transition(m, ev).0, evs, id),
    ensures
        !emits_short_hold(spec_transition(m, ev).1, id),
        !emits_short_hold(spec_run(spec_transition(m, ev).0, evs).1, id),
{
    lemma_no_short_hold_after_long(m, ev, id);
    lemma_transition_wf(m, ev);
    let (m1, out1) = spec_transition(m, ev);
    if emits_short_hold(out1, id) {
        let k = choose|k: int| 0 <= k < out1.len() && is_short_hold_of(out1[k], id);
        let j = choose|j: int| 0 <= j < out1.len() && is_long_hold_of(out1[j], id);
        assert(is_short_hold_of(out1[k], id));
        assert(is_long_hold_of(out1[j], id));
    }
    lemma_long_hold_persists(m1, evs, id);
}

/// The motion events of the finger `id` through `positions` at `times`.
pub open spec fn finger_motions(id: i32, times: Seq<u64>, positions: Seq<Point>) -> Seq<DeviceEvent> {
    Seq::new(
        positions.len(),
        |i: int| DeviceEvent::Finger { id, time: times[i], status: FingerStatus::Motion, position: positions[i] },
    )
}

/// A still finger: every sample comes before a short hold is due, and every
/// prefix of the trajectory stays within the hold envelope.
pub open spec fn still_before_hold(m: MachineView, t0: u64, p: Point, times: Seq<u64>, positions: Seq<Point>) -> bool {
    &&& times.len() == positions.len()
    &&& forall|i: int| 0 <= i < times.len() ==> #[trigger] times[i] - t0 < HOLD_DELAY_SHORT_US
    &&& forall|n: int|
        1 <= n <= positions.len() ==> spec_within_jitter(
            #[trigger] history(p, positions, n),
            m.hold_jitter_px as int,
        )
}

/// The trajectory of a finger that went down at `p` and then moved through
/// the first `n` of `positions`.
pub open spec fn history(p: Point, positions: Seq<Point>, n: int) -> Seq<Point> {
    seq![p] + positions.take(n)
}

proof fn lemma_jitter_widens(s: Seq<Point>, r1: int, r2: int)
    requires
        s.len() >= 1,
        spec_within_jitter(s, r1),
        r1 <= r2,
    ensures
        spec_within_jitter(s, r2),
{
}

proof fn lemma_single_point_within(p: Point, r: int)
    requires
        r >= 0,
    ensures
        spec_within_jitter(seq![p], r),
{
    let s = seq![p];
    assert(s[0] == p);
    assert(crate::input::gestures::even_sum_x(s, 0) == 0);
    assert(crate::input::gestures::even_sum_y(s, 0) == 0);
    assert(crate::input::gestures::even_sum_x(s, 1) == p.x as int);
    assert(crate::input::gestures::even_sum_y(s, 1) == p.y as int);
    assert(s.len() == 1);
    assert(crate::input::gestures::even_count(1) == 1);
    assert(crate::geom::trunc_div(p.x as int, 1) == p.x as int);
    assert(crate::geom::trunc_div(p.y as int, 1) == p.y as int);
}

proof fn lemma_still_finger_taps(
    m: MachineView,
    id: i32,
    t0: u64,
    p: Point,
    times: Seq<u64>,
    positions: Seq<Point>,
    k: int,
    up_time: u64,
    up_position: Point,
)
    requires
        0 <= k <= positions.len(),
        still_before_hold(m, t0, p, times, positions),
        m.hold_jitter_px <= m.tap_jitter_px,
        m.state == TouchView::OneFinger(
            FingerView {
                id,
                time: t0,
                is_down: true,
                held: false,
                long_held: false,
                movement_started: false,
                positions: history(p, positions, k),
            },
        ),
    ensures
        spec_run(
            m,
            finger_motions(id, times, positions).skip(k) + seq![
                DeviceEvent::Finger { id, time: up_time, status: FingerStatus::Up, position: up_position },
            ],
        ) == (m.with_state(TouchView::NoTouch), seq![GestureEvent::Tap(p)]),
    decreases positions.len() - k,
{
    let up = DeviceEvent::Finger { id, time: up_time, status: FingerStatus::Up, position: up_position };
    let evs = finger_motions(id, times, positions).skip(k) + seq![up];
    let hist = history(p, positions, k);
    if k == positions.len() {
        assert(evs =~= seq![up]);
        if k == 0 {
            assert(hist =~= seq![p]);
            lemma_single_point_within(p, m.tap_jitter_px as int);
        } else {
            assert(spec_within_jitter(history(p, positions, k), m.hold_jitter_px as int));
            lemma_jitter_widens(hist, m.hold_jitter_px as int, m.tap_jitter_px as int);
        }
        let (m1, out1) = spec_transition(m, up);
        assert(m1 == m.with_state(TouchView::NoTouch));
        assert(out1 == seq![GestureEvent::Tap(p)]);
        assert(evs.drop_first() =~= Seq::<DeviceEvent>::empty());
        assert(spec_run(m1, evs.drop_first()) == (m1, Seq::<GestureEvent>::empty()));
        assert(out1 + Seq::<GestureEvent>::empty() =~= out1);
        assert(spec_run(m, evs) == (m1, out1 + Seq::<GestureEvent>::empty()));
    } else {
        let ev = finger_motions(id, times, positions)[k];
        assert(evs[0] == ev);
        assert(evs.drop_first() =~= finger_motions(id, times, positions).skip(k + 1) + seq![up]);
        let next_hist = history(p, positions, k + 1);
        assert(hist.push(positions[k]) =~= next_hist);
        assert(spec_within_jitter(next_hist, m.hold_jitter_px as int));
        assert(times[k] - t0 < HOLD_DELAY_SHORT_US);
        let f = FingerView {
            id,
            time: t0,
            is_down: true,
            held: false,
            long_held: false,
            movement_started: false,
            positions: hist,
        };
        let g = FingerView { positions: next_hist, ..f };
        assert(spec_motion(f, times[k], positions[k], m.hold_jitter_px) == (g, Seq::<GestureEvent>::empty()));
        let m1 = m.with_state(TouchView::OneFinger(g));
        assert(spec_transition(m, ev) == (m1, Seq::<GestureEvent>::empty()));
        lemma_still_finger_taps(m1, id, t0, p, times, positions, k + 1, up_time, up_position);
        assert(Seq::<GestureEvent>::empty() + seq![GestureEvent::Tap(p)] =~= seq![GestureEvent::Tap(p)]);
        assert(spec_run(m, evs) == (
            spec_run(m1, evs.drop_first()).0,
            Seq::<GestureEvent>::empty() + spec_run(m1, evs.drop_first()).1,
        ));
    }
}

/// A finger that goes down on an untouched screen at `p`, moves only within
/// the hold envelope before a short hold is due, and leaves, gives exactly one
/// `Tap(p)` over the whole sequence, and the screen is untouched again.
pub proof fn lemma_tap(
    m: MachineView,
    id: i32,
    t0: u64,
    p: Point,
    times: Seq<u64>,
    positions: Seq<Point>,
    up_time: u64,
    up_position: Point,
)
    requires
        m.wf(),
        m.state is NoTouch,
        m.hold_jitter_px <= m.tap_jitter_px,
        still_before_hold(m, t0, p, times, positions),
    ensures
        spec_run(
            m,
            seq![DeviceEvent::Finger { id, time: t0, status: FingerStatus::Down, position: p }]
                + finger_motions(id, times, positions) + seq![
                DeviceEvent::Finger { id, time: up_time, status: FingerStatus::Up, position: up_position },
            ],
        ) == (m.with_state(TouchView::NoTouch), seq![GestureEvent::Tap(p)]),
{
    let down = DeviceEvent::Finger { id, time: t0, status: FingerStatus::Down, position: p };
    let up = DeviceEvent::Finger { id, time: up_time, status: FingerStatus::Up, position: up_position };
    let motions = finger_motions(id, times, positions);
    let evs = seq![down] + motions + seq![up];
    assert(evs[0] == down);
    assert(evs.drop_first() =~= motions.skip(0) + seq![up]);
    assert(history(p, positions, 0) =~= seq![p]);
    let m1 = m.with_state(TouchView::OneFinger(spec_new_finger(id, t0, p)));
    assert(spec_transition(m, down) == (m1, Seq::<GestureEvent>::empty()));
    lemma_still_finger_taps(m1, id, t0, p, times, positions, 0, up_time, up_position);
    assert(Seq::<GestureEvent>::empty() + seq![GestureEvent::Tap(p)] =~= seq![GestureEvent::Tap(p)]);
    assert(spec_run(m, evs) == (
        spec_run(m1, evs.drop_first()).0,
        Seq::<GestureEvent>::empty() + spec_run(m1, evs.drop_first()).1,
    ));
}

/// A finger that moves beyond the hold envelope, or already has, reports its
/// progress exactly when its history, with the new sample, exceeds `MOVEMENT_WINDOW` samples: one `Movement` from the first
/// to the latest sample, after which exactly `MOVEMENT_KEEP` samples remain,
/// the latest ones. A finger whose history was just cut back needs
/// `MOVEMENT_WINDOW - MOVEMENT_KEEP + 1` more samples before its next report.
pub proof fn lemma_movement_window(f: FingerView, time: u64, position: Point, hold_jitter: u32)
    requires
        f.wf(),
        f.movement_started || !spec_within_jitter(f.positions.push(position), hold_jitter as int),
    ensures
        ({
            let (g, out) = spec_motion(f, time, position, hold_jitter);
            let ps = f.positions.push(position);
            &&& g.movement_started
            &&& ps.len() > MOVEMENT_WINDOW ==> {
                &&& out == seq![GestureEvent::Movement { start: ps[0], end: ps.last() }]
                &&& g.positions.len() == MOVEMENT_KEEP
                &&& g.positions == ps.subrange(ps.len() - MOVEMENT_KEEP, ps.len() as int)
            }
            &&& ps.len() <= MOVEMENT_WINDOW ==> out.len() == 0 && g.positions == ps
        }),
{
}

/// When two fingers are down, the gesture that their release completes does
/// not depend on which of them leaves first.
pub proof fn lemma_release_order_irrelevant(m: MachineView, t1: u64, t2: u64, p1: Point, p2: Point)
    requires
        m.wf(),
        m.state matches TouchView::TwoFingers(f1, f2) && f1.is_down && f2.is_down,
    ensures
        ({
            let (f1, f2) = match m.state {
                TouchView::TwoFingers(f1, f2) => (f1, f2),
                _ => arbitrary(),
            };
            let (a, out_a) = spec_finger_step(m, f1.id, t1, FingerStatus::Up, p1);
            let (b, out_b) = spec_finger_step(a, f2.id, t2, FingerStatus::Up, p2);
            let (c, out_c) = spec_finger_step(m, f2.id, t1, FingerStatus::Up, p1);
            let (d, out_d) = spec_finger_step(c, f1.id, t2, FingerStatus::Up, p2);
            &&& out_a.len() == 0 && out_c.len() == 0
            &&& b.state is NoTouch && d.state is NoTouch
            &&& out_b == out_d
        }),
{
}

/// The two fingers of a pair, in the order in which they went down.
pub open spec fn pair_of(t: TouchView) -> (FingerView, FingerView) {
    match t {
        TouchView::TwoFingers(f1, f2) => (f1, f2),
        _ => arbitrary(),
    }
}

/// Releasing a pair of fingers, with any motion in between: the first release
/// emits nothing and keeps the pair; motion keeps the pair in its order, with
/// its release flags and, short of a progress report, its first points; the
/// release that leaves both fingers up resets the screen, and gives one
/// `MultiTap` of the first points, in the order the fingers went down, when
/// neither was held and both stayed within the tap envelope.
pub proof fn lemma_pair_release(m: MachineView, id: i32, time: u64, status: FingerStatus, position: Point)
    requires
        m.wf(),
        m.state is TwoFingers,
    ensures
        ({
            let (f1, f2) = pair_of(m.state);
            let (n, out) = spec_finger_step(m, id, time, status, position);
            &&& status == FingerStatus::Up && id == f1.id && f2.is_down ==> {
                &&& out.len() == 0
                &&& n.state == TouchView::TwoFingers(FingerView { is_down: false, ..f1 }, f2)
            }
            &&& status == FingerStatus::Up && id == f2.id && f1.is_down ==> {
                &&& out.len() == 0
                &&& n.state == TouchView::TwoFingers(f1, FingerView { is_down: false, ..f2 })
            }
            &&& status == FingerStatus::Motion ==> {
                let (g1, g2) = pair_of(n.state);
                &&& n.state is TwoFingers
                &&& g1.id == f1.id && g2.id == f2.id
                &&& g1.is_down == f1.is_down && g2.is_down == f2.is_down
                &&& f1.positions.len() < MOVEMENT_WINDOW ==> g1.positions[0] == f1.positions[0]
                &&& f2.positions.len() < MOVEMENT_WINDOW ==> g2.positions[0] == f2.positions[0]
            }
            &&& status == FingerStatus::Up && (id == f1.id || !f1.is_down) && (id == f2.id
                || !f2.is_down) ==> {
                &&& n.state is NoTouch
                &&& (!f1.held && !f2.held && spec_within_jitter(
                    f1.positions,
                    m.tap_jitter_px as int,
                ) && spec_within_jitter(f2.positions, m.tap_jitter_px as int)) ==> out == seq![
                    GestureEvent::MultiTap([f1.positions[0], f2.positions[0]]),
                ]
            }
        }),
{
    let (f1, f2) = pair_of(m.state);
    if status == FingerStatus::Motion {
        let ps1 = f1.positions.push(position);
        let ps2 = f2.positions.push(position);
        assert(ps1[0] == f1.positions[0]);
        assert(ps2[0] == f2.positions[0]);
    }
}

/// A finger that stays within the hold envelope reports a short hold once it
/// has been down `HOLD_DELAY_SHORT_US`, unless it already reported a hold, and
/// a long hold once it has been down `HOLD_DELAY_LONG_US`, unless it already
/// reported one; otherwise it reports nothing and keeps its flags.
pub proof fn lemma_hold_reports(f: FingerView, time: u64, position: Point, hold_jitter: u32)
    requires
        f.wf(),
        !f.movement_started,
        spec_within_jitter(f.positions.push(position), hold_jitter as int),
    ensures
        ({
            let (g, out) = spec_motion(f, time, position, hold_jitter);
            let e = time - f.time;
            &&& g.positions == f.positions.push(position)
            &&& !g.movement_started
            &&& !f.held && !f.long_held && HOLD_DELAY_SHORT_US <= e < HOLD_DELAY_LONG_US ==> {
                &&& out == seq![GestureEvent::HoldFingerShort(position, f.id)]
                &&& g.held && g.long_held == f.long_held
            }
            &&& !f.long_held && e >= HOLD_DELAY_LONG_US ==> {
                &&& out == seq![GestureEvent::HoldFingerLong(position, f.id)]
                &&& g.long_held && g.held == f.held
            }
            &&& (e < HOLD_DELAY_SHORT_US || (f.held && (f.long_held || e < HOLD_DELAY_LONG_US)) || (
            f.long_held)) ==> {
                &&& out.len() == 0
                &&& g.held == f.held && g.long_held == f.long_held
            }
        }),
{
}

/// After a lone finger leaves, or after the second of two fingers leaves, the
/// screen is untouched again.
pub proof fn lemma_up_resets(m: MachineView, id: i32, time: u64, position: Point)
    requires
        m.wf(),
    ensures
        ({
            let n = spec_finger_step(m, id, time, FingerStatus::Up, position).0;
            &&& (m.state matches TouchView::OneFinger(f) && f.id == id) ==> n.state is NoTouch
            &&& (m.state matches TouchView::TwoFingers(f1, f2) && (f1.id == id || !f1.is_down) && (
            f2.id == id || !f2.is_down)) ==> n.state is NoTouch
        }),
{
}

/// A terminal gesture (`Tap`, `MultiTap`, or the end of a movement) leaves
/// the screen untouched.
pub proof fn lemma_terminal_resets(m: MachineView, ev: DeviceEvent)
    requires
        m.wf(),
    ensures
        ({
            let (n, out) = spec_transition(m, ev);
            (exists|k: int|
                0 <= k < out.len() && (out[k] is Tap || out[k] is MultiTap || out[k] is MovementEnded))
                ==> n.state is NoTouch
        }),
{
    let (n, out) = spec_transition(m, ev);
    if exists|k: int|
        0 <= k < out.len() && (out[k] is Tap || out[k] is MultiTap || out[k] is MovementEnded) {
        let k = choose|k: int|
            0 <= k < out.len() && (out[k] is Tap || out[k] is MultiTap || out[k] is MovementEnded);
        assert(out[k] is Tap || out[k] is MultiTap || out[k] is MovementEnded);
    }
}

/// Once the screen is untouched, a finger event acts exactly as on a freshly
/// created machine: no state of earlier contacts leaks into the next one.
pub proof fn lemma_fresh_after_reset(m: MachineView, dpi: u16, ev: DeviceEvent)
    requires
        m.state is NoTouch,
        m.tap_jitter_px == spec_initial(dpi).tap_jitter_px,
        m.hold_jitter_px == spec_initial(dpi).hold_jitter_px,
        ev is Finger,
    ensures
        spec_transition(m, ev).0.state == spec_transition(spec_initial(dpi), ev).0.state,
        spec_transition(m, ev).1 == spec_transition(spec_initial(dpi), ev).1,
{
}

/// State machine to interpret input device events.
#[derive(Debug)]
pub struct StateMachine {
    pub state: TouchStates,
    pub btn_state: BtnStates,
    /// Radius for a tap, in pixels.
    pub tap_jitter_px: u32,
    /// Radius for a hold, in pixels.
    pub hold_jitter_px: u32,
}

impl View for StateMachine {
    type V = MachineView;

    open spec fn view(&self) -> MachineView {
        MachineView {
            state: self.state@,
            btn_state: self.btn_state,
            tap_jitter_px: self.tap_jitter_px,
            hold_jitter_px: self.hold_jitter_px,
        }
    }
}

/// The machine as it starts on a screen of `dpi` dots per inch.
pub open spec fn spec_initial(dpi: u16) -> MachineView {
    MachineView {
        state: TouchView::NoTouch,
        btn_state: BtnStates::NotPressed,
        tap_jitter_px: spec_mm_to_px(TAP_JITTER_MM as int, dpi as int) as u32,
        hold_jitter_px: spec_mm_to_px(HOLD_JITTER_MM as int, dpi as int) as u32,
    }
}

impl StateMachine {
    /// Handles a `finger down` event while a single finger `f` is tracked: the
    /// new finger joins unless `f` is held or has the same id, and `f` then
    /// keeps only its latest position.
    fn handle_finger_down(f: &mut FingerState, id: i32, time: u64, position: Point) -> (r: Option<FingerState>)
        requires
            old(f)@.wf(),
        ensures
            !old(f)@.held && old(f)@.id != id ==> {
                &&& r is Some
                &&& r->0@ == spec_new_finger(id, time, position)
                &&& final(f)@ == old(f)@.with_positions(seq![old(f)@.positions.last()])
            },
            !(!old(f)@.held && old(f)@.id != id) ==> r is None && final(f)@ == old(f)@,
    {
        if !f.held && f.id != id {
            let last = f.positions[f.positions.len() - 1];
            let mut kept: Vec<Point> = Vec::new();
            kept.push(last);
            f.positions = kept;
            assert(f.positions@ =~= seq![last]);
            let mut positions: Vec<Point> = Vec::new();
            positions.push(position);
            assert(positions@ =~= seq![position]);
            Some(
                FingerState {
                    id,
                    time,
                    is_down: true,
                    held: false,
                    long_held: false,
                    movement_started: false,
                    positions,
                },
            )
        } else {
            None
        }
    }

    /// Handles a `finger moved` event for the finger `f`: hold escalation while
    /// it stays still, progress reports once it moves.
    fn handle_finger_motion(
        out: &mut Vec<GestureEvent>,
        f: &mut FingerState,
        time: u64,
        position: Point,
        hold_jitter_px: u32,
    )
        requires
            old(f)@.wf(),
        ensures
            final(f)@ == spec_motion(old(f)@, time, position, hold_jitter_px).0,
            final(out)@ == old(out)@ + spec_motion(old(f)@, time, position, hold_jitter_px).1,
            final(f)@.wf(),
    {
        let ghost f0 = f@;
        f.positions.push(position);
        let can_hold = !f.movement_started && is_within_jitter(f.positions.as_slice(), hold_jitter_px);
        if can_hold {
            match hold_trigger(f.held, f.long_held, f.time, time) {
                Some(HoldLevel::Long) => {
                    f.long_held = true;
                    out.push(GestureEvent::HoldFingerLong(position, f.id));
                },
                Some(HoldLevel::Short) => {
                    f.held = true;
                    out.push(GestureEvent::HoldFingerShort(position, f.id));
                },
                None => {},
            }
        } else {
            // The finger left the hold envelope: no hold can follow.
            f.movement_started = true;
            let len = f.positions.len();
            if len > MOVEMENT_WINDOW {
                let a = f.positions[0];
                let b = f.positions[len - 1];
                out.push(GestureEvent::Movement { start: a, end: b });
                let tail = f.positions.split_off(len - MOVEMENT_KEEP);
                f.positions = tail;
            }
        }
        proof {
            let expected = spec_motion(f0, time, position, hold_jitter_px);
            assert(f@ == expected.0);
            assert(out@ =~= old(out)@ + expected.1);
        }
    }

    /// Create a new state machine for a screen of `dpi` dots per inch.
    pub fn new(dpi: u16) -> (r: Self)
        ensures
            r@ == spec_initial(dpi),
            r@.wf(),
    {
        StateMachine {
            state: TouchStates::NoTouch,
            btn_state: BtnStates::NotPressed,
            tap_jitter_px: mm_to_px(TAP_JITTER_MM, dpi),
            hold_jitter_px: mm_to_px(HOLD_JITTER_MM, dpi),
        }
    }
    /// Reaction of the touch screen state to one finger event.
    fn finger_transition(
        state: TouchStates,
        id: i32,
        time: u64,
        status: FingerStatus,
        position: Point,
        tap_jitter_px: u32,
        hold_jitter_px: u32,
        out: &mut Vec<GestureEvent>,
    ) -> (r: TouchStates)
        requires
            state@.wf(),
        ensures
            ({
                let m = MachineView {
                    state: state@,
                    btn_state: BtnStates::NotPressed,
                    tap_jitter_px,
                    hold_jitter_px,
                };
                let step = spec_finger_step(m, id, time, status, position);
                &&& r@ == step.0.state
                &&& final(out)@ == old(out)@ + step.1
            }),
            r@.wf(),
    {
        match state {
            TouchStates::NoTouch => {
                match status {
                    FingerStatus::Down => {
                        let mut positions: Vec<Point> = Vec::new();
                        positions.push(position);
                        assert(positions@ =~= seq![position]);
                        assert(out@ =~= old(out)@ + seq![]);
                        TouchStates::OneFinger(
                            FingerState {
                                id,
                                time,
                                is_down: true,
                                held: false,
                                long_held: false,
                                movement_started: false,
                                positions,
                            },
                        )
                    },
                    // A finger that was never seen going down is ignored.
                    _ => {
                        assert(out@ =~= old(out)@ + seq![]);
                        TouchStates::NoTouch
                    },
                }
            },
            TouchStates::OneFinger(mut f) => {
                match status {
                    FingerStatus::Down => {
                        assert(out@ =~= old(out)@ + seq![]);
                        match Self::handle_finger_down(&mut f, id, time, position) {
                            Some(g) => TouchStates::TwoFingers(f, g),
                            None => TouchStates::OneFinger(f),
                        }
                    },
                    FingerStatus::Motion => {
                        if f.id == id {
                            Self::handle_finger_motion(out, &mut f, time, position, hold_jitter_px);
                        } else {
                            assert(out@ =~= old(out)@ + seq![]);
                        }
                        TouchStates::OneFinger(f)
                    },
                    FingerStatus::Up => {
                        if f.id != id {
                            assert(out@ =~= old(out)@ + seq![]);
                            return TouchStates::OneFinger(f);
                        }
                        if !f.held {
                            if !f.movement_started && is_within_jitter(
                                f.positions.as_slice(),
                                tap_jitter_px,
                            ) {
                                out.push(GestureEvent::Tap(f.positions[0]));
                            } else {
                                out.push(GestureEvent::MovementEnded);
                                let g = interpret_segment(f.positions.as_slice());
                                out.push(g);
                            }
                        }
                        assert(out@ =~= old(out)@ + spec_single_up(f@, tap_jitter_px));
                        TouchStates::NoTouch
                    },
                }
            },
            TouchStates::TwoFingers(mut f1, mut f2) => {
                match status {
                    // No third finger.
                    FingerStatus::Down => {
                        assert(out@ =~= old(out)@ + seq![]);
                        TouchStates::TwoFingers(f1, f2)
                    },
                    FingerStatus::Motion => {
                        if f1.id == id {
                            Self::handle_finger_motion(out, &mut f1, time, position, hold_jitter_px);
                        } else if f2.id == id {
                            Self::handle_finger_motion(out, &mut f2, time, position, hold_jitter_px);
                        } else {
                            assert(out@ =~= old(out)@ + seq![]);
                        }
                        TouchStates::TwoFingers(f1, f2)
                    },
                    FingerStatus::Up => {
                        if f1.id == id {
                            f1.is_down = false;
                        }
                        if f2.id == id {
                            f2.is_down = false;
                        }
                        if f1.is_down || f2.is_down {
                            assert(out@ =~= old(out)@ + seq![]);
                            return TouchStates::TwoFingers(f1, f2);
                        }
                        if !f1.held && !f2.held {
                            if is_within_jitter(f1.positions.as_slice(), tap_jitter_px)
                                && is_within_jitter(f2.positions.as_slice(), tap_jitter_px) {
                                out.push(GestureEvent::MultiTap([f1.positions[0], f2.positions[0]]));
                            } else {
                                match interpret_double_gesture(
                                    f1.positions.as_slice(),
                                    f2.positions.as_slice(),
                                ) {
                                    Some(g) => out.push(g),
                                    None => {},
                                }
                            }
                        }
                        assert(out@ =~= old(out)@ + spec_double_up(f1@, f2@, tap_jitter_px));
                        TouchStates::NoTouch
                    },
                }
            },
        }
    }

    /// Reaction of the button slot to one button event.
    fn button_transition(
        btn_state: BtnStates,
        time: u64,
        code: ButtonCode,
        status: ButtonStatus,
        out: &mut Vec<GestureEvent>,
    ) -> (r: BtnStates)
        requires
            btn_state.wf(),
        ensures
            ({
                let m = MachineView {
                    state: TouchView::NoTouch,
                    btn_state,
                    tap_jitter_px: 0,
                    hold_jitter_px: 0,
                };
                let step = spec_button_step(m, time, code, status);
                &&& r == step.0.btn_state
                &&& final(out)@ == old(out)@ + step.1
            }),
            r.wf(),
    {
        match status {
            ButtonStatus::Pressed => match btn_state {
                BtnStates::NotPressed => {
                    assert(out@ =~= old(out)@ + seq![]);
                    BtnStates::Pressed(BtnState { time, held: false, long_held: false })
                },
                BtnStates::Pressed(b) => match hold_trigger(b.held, b.long_held, b.time, time) {
                    Some(HoldLevel::Long) => {
                        out.push(GestureEvent::HoldButtonLong(code));
                        BtnStates::Pressed(BtnState { time: b.time, held: b.held, long_held: true })
                    },
                    Some(HoldLevel::Short) => {
                        out.push(GestureEvent::HoldButtonShort(code));
                        BtnStates::Pressed(BtnState { time: b.time, held: true, long_held: b.long_held })
                    },
                    None => {
                        assert(out@ =~= old(out)@ + seq![]);
                        BtnStates::Pressed(b)
                    },
                },
            },
            ButtonStatus::Released => {
                assert(out@ =~= old(out)@ + seq![]);
                BtnStates::NotPressed
            },
            ButtonStatus::Repeated => {
                assert(out@ =~= old(out)@ + seq![]);
                btn_state
            },
        }
    }

    /// Given the device input event `ev`, appends the `GestureEvent`s that it
    /// triggers to `out`, in order, and computes the next state of the machine.
    pub fn transition(self, ev: DeviceEvent, out: &mut Vec<GestureEvent>) -> (r: Self)
        requires
            self@.wf(),
        ensures
            r@ == spec_transition(self@, ev).0,
            final(out)@ == old(out)@ + spec_transition(self@, ev).1,
            r@.wf(),
    {
        let StateMachine { state, btn_state, tap_jitter_px, hold_jitter_px } = self;
        match ev {
            DeviceEvent::Finger { id, time, status, position } => {
                let state = Self::finger_transition(
                    state,
                    id,
                    time,
                    status,
                    position,
                    tap_jitter_px,
                    hold_jitter_px,
                    out,
                );
                StateMachine { state, btn_state, tap_jitter_px, hold_jitter_px }
            },
            DeviceEvent::Button { time, code, status } => {
                let btn_state = Self::button_transition(btn_state, time, code, status, out);
                StateMachine { state, btn_state, tap_jitter_px, hold_jitter_px }
            },
            _ => {
                assert(out@ =~= old(out)@ + seq![]);
                StateMachine { state, btn_state, tap_jitter_px, hold_jitter_px }
            },
        }
    }
}

} // verus!
