//! The mouse engine: button mask, per-direction acceleration counters and
//! scroll repetition, driven by press and release of mouse actions.
use vstd::prelude::*;

verus! {

/// A direction of pointer motion or scrolling.
#[derive(Clone, Copy, Debug, PartialEq, Eq, Structural)]
pub enum Dir {
    Up,
    Down,
    Left,
    Right,
}

/// A mouse action that a layer can bind to a key.
#[derive(Clone, Copy, Debug, PartialEq, Eq, Structural)]
pub enum MAction {
    ToggleActive,
    Left,
    Right,
    Middle,
    Move(Dir),
    Speedup,
    Scroll(Dir),
}

/// The wheel-mouse report presented to the host.
#[derive(Clone, Copy, Debug, PartialEq, Eq, Structural)]
pub struct MouseReport {
    pub buttons: u8,
    pub x: i8,
    pub y: i8,
    pub vertical_wheel: i8,
    pub horizontal_wheel: i8,
}

/// Step by which a movement press raises its direction's counter.
pub const DEFAULT_SPEED: i8 = 4;

/// Boost that a held speed-up adds to every counter.
pub const SPEED_ADD: i8 = 6;

/// Ticks after which a scroll step is cleared from the report.
pub const SCROLL_CLEAR_TICKS: u8 = 10;

/// Ticks after which a held scroll repeats.
pub const SCROLL_REPEAT_TICKS: u8 = 100;

pub const LEFT_BUTTON: u8 = 0x1;

pub const RIGHT_BUTTON: u8 = 0x2;

pub const MIDDLE_BUTTON: u8 = 0x4;

/// The state of the mouse engine.
pub struct Mouse {
    pub report: MouseReport,
    pub active: bool,
    pub move_btn_press_vals: [i8; 4],
    /// The counters that the held speed-up boosted.
    pub boosted: [bool; 4],
    pub scroll_dir: i8,
    pub scroll_ticks: u8,
    pub scroll_is_vert: bool,
}

/// The mouse engine's state as a mathematical value.
pub struct MouseState {
    pub report: MouseReport,
    pub active: bool,
    pub press_vals: Seq<i8>,
    pub boosted: Seq<bool>,
    pub scroll_dir: i8,
    pub scroll_ticks: u8,
    pub scroll_is_vert: bool,
}

impl View for Mouse {
    type V = MouseState;

    open spec fn view(&self) -> MouseState {
        MouseState {
            report: self.report,
            active: self.active,
            press_vals: self.move_btn_press_vals@,
            boosted: self.boosted@,
            scroll_dir: self.scroll_dir,
            scroll_ticks: self.scroll_ticks,
            scroll_is_vert: self.scroll_is_vert,
        }
    }
}

/// `v` saturated to the range of `i8`.
pub open spec fn clamp_i8(v: int) -> i8 {
    if v > 127 {
        127
    } else if v < -128 {
        -128i8
    } else {
        v as i8
    }
}

/// Where a direction's counter sits among the four.
pub open spec fn dir_index(d: Dir) -> int {
    match d {
        Dir::Up => 0,
        Dir::Down => 1,
        Dir::Left => 2,
        Dir::Right => 3,
    }
}

/// The direction whose counter sits at `i`.
pub open spec fn dir_at(i: int) -> Dir {
    if i == 0 {
        Dir::Up
    } else if i == 1 {
        Dir::Down
    } else if i == 2 {
        Dir::Left
    } else {
        Dir::Right
    }
}

/// A motion of `v` towards `d` on its axis: up and left lower y and x.
pub open spec fn toward(d: Dir, v: int) -> int {
    match d {
        Dir::Up | Dir::Left => -v,
        Dir::Down | Dir::Right => v,
    }
}

/// The wheel value of a scroll towards `d`.
pub open spec fn scroll_sign(d: Dir) -> i8 {
    match d {
        Dir::Up | Dir::Right => 1,
        Dir::Down | Dir::Left => -1i8,
    }
}

pub open spec fn is_vertical(d: Dir) -> bool {
    d == Dir::Up || d == Dir::Down
}

/// `r` with the axis of `d` moved by `amount`, saturating.
pub open spec fn nudge(r: MouseReport, d: Dir, amount: int) -> MouseReport {
    if is_vertical(d) {
        MouseReport { y: clamp_i8(r.y + amount), ..r }
    } else {
        MouseReport { x: clamp_i8(r.x + amount), ..r }
    }
}

/// The bit of a button action in the report's mask.
pub open spec fn button_bit(a: MAction) -> u8 {
    match a {
        MAction::Left => LEFT_BUTTON,
        MAction::Right => RIGHT_BUTTON,
        _ => MIDDLE_BUTTON,
    }
}

pub open spec fn is_button(a: MAction) -> bool {
    a == MAction::Left || a == MAction::Right || a == MAction::Middle
}

/// The boosts of a speed-up applied to `r` in counter order, for those
/// of the first `n` counters that `moving` marks; `sign` is 1 on press and
/// -1 on release.
pub open spec fn speedup_nudges(r: MouseReport, moving: Seq<bool>, n: int, sign: int) -> MouseReport
    decreases n,
{
    if n <= 0 {
        r
    } else {
        let prev = speedup_nudges(r, moving, n - 1, sign);
        if moving[n - 1] {
            nudge(prev, dir_at(n - 1), toward(dir_at(n - 1), sign * SPEED_ADD))
        } else {
            prev
        }
    }
}

/// The counters that a speed-up press boosts: those that are non-zero.
pub open spec fn boost_targets(vals: Seq<i8>) -> Seq<bool> {
    Seq::new(vals.len(), |i: int| vals[i] != 0)
}

/// The counters marked in `targets` moved by `delta`, saturating.
pub open spec fn shift_marked(vals: Seq<i8>, targets: Seq<bool>, delta: int) -> Seq<i8> {
    Seq::new(vals.len(), |i: int| if targets[i] { clamp_i8(vals[i] + delta) } else { vals[i] })
}

/// The counters that a speed-up release moves the pointer back for: those
/// it boosted that are still non-zero once the boost is removed.
pub open spec fn unboost_moving(vals: Seq<i8>, boosted: Seq<bool>) -> Seq<bool> {
    Seq::new(vals.len(), |i: int| boosted[i] && vals[i] != 0)
}

pub open spec fn no_boost() -> Seq<bool> {
    seq![false, false, false, false]
}

/// The state after a press of `a`. While the engine is inactive, button,
/// motion and scroll actions leave the report alone, though the counters
/// still follow every press and release.
pub open spec fn press_state(s: MouseState, a: MAction) -> MouseState {
    match a {
        MAction::ToggleActive => MouseState { active: !s.active, ..s },
        MAction::Left | MAction::Right | MAction::Middle => if s.active {
            MouseState { report: MouseReport { buttons: s.report.buttons | button_bit(a), ..s.report }, ..s }
        } else {
            s
        },
        MAction::Move(d) => {
            let k = dir_index(d);
            let v = clamp_i8(s.press_vals[k] + DEFAULT_SPEED);
            MouseState {
                press_vals: s.press_vals.update(k, v),
                report: if s.active { nudge(s.report, d, toward(d, v as int)) } else { s.report },
                ..s
            }
        },
        MAction::Speedup => {
            let targets = boost_targets(s.press_vals);
            MouseState {
                press_vals: shift_marked(s.press_vals, targets, SPEED_ADD as int),
                boosted: targets,
                report: if s.active { speedup_nudges(s.report, targets, 4, 1) } else { s.report },
                ..s
            }
        },
        MAction::Scroll(d) => if s.active {
            MouseState {
                scroll_dir: scroll_sign(d),
                scroll_is_vert: is_vertical(d),
                report: if is_vertical(d) {
                    MouseReport { vertical_wheel: scroll_sign(d), ..s.report }
                } else {
                    MouseReport { horizontal_wheel: scroll_sign(d), ..s.report }
                },
                ..s
            }
        } else {
            s
        },
    }
}

/// The state after a release of `a`.
pub open spec fn release_state(s: MouseState, a: MAction) -> MouseState {
    match a {
        MAction::ToggleActive => s,
        MAction::Left | MAction::Right | MAction::Middle => if s.active {
            MouseState {
                report: MouseReport { buttons: s.report.buttons & (0xFFu8 - button_bit(a)) as u8, ..s.report },
                ..s
            }
        } else {
            s
        },
        MAction::Move(d) => {
            let k = dir_index(d);
            let v = s.press_vals[k];
            MouseState {
                press_vals: s.press_vals.update(k, clamp_i8(v - DEFAULT_SPEED)),
                report: if s.active { nudge(s.report, d, toward(d, -v)) } else { s.report },
                ..s
            }
        },
        MAction::Speedup => {
            let vals = shift_marked(s.press_vals, s.boosted, -SPEED_ADD);
            MouseState {
                press_vals: vals,
                boosted: no_boost(),
                report: if s.active {
                    speedup_nudges(s.report, unboost_moving(vals, s.boosted), 4, -1)
                } else {
                    s.report
                },
                ..s
            }
        },
        MAction::Scroll(_) => if s.active {
            MouseState {
                scroll_dir: 0,
                scroll_ticks: 0,
                report: MouseReport { vertical_wheel: 0, horizontal_wheel: 0, ..s.report },
                ..s
            }
        } else {
            s
        },
    }
}

pub open spec fn action_state(s: MouseState, a: MAction, is_pressed: bool) -> MouseState {
    if is_pressed {
        press_state(s, a)
    } else {
        release_state(s, a)
    }
}

/// The state after one tick: a held scroll shows its step for the first
/// ticks of every repeat period and clears it for the rest.
pub open spec fn tick_state(s: MouseState) -> MouseState {
    if s.scroll_dir != 0 {
        let t = s.scroll_ticks + 1;
        let r = if t == SCROLL_CLEAR_TICKS {
            if s.scroll_is_vert {
                MouseReport { vertical_wheel: 0, ..s.report }
            } else {
                MouseReport { horizontal_wheel: 0, ..s.report }
            }
        } else {
            s.report
        };
        if t == SCROLL_REPEAT_TICKS {
            MouseState {
                scroll_ticks: 0,
                report: if s.scroll_is_vert {
                    MouseReport { vertical_wheel: s.scroll_dir, ..r }
                } else {
                    MouseReport { horizontal_wheel: s.scroll_dir, ..r }
                },
                ..s
            }
        } else {
            MouseState { scroll_ticks: t as u8, report: r, ..s }
        }
    } else {
        MouseState {
            scroll_ticks: 0,
            report: MouseReport { vertical_wheel: 0, horizontal_wheel: 0, ..s.report },
            ..s
        }
    }
}

/// An active engine with no buttons held, no motion and no scroll.
pub open spec fn start_state() -> MouseState {
    MouseState {
        report: MouseReport { buttons: 0, x: 0, y: 0, vertical_wheel: 0, horizontal_wheel: 0 },
        active: true,
        press_vals: seq![0i8, 0i8, 0i8, 0i8],
        boosted: no_boost(),
        scroll_dir: 0,
        scroll_ticks: 0,
        scroll_is_vert: false,
    }
}

pub open spec fn well_formed(s: MouseState) -> bool {
    s.press_vals.len() == 4 && s.boosted.len() == 4 && s.scroll_ticks < SCROLL_REPEAT_TICKS
}

/// The state after `n` ticks.
pub open spec fn ticks(s: MouseState, n: nat) -> MouseState
    decreases n,
{
    if n == 0 {
        s
    } else {
        tick_state(ticks(s, (n - 1) as nat))
    }
}

proof fn lemma_ticks_keep_counters(s: MouseState, n: nat)
    ensures
        ticks(s, n).press_vals == s.press_vals,
        ticks(s, n).boosted == s.boosted,
        ticks(s, n).active == s.active,
    decreases n,
{
    if n > 0 {
        lemma_ticks_keep_counters(s, (n - 1) as nat);
    }
}

/// A press of a movement action, any number of ticks, then its release
/// leave every counter as it was before the press, as long as the press
/// itself does not saturate its counter.
pub proof fn lemma_move_round_trip(s: MouseState, d: Dir, n: nat)
    requires
        well_formed(s),
        s.press_vals[dir_index(d)] + DEFAULT_SPEED <= 127,
    ensures
        release_state(ticks(press_state(s, MAction::Move(d)), n), MAction::Move(d)).press_vals == s.press_vals,
{
    let p = press_state(s, MAction::Move(d));
    lemma_ticks_keep_counters(p, n);
    let r = release_state(ticks(p, n), MAction::Move(d));
    assert(r.press_vals =~= s.press_vals);
}

/// A press of the speed-up, any number of ticks, then its release leave
/// every counter as it was before the press, as long as the boost does
/// not saturate a counter.
pub proof fn lemma_speedup_round_trip(s: MouseState, n: nat)
    requires
        well_formed(s),
        forall|k: int| 0 <= k < 4 ==> s.press_vals[k] + SPEED_ADD <= 127,
    ensures
        release_state(ticks(press_state(s, MAction::Speedup), n), MAction::Speedup).press_vals == s.press_vals,
        release_state(ticks(press_state(s, MAction::Speedup), n), MAction::Speedup).boosted == no_boost(),
{
    let p = press_state(s, MAction::Speedup);
    lemma_ticks_keep_counters(p, n);
    let r = release_state(ticks(p, n), MAction::Speedup);
    assert(r.press_vals =~= s.press_vals);
}

/// While the engine is inactive, no action but the toggle changes the
/// report: buttons, motion and wheels stay as they are.
pub proof fn lemma_inactive_ignores(s: MouseState, a: MAction, is_pressed: bool)
    requires
        !s.active,
        a != MAction::ToggleActive,
    ensures
        action_state(s, a, is_pressed).report == s.report,
        !action_state(s, a, is_pressed).active,
{
}

/// Whether a press of `a` on an active engine in state `s` has something to
/// change: a button not yet held, a motion with a counter that is not
/// negative and an axis not at its limit that way, a scroll on an axis whose
/// wheel is still.
pub open spec fn press_has_effect(s: MouseState, a: MAction) -> bool {
    match a {
        MAction::Left | MAction::Right | MAction::Middle => s.report.buttons & button_bit(a) == 0,
        MAction::Move(d) => s.press_vals[dir_index(d)] >= 0 && match d {
            Dir::Up => s.report.y > -128,
            Dir::Down => s.report.y < 127,
            Dir::Left => s.report.x > -128,
            Dir::Right => s.report.x < 127,
        },
        MAction::Scroll(d) => if is_vertical(d) {
            s.report.vertical_wheel == 0
        } else {
            s.report.horizontal_wheel == 0
        },
        _ => false,
    }
}

/// Toggling an inactive engine back on makes the next button, motion or
/// scroll press change the report again, where it has something to change.
pub proof fn lemma_reactivation(s: MouseState, a: MAction)
    requires
        well_formed(s),
        !s.active,
        press_has_effect(s, a),
    ensures
        ({
            let on = action_state(action_state(s, MAction::ToggleActive, true), MAction::ToggleActive, false);
            on.active && press_state(on, a).report != s.report
        }),
{
    let on = action_state(action_state(s, MAction::ToggleActive, true), MAction::ToggleActive, false);
    assert(on.report == s.report);
    match a {
        MAction::Left | MAction::Right | MAction::Middle => {
            let b = s.report.buttons;
            let bit = button_bit(a);
            assert(bit == 1 || bit == 2 || bit == 4);
            assert((b & bit) == 0 && (bit == 1u8 || bit == 2u8 || bit == 4u8) ==> (b | bit) != b) by (bit_vector);
        },
        _ => {},
    }
}

/// `a + b` saturated to the range of `i8`.
fn sat_add(a: i8, b: i8) -> (r: i8)
    ensures
        r == clamp_i8(a + b),
{
    let s: i16 = a as i16 + b as i16;
    if s > 127 {
        127
    } else if s < -128 {
        -128i8
    } else {
        s as i8
    }
}

/// `a - b` saturated to the range of `i8`.
fn sat_sub(a: i8, b: i8) -> (r: i8)
    ensures
        r == clamp_i8(a - b),
{
    let s: i16 = a as i16 - b as i16;
    if s > 127 {
        127
    } else if s < -128 {
        -128i8
    } else {
        s as i8
    }
}

/// Moves the report along the axis of `d` by `v`, towards `d` when
/// `forward` holds and away from it otherwise.
fn move_pointer(r: &mut MouseReport, d: Dir, v: i8, forward: bool)
    ensures
        *final(r) == nudge(*old(r), d, if forward { toward(d, v as int) } else { toward(d, -v) }),
{
    let towards_larger: bool = match d {
        Dir::Up | Dir::Left => !forward,
        Dir::Down | Dir::Right => forward,
    };
    match d {
        Dir::Up | Dir::Down => {
            r.y = if towards_larger { sat_add(r.y, v) } else { sat_sub(r.y, v) };
        },
        Dir::Left | Dir::Right => {
            r.x = if towards_larger { sat_add(r.x, v) } else { sat_sub(r.x, v) };
        },
    }
}

/// The direction whose counter sits at `i`.
fn dir_at_index(i: usize) -> (d: Dir)
    requires
        i < 4,
    ensures
        d == dir_at(i as int),
        dir_index(d) == i,
{
    if i == 0 {
        Dir::Up
    } else if i == 1 {
        Dir::Down
    } else if i == 2 {
        Dir::Left
    } else {
        Dir::Right
    }
}

/// Where the counter of `d` sits.
fn index_of_dir(d: Dir) -> (i: usize)
    ensures
        i == dir_index(d),
        i < 4,
{
    match d {
        Dir::Up => 0,
        Dir::Down => 1,
        Dir::Left => 2,
        Dir::Right => 3,
    }
}

/// The bit of a button action.
fn bit_of(a: MAction) -> (b: u8)
    ensures
        b == button_bit(a),
{
    match a {
        MAction::Left => LEFT_BUTTON,
        MAction::Right => RIGHT_BUTTON,
        _ => MIDDLE_BUTTON,
    }
}

impl Mouse {
    pub open spec fn wf(&self) -> bool {
        well_formed(self@)
    }

    /// An active engine with no buttons held, no motion and no scroll.
    pub fn new() -> (m: Mouse)
        ensures
            m.wf(),
            m@ == start_state(),
    {
        let m = Mouse {
            report: MouseReport { buttons: 0, x: 0, y: 0, vertical_wheel: 0, horizontal_wheel: 0 },
            active: true,
            move_btn_press_vals: [0i8; 4],
            boosted: [false; 4],
            scroll_dir: 0,
            scroll_ticks: 0,
            scroll_is_vert: false,
        };
        assert(m@.press_vals =~= seq![0i8, 0i8, 0i8, 0i8]);
        assert(m@.boosted =~= no_boost());
        m
    }

    /// Applies a press or release of `action` to the engine.
    pub fn handle_mouse_btn(&mut self, action: &MAction, is_pressed: bool)
        requires
            old(self).wf(),
        ensures
            final(self)@ == action_state(old(self)@, *action, is_pressed),
            final(self).wf(),
    {
        if is_pressed {
            self.press(*action);
        } else {
            self.release(*action);
        }
    }

    fn press(&mut self, action: MAction)
        requires
            old(self).wf(),
        ensures
            final(self)@ == press_state(old(self)@, action),
    {
        match action {
            MAction::ToggleActive => {
                self.active = !self.active;
            },
            MAction::Left | MAction::Right | MAction::Middle => {
                if self.active {
                    self.report.buttons = self.report.buttons | bit_of(action);
                }
            },
            MAction::Move(d) => {
                let k: usize = index_of_dir(d);
                let v: i8 = sat_add(self.move_btn_press_vals[k], DEFAULT_SPEED);
                self.move_btn_press_vals[k] = v;
                if self.active {
                    move_pointer(&mut self.report, d, v, true);
                }
                assert(self@.press_vals =~= old(self)@.press_vals.update(k as int, v));
            },
            MAction::Speedup => {
                self.boost(true);
            },
            MAction::Scroll(d) => {
                if self.active {
                    let (dir, vert): (i8, bool) = match d {
                        Dir::Up => (1i8, true),
                        Dir::Down => (-1i8, true),
                        Dir::Left => (-1i8, false),
                        Dir::Right => (1i8, false),
                    };
                    self.scroll_dir = dir;
                    self.scroll_is_vert = vert;
                    if vert {
                        self.report.vertical_wheel = dir;
                    } else {
                        self.report.horizontal_wheel = dir;
                    }
                }
            },
        }
    }

    fn release(&mut self, action: MAction)
        requires
            old(self).wf(),
        ensures
            final(self)@ == release_state(old(self)@, action),
    {
        match action {
            MAction::ToggleActive => {},
            MAction::Left | MAction::Right | MAction::Middle => {
                if self.active {
                    self.report.buttons = self.report.buttons & (0xFF - bit_of(action));
                }
            },
            MAction::Move(d) => {
                let k: usize = index_of_dir(d);
                let v: i8 = self.move_btn_press_vals[k];
                if self.active {
                    move_pointer(&mut self.report, d, v, false);
                }
                self.move_btn_press_vals[k] = sat_sub(v, DEFAULT_SPEED);
                assert(self@.press_vals =~= old(self)@.press_vals.update(k as int, clamp_i8(v - DEFAULT_SPEED)));
            },
            MAction::Speedup => {
                self.boost(false);
            },
            MAction::Scroll(_) => {
                if self.active {
                    self.scroll_dir = 0;
                    self.scroll_ticks = 0;
                    self.report.vertical_wheel = 0;
                    self.report.horizontal_wheel = 0;
                }
            },
        }
    }

    /// On press, boosts every non-zero counter and moves the pointer for
    /// it; on release, removes the boost from exactly the counters that
    /// got it, moving the pointer back for those still non-zero.
    fn boost(&mut self, on: bool)
        requires
            old(self).wf(),
        ensures
            on ==> final(self)@ == press_state(old(self)@, MAction::Speedup),
            !on ==> final(self)@ == release_state(old(self)@, MAction::Speedup),
    {
        let ghost s0 = self@;
        let ghost targets = if on { boost_targets(s0.press_vals) } else { s0.boosted };
        let ghost delta: int = if on { SPEED_ADD as int } else { -SPEED_ADD };
        let ghost vals = shift_marked(s0.press_vals, targets, delta);
        let ghost moving = if on { targets } else { unboost_moving(vals, s0.boosted) };
        let ghost sign: int = if on { 1 } else { -1 };
        let mut i: usize = 0;
        while i < 4
            invariant
                0 <= i <= 4,
                s0 == old(self)@,
                well_formed(s0),
                targets == if on { boost_targets(s0.press_vals) } else { s0.boosted },
                delta == if on { SPEED_ADD as int } else { -SPEED_ADD },
                vals == shift_marked(s0.press_vals, targets, delta),
                moving == if on { targets } else { unboost_moving(vals, s0.boosted) },
                sign == if on { 1int } else { -1int },
                self.move_btn_press_vals@.len() == 4,
                self.boosted@.len() == 4,
                forall|k: int| 0 <= k < i ==> self.move_btn_press_vals@[k] == vals[k],
                forall|k: int| i <= k < 4 ==> self.move_btn_press_vals@[k] == s0.press_vals[k],
                forall|k: int| 0 <= k < i ==> #[trigger] self.boosted@[k] == (on && targets[k]),
                forall|k: int| i <= k < 4 ==> self.boosted@[k] == s0.boosted[k],
                self.report == if s0.active { speedup_nudges(s0.report, moving, i as int, sign) } else { s0.report },
                self.active == s0.active,
                self.scroll_dir == s0.scroll_dir,
                self.scroll_ticks == s0.scroll_ticks,
                self.scroll_is_vert == s0.scroll_is_vert,
            decreases 4 - i,
        {
            let v: i8 = self.move_btn_press_vals[i];
            let marked: bool = if on { v != 0 } else { self.boosted[i] };
            assert(marked == targets[i as int]);
            let nv: i8 = if !marked { v } else if on { sat_add(v, SPEED_ADD) } else { sat_sub(v, SPEED_ADD) };
            let moves: bool = if on { marked } else { marked && nv != 0 };
            if self.active && moves {
                move_pointer(&mut self.report, dir_at_index(i), SPEED_ADD, on);
            }
            self.move_btn_press_vals[i] = nv;
            self.boosted[i] = on && marked;
            i = i + 1;
        }
        assert(self@.press_vals =~= vals);
        if on {
            assert(self@.boosted =~= targets);
        } else {
            assert(self@.boosted =~= no_boost());
        }
    }

    /// Advances scroll repetition by one tick.
    pub fn mouse_tick(&mut self)
        requires
            old(self).wf(),
        ensures
            final(self)@ == tick_state(old(self)@),
            final(self).wf(),
    {
        if self.scroll_dir != 0 {
            self.scroll_ticks = self.scroll_ticks + 1;
            if self.scroll_ticks == SCROLL_CLEAR_TICKS {
                if self.scroll_is_vert {
                    self.report.vertical_wheel = 0;
                } else {
                    self.report.horizontal_wheel = 0;
                }
            }
            if self.scroll_ticks == SCROLL_REPEAT_TICKS {
                if self.scroll_is_vert {
                    self.report.vertical_wheel = self.scroll_dir;
                } else {
                    self.report.horizontal_wheel = self.scroll_dir;
                }
                self.scroll_ticks = 0;
            }
        } else {
            self.report.vertical_wheel = 0;
            self.report.horizontal_wheel = 0;
            self.scroll_ticks = 0;
        }
    }
}

} // verus!
