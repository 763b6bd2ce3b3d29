//! The state that the tick, link and USB handlers share on one half, and
//! the decisions taken on it each tick: routing scanned transitions,
//! applying custom actions, and whether this half may flush reports.
use vstd::prelude::*;
use crate::codec::{MatrixEvent, event_of};
use crate::layout::{CustomAction, CustomEvent};
use crate::mouse::{Mouse, MouseState, action_state, start_state};
use crate::router::{Half, Routed, other_half, route_local, route_remote, routed_local, remote_to_layout};
use crate::scanner::{
    COLS, DEBOUNCE_DEPTH, Grid, ROWS, ScanOutcome, Scanner, grid_view, lemma_diff_events_in_matrix, scan_next, scan_result,
};

verus! {

/// Which half presents reports to the host, as seen from one half.
#[derive(Clone, Copy, Debug, PartialEq, Eq, Structural)]
pub enum ActiveLinkDirection {
    ThisHalfIsHost,
    OtherHalfIsHost,
}

pub open spec fn toggled(d: ActiveLinkDirection) -> ActiveLinkDirection {
    match d {
        ActiveLinkDirection::ThisHalfIsHost => ActiveLinkDirection::OtherHalfIsHost,
        ActiveLinkDirection::OtherHalfIsHost => ActiveLinkDirection::ThisHalfIsHost,
    }
}

/// The link direction after a tick's custom event: a press of the
/// hand-over action toggles it.
pub open spec fn link_after(d: ActiveLinkDirection, ev: CustomEvent) -> ActiveLinkDirection {
    if ev == CustomEvent::Press(CustomAction::USB) {
        toggled(d)
    } else {
        d
    }
}

/// The mouse engine after a tick's custom event.
pub open spec fn mouse_after(m: MouseState, ev: CustomEvent) -> MouseState {
    match ev {
        CustomEvent::Press(CustomAction::M(a)) => action_state(m, a, true),
        CustomEvent::Release(CustomAction::M(a)) => action_state(m, a, false),
        _ => m,
    }
}

/// Whether the right half is the host, as seen from `half`.
pub open spec fn right_is_host(half: Half, d: ActiveLinkDirection) -> bool {
    (half == Half::Right) == (d == ActiveLinkDirection::ThisHalfIsHost)
}

/// Whether a half with link direction `d` flushes reports to a configured
/// device.
pub open spec fn flushes(d: ActiveLinkDirection) -> bool {
    d == ActiveLinkDirection::ThisHalfIsHost
}

pub open spec fn routed_all(half: Half, evs: Seq<MatrixEvent>) -> Seq<Routed> {
    evs.map_values(|e: MatrixEvent| routed_local(half, e))
}

/// One half's shared state.
pub struct Keyboard {
    pub half: Half,
    pub link: ActiveLinkDirection,
    pub mouse: Mouse,
    pub scanner: Scanner,
}

impl Keyboard {
    pub open spec fn wf(&self) -> bool {
        self.mouse.wf() && self.scanner.wf()
    }

    /// The state of `half` at start-up: the right half is host.
    pub fn new(half: Half) -> (k: Keyboard)
        ensures
            k.wf(),
            k.half == half,
            right_is_host(half, k.link),
            k.mouse@ == start_state(),
            k.scanner@.settled == grid_view([[false; COLS]; ROWS]),
            k.scanner@.candidate == k.scanner@.settled,
            k.scanner@.prev_raw == k.scanner@.settled,
            k.scanner@.since == 0,
            k.scanner@.bound + 1 == DEBOUNCE_DEPTH,
    {
        let link = if half == Half::Right {
            ActiveLinkDirection::ThisHalfIsHost
        } else {
            ActiveLinkDirection::OtherHalfIsHost
        };
        Keyboard { half, link, mouse: Mouse::new(), scanner: Scanner::new() }
    }

    /// Scans one raw sample. `None` asks for the bootloader; otherwise each
    /// settled transition comes with the frame to send to the other half
    /// and the transition for this half's layout engine, in scan order.
    pub fn scan_matrix(&mut self, raw: Grid) -> (r: Option<Vec<Routed>>)
        requires
            old(self).wf(),
        ensures
            final(self).wf(),
            final(self).scanner@ == scan_next(old(self).scanner@, grid_view(raw)),
            final(self).half == old(self).half,
            final(self).link == old(self).link,
            final(self).mouse == old(self).mouse,
            r is None <==> scan_result(old(self).scanner@, grid_view(raw)) is None,
            r is Some ==> r.unwrap()@ == routed_all(
                old(self).half,
                scan_result(old(self).scanner@, grid_view(raw)).unwrap(),
            ),
    {
        let ghost st = self.scanner@;
        match self.scanner.scan(raw) {
            ScanOutcome::Bootload => None,
            ScanOutcome::Events(evs) => {
                proof {
                    lemma_diff_events_in_matrix(st.settled, grid_view(raw), ROWS as int);
                }
                let mut out: Vec<Routed> = Vec::new();
                let mut i: usize = 0;
                while i < evs.len()
                    invariant
                        0 <= i <= evs.len(),
                        forall|k: int| 0 <= k < evs@.len() ==> (#[trigger] evs@[k]).column < COLS,
                        out@ == evs@.take(i as int).map_values(|e: MatrixEvent| routed_local(self.half, e)),
                    decreases evs.len() - i,
                {
                    out.push(route_local(self.half, evs[i]));
                    i = i + 1;
                    assert(out@ =~= evs@.take(i as int).map_values(|e: MatrixEvent| routed_local(self.half, e)));
                }
                assert(evs@.take(i as int) =~= evs@);
                Some(out)
            },
        }
    }

    /// The transition for this half's layout engine of a byte received
    /// from the other half; `None` drops a byte that does not decode.
    pub fn receive(&self, b: u8) -> (r: Option<MatrixEvent>)
        ensures
            r == Some(remote_to_layout(self.half, event_of(b))),
    {
        route_remote(self.half, b)
    }

    /// Applies the tick's custom event: the hand-over action toggles the
    /// link direction, mouse actions go to the mouse engine.
    pub fn handle_custom_event(&mut self, ev: CustomEvent)
        requires
            old(self).wf(),
        ensures
            final(self).wf(),
            final(self).link == link_after(old(self).link, ev),
            final(self).mouse@ == mouse_after(old(self).mouse@, ev),
            final(self).half == old(self).half,
            final(self).scanner == old(self).scanner,
    {
        match ev {
            CustomEvent::Press(CustomAction::USB) => {
                self.link = match self.link {
                    ActiveLinkDirection::ThisHalfIsHost => ActiveLinkDirection::OtherHalfIsHost,
                    ActiveLinkDirection::OtherHalfIsHost => ActiveLinkDirection::ThisHalfIsHost,
                };
            },
            CustomEvent::Press(CustomAction::M(a)) => self.mouse.handle_mouse_btn(&a, true),
            CustomEvent::Release(CustomAction::M(a)) => self.mouse.handle_mouse_btn(&a, false),
            _ => {},
        }
    }

    /// Whether this half flushes its keyboard report this tick.
    pub fn should_flush(&self, configured: bool) -> (r: bool)
        ensures
            r == (configured && flushes(self.link)),
    {
        configured && self.link == ActiveLinkDirection::ThisHalfIsHost
    }

    /// Whether this half flushes its mouse report this tick: only while
    /// the mouse engine is active.
    pub fn should_flush_mouse(&self, configured: bool) -> (r: bool)
        ensures
            r == (configured && flushes(self.link) && self.mouse.active),
    {
        self.should_flush(configured) && self.mouse.active
    }

    /// Whether the right half is the host, as this half sees it.
    pub fn right_is_host(&self) -> (r: bool)
        ensures
            r == right_is_host(self.half, self.link),
    {
        (self.half == Half::Right) == (self.link == ActiveLinkDirection::ThisHalfIsHost)
    }
}

/// Handing over the host: two halves that agree on which of them is host
/// still agree after both handle the same custom event, and with both
/// devices configured exactly one of them flushes, before and after. A
/// press of the hand-over action moves flushing to the other half at once.
pub proof fn lemma_handover(half: Half, this: ActiveLinkDirection, other: ActiveLinkDirection, ev: CustomEvent)
    requires
        right_is_host(half, this) == right_is_host(other_half(half), other),
    ensures
        right_is_host(half, link_after(this, ev)) == right_is_host(
            other_half(half),
            link_after(other, ev),
        ),
        flushes(this) != flushes(other),
        flushes(link_after(this, ev)) != flushes(link_after(other, ev)),
        ev == CustomEvent::Press(CustomAction::USB) ==> flushes(link_after(this, ev)) != flushes(this),
        ev != CustomEvent::Press(CustomAction::USB) ==> link_after(this, ev) == this,
{
}

} // verus!
