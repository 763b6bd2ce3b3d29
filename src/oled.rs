//! Display feedback: the panel shows the current layer and which half is
//! host, and is redrawn only when either changes.
use vstd::prelude::*;

verus! {

/// One call of `draw` on what the panel shows, `(layer, uru)`: what it
/// shows next, and whether it is redrawn.
pub open spec fn draw_step(shown: (usize, bool), cur: (usize, bool)) -> ((usize, bool), bool) {
    (cur, cur != shown)
}

/// Successive calls of `draw` from `start`: what the panel shows at the
/// end, and how many times it was redrawn.
pub open spec fn draw_run(start: (usize, bool), calls: Seq<(usize, bool)>) -> ((usize, bool), nat)
    decreases calls.len(),
{
    if calls.len() == 0 {
        (start, 0)
    } else {
        let (shown, count) = draw_run(start, calls.drop_last());
        let (next, redraw) = draw_step(shown, calls.last());
        (next, count + if redraw { 1nat } else { 0nat })
    }
}

/// How many of `calls` differ from the one before them, the first from
/// `start`.
pub open spec fn changes(start: (usize, bool), calls: Seq<(usize, bool)>) -> nat
    decreases calls.len(),
{
    if calls.len() == 0 {
        0
    } else {
        let before = if calls.len() == 1 { start } else { calls[calls.len() - 2] };
        changes(start, calls.drop_last()) + if calls.last() != before { 1nat } else { 0nat }
    }
}

/// Redraw suppression over a sequence of calls: the panel is redrawn once
/// for each call whose layer or direction differs from the call before it,
/// the first call being compared with the start state.
pub proof fn lemma_redraw_count(start: (usize, bool), calls: Seq<(usize, bool)>)
    ensures
        draw_run(start, calls).1 == changes(start, calls),
        draw_run(start, calls).0 == if calls.len() == 0 { start } else { calls.last() },
    decreases calls.len(),
{
    if calls.len() > 0 {
        lemma_redraw_count(start, calls.drop_last());
    }
}

/// Repeating one layer and direction redraws the panel at most once: once
/// if it differs from the start state, never otherwise.
pub proof fn lemma_repeated_draws(start: (usize, bool), calls: Seq<(usize, bool)>, c: (usize, bool))
    requires
        forall|i: int| 0 <= i < calls.len() ==> #[trigger] calls[i] == c,
    ensures
        draw_run(start, calls).1 == if calls.len() > 0 && c != start { 1nat } else { 0nat },
    decreases calls.len(),
{
    if calls.len() > 0 {
        let before = calls.drop_last();
        assert(forall|i: int| 0 <= i < before.len() ==> #[trigger] before[i] == calls[i]);
        lemma_repeated_draws(start, before, c);
        lemma_redraw_count(start, before);
    }
}

/// What the panel last showed.
pub struct OLED {
    pub prev_layer: usize,
    pub prev_uru: bool,
}

impl OLED {
    /// The state at start-up: layer 0, with the left half as host.
    pub fn new() -> (o: OLED)
        ensures
            o.prev_layer == 0,
            !o.prev_uru,
    {
        OLED { prev_layer: 0, prev_uru: false }
    }

    /// Records the layer and direction of this tick (`uru`: the right half
    /// is host) and tells whether the panel must be redrawn, which is when
    /// either differs from what it last showed.
    pub fn draw(&mut self, curr_layer: usize, uru: bool) -> (redraw: bool)
        ensures
            redraw == (curr_layer != old(self).prev_layer || uru != old(self).prev_uru),
            final(self).prev_layer == curr_layer,
            final(self).prev_uru == uru,
            ((final(self).prev_layer, final(self).prev_uru), redraw) == draw_step(
                (old(self).prev_layer, old(self).prev_uru),
                (curr_layer, uru),
            ),
    {
        if curr_layer != self.prev_layer || uru != self.prev_uru {
            self.prev_layer = curr_layer;
            self.prev_uru = uru;
            true
        } else {
            false
        }
    }
}

/// The arrow that points at the host half.
pub fn direction_arrow(uru: bool) -> (s: &'static str)
    ensures
        s@ == if uru { "-->"@ } else { "<--"@ },
{
    if uru {
        "-->"
    } else {
        "<--"
    }
}

} // verus!
