//! Matrix scanning: the bootloader chord on raw samples, then debouncing
//! through keyberon's debouncer into row-major key transitions.
use vstd::prelude::*;
use keyberon::debounce::Debouncer;
use keyberon::layout::Event;
use crate::codec::MatrixEvent;

verus! {

pub const ROWS: usize = 4;

pub const COLS: usize = 6;

/// One raw sample of the matrix: `true` where a switch is closed.
pub type Grid = [[bool; COLS]; ROWS];

/// Number of consecutive identical samples after which a change settles.
pub const DEBOUNCE_DEPTH: u16 = 5;

/// The column of both keys of the bootloader chord.
pub const CHORD_COLUMN: usize = 5;

/// The rows of the two keys of the bootloader chord.
pub const CHORD_TOP_ROW: usize = 0;

pub const CHORD_BOTTOM_ROW: usize = 3;

#[verifier::external_type_specification]
#[verifier::external_body]
#[verifier::reject_recursive_types(T)]
pub struct ExDebouncer<T>(Debouncer<T>);

/// The state a debouncer has settled on.
pub uninterp spec fn debounce_settled(d: Debouncer<Grid>) -> Seq<Seq<bool>>;

/// The sample a debouncer is counting towards settling.
pub uninterp spec fn debounce_candidate(d: Debouncer<Grid>) -> Seq<Seq<bool>>;

/// How many consecutive samples of the candidate a debouncer has seen.
pub uninterp spec fn debounce_since(d: Debouncer<Grid>) -> nat;

/// The count a debouncer must exceed before the candidate settles.
pub uninterp spec fn debounce_bound(d: Debouncer<Grid>) -> nat;

pub open spec fn grid_view(g: Grid) -> Seq<Seq<bool>> {
    g@.map_values(|r: [bool; COLS]| r@)
}

pub open spec fn is_grid(g: Seq<Seq<bool>>) -> bool {
    g.len() == ROWS && forall|i: int| 0 <= i < ROWS ==> #[trigger] g[i].len() == COLS
}

/// One debouncer update on `sample`: the new settled state, candidate and
/// count, and whether the settled state changed.
pub open spec fn debounce_step(
    settled: Seq<Seq<bool>>,
    candidate: Seq<Seq<bool>>,
    since: nat,
    bound: nat,
    sample: Seq<Seq<bool>>,
) -> (Seq<Seq<bool>>, Seq<Seq<bool>>, nat, bool) {
    if settled == sample {
        (settled, candidate, 0, false)
    } else {
        let k: nat = if candidate != sample { 1 } else { since + 1 };
        if k > bound {
            (sample, settled, 0, true)
        } else {
            (settled, sample, k, false)
        }
    }
}

/// The transition at `(i, j)` between two samples, if any.
pub open spec fn cell_events(old: Seq<Seq<bool>>, new: Seq<Seq<bool>>, i: int, j: int) -> Seq<MatrixEvent> {
    if old[i][j] != new[i][j] {
        seq![MatrixEvent { row: i as u8, column: j as u8, pressed: new[i][j] }]
    } else {
        seq![]
    }
}

/// The transitions in the first `n` columns of row `i`, in column order.
pub open spec fn row_events(old: Seq<Seq<bool>>, new: Seq<Seq<bool>>, i: int, n: int) -> Seq<MatrixEvent>
    decreases n,
{
    if n <= 0 {
        seq![]
    } else {
        row_events(old, new, i, n - 1) + cell_events(old, new, i, n - 1)
    }
}

/// The transitions in the first `m` rows, in row-major order.
pub open spec fn diff_events(old: Seq<Seq<bool>>, new: Seq<Seq<bool>>, m: int) -> Seq<MatrixEvent>
    decreases m,
{
    if m <= 0 {
        seq![]
    } else {
        diff_events(old, new, m - 1) + row_events(old, new, m - 1, COLS as int)
    }
}

/// Relies on keyberon's `Debouncer::new`: it starts settled on `cur` with
/// `new` as candidate, no sample counted, and the bound `nb_bounce`.
#[verifier::external_body]
fn new_debouncer(cur: Grid, new: Grid, nb_bounce: u16) -> (d: Debouncer<Grid>)
    ensures
        debounce_settled(d) == grid_view(cur),
        debounce_candidate(d) == grid_view(new),
        debounce_since(d) == 0,
        debounce_bound(d) == nb_bounce,
{
    Debouncer::new(cur, new, nb_bounce)
}

/// Relies on keyberon's `Debouncer::events`: it runs `update` on the
/// sample and, when the settled state changed, yields in row-major order a
/// press for each coordinate that closed and a release for each that opened.
#[verifier::external_body]
fn debounced_events(d: &mut Debouncer<Grid>, sample: Grid) -> (r: Vec<MatrixEvent>)
    requires
        debounce_since(*old(d)) <= debounce_bound(*old(d)) < u16::MAX,
    ensures
        ({
            let (s, c, k, changed) = debounce_step(
                debounce_settled(*old(d)),
                debounce_candidate(*old(d)),
                debounce_since(*old(d)),
                debounce_bound(*old(d)),
                grid_view(sample),
            );
            &&& debounce_settled(*final(d)) == s
            &&& debounce_candidate(*final(d)) == c
            &&& debounce_since(*final(d)) == k
            &&& r@ == if changed { diff_events(debounce_settled(*old(d)), s, ROWS as int) } else { seq![] }
        }),
        debounce_bound(*final(d)) == debounce_bound(*old(d)),
{
    let mut out = Vec::new();
    for e in d.events(sample) {
        out.push(match e {
            Event::Press(row, column) => MatrixEvent { row, column, pressed: true },
            Event::Release(row, column) => MatrixEvent { row, column, pressed: false },
        });
    }
    out
}

/// What one scan produced: a request to enter the bootloader, or the
/// settled transitions of this sample.
pub enum ScanOutcome {
    Bootload,
    Events(Vec<MatrixEvent>),
}

impl View for ScanOutcome {
    /// `None` for a bootloader request.
    type V = Option<Seq<MatrixEvent>>;

    open spec fn view(&self) -> Option<Seq<MatrixEvent>> {
        match self {
            ScanOutcome::Bootload => None,
            ScanOutcome::Events(v) => Some(v@),
        }
    }
}

/// The scanner's state as a mathematical value.
pub struct ScanState {
    pub settled: Seq<Seq<bool>>,
    pub candidate: Seq<Seq<bool>>,
    pub since: nat,
    pub bound: nat,
    pub prev_raw: Seq<Seq<bool>>,
}

pub open spec fn scan_state_wf(st: ScanState) -> bool {
    &&& st.since <= st.bound < u16::MAX
    &&& st.since > 0 ==> st.candidate == st.prev_raw
    &&& is_grid(st.settled)
    &&& is_grid(st.candidate)
    &&& is_grid(st.prev_raw)
}

/// Whether both chord keys are closed in `raw` and were both open in `prev`.
pub open spec fn new_chord(prev: Seq<Seq<bool>>, raw: Seq<Seq<bool>>) -> bool {
    &&& !prev[CHORD_TOP_ROW as int][CHORD_COLUMN as int]
    &&& !prev[CHORD_BOTTOM_ROW as int][CHORD_COLUMN as int]
    &&& raw[CHORD_TOP_ROW as int][CHORD_COLUMN as int]
    &&& raw[CHORD_BOTTOM_ROW as int][CHORD_COLUMN as int]
}

/// The scanner's state after a scan of `raw`; a scan that asks for the
/// bootloader changes nothing.
pub open spec fn scan_next(st: ScanState, raw: Seq<Seq<bool>>) -> ScanState {
    if new_chord(st.prev_raw, raw) {
        st
    } else {
        let (s, c, k, _) = debounce_step(st.settled, st.candidate, st.since, st.bound, raw);
        ScanState { settled: s, candidate: c, since: k, prev_raw: raw, ..st }
    }
}

/// What a scan of `raw` produces.
pub open spec fn scan_result(st: ScanState, raw: Seq<Seq<bool>>) -> Option<Seq<MatrixEvent>> {
    if new_chord(st.prev_raw, raw) {
        None
    } else {
        let (s, _, _, changed) = debounce_step(st.settled, st.candidate, st.since, st.bound, raw);
        Some(if changed { diff_events(st.settled, s, ROWS as int) } else { seq![] })
    }
}

/// Samples the matrix once per tick and turns samples into transitions.
pub struct Scanner {
    debouncer: Debouncer<Grid>,
    prev_raw: Grid,
}

impl View for Scanner {
    type V = ScanState;

    closed spec fn view(&self) -> ScanState {
        ScanState {
            settled: debounce_settled(self.debouncer),
            candidate: debounce_candidate(self.debouncer),
            since: debounce_since(self.debouncer),
            bound: debounce_bound(self.debouncer),
            prev_raw: grid_view(self.prev_raw),
        }
    }
}

proof fn lemma_grid_view(g: Grid)
    ensures
        is_grid(grid_view(g)),
{
}

impl Scanner {
    pub open spec fn wf(&self) -> bool {
        scan_state_wf(self@)
    }

    /// A scanner with every key open, settled and at rest.
    pub fn new() -> (s: Scanner)
        ensures
            s.wf(),
            s@.settled == grid_view([[false; COLS]; ROWS]),
            s@.candidate == s@.settled,
            s@.prev_raw == s@.settled,
            s@.since == 0,
            s@.bound + 1 == DEBOUNCE_DEPTH,
    {
        let open: Grid = [[false; COLS]; ROWS];
        let s = Scanner { debouncer: new_debouncer(open, open, DEBOUNCE_DEPTH - 1), prev_raw: open };
        proof {
            lemma_grid_view(open);
        }
        s
    }

    /// Scans one raw sample: a newly closed bootloader chord asks for the
    /// bootloader and produces no transitions; any other sample goes
    /// through the debouncer.
    pub fn scan(&mut self, raw: Grid) -> (r: ScanOutcome)
        requires
            old(self).wf(),
        ensures
            final(self).wf(),
            final(self)@ == scan_next(old(self)@, grid_view(raw)),
            r@ == scan_result(old(self)@, grid_view(raw)),
    {
        proof {
            lemma_grid_view(raw);
        }
        let chord: bool = !self.prev_raw[CHORD_TOP_ROW][CHORD_COLUMN]
            && !self.prev_raw[CHORD_BOTTOM_ROW][CHORD_COLUMN] && raw[CHORD_TOP_ROW][CHORD_COLUMN]
            && raw[CHORD_BOTTOM_ROW][CHORD_COLUMN];
        if chord {
            ScanOutcome::Bootload
        } else {
            self.prev_raw = raw;
            ScanOutcome::Events(debounced_events(&mut self.debouncer, raw))
        }
    }
}

proof fn lemma_row_events_in_matrix(old: Seq<Seq<bool>>, new: Seq<Seq<bool>>, i: int, n: int)
    requires
        0 <= i < ROWS,
        n <= COLS,
    ensures
        forall|k: int| 0 <= k < row_events(old, new, i, n).len() ==> {
            let e = #[trigger] row_events(old, new, i, n)[k];
            e.row == i && e.column < n
        },
    decreases n,
{
    if n > 0 {
        lemma_row_events_in_matrix(old, new, i, n - 1);
        let a = row_events(old, new, i, n - 1);
        let c = cell_events(old, new, i, n - 1);
        assert forall|k: int| 0 <= k < row_events(old, new, i, n).len() implies {
            let e = #[trigger] row_events(old, new, i, n)[k];
            e.row == i && e.column < n
        } by {
            if k >= a.len() {
                assert(row_events(old, new, i, n)[k] == c[k - a.len()]);
            } else {
                assert(row_events(old, new, i, n)[k] == a[k]);
            }
        }
    }
}

/// Every transition between two samples lies inside the matrix.
pub proof fn lemma_diff_events_in_matrix(old: Seq<Seq<bool>>, new: Seq<Seq<bool>>, m: int)
    requires
        m <= ROWS,
    ensures
        forall|k: int| 0 <= k < diff_events(old, new, m).len() ==> {
            let e = #[trigger] diff_events(old, new, m)[k];
            e.row < ROWS && e.column < COLS
        },
    decreases m,
{
    if m > 0 {
        lemma_diff_events_in_matrix(old, new, m - 1);
        lemma_row_events_in_matrix(old, new, m - 1, COLS as int);
        let a = diff_events(old, new, m - 1);
        let c = row_events(old, new, m - 1, COLS as int);
        assert forall|k: int| 0 <= k < diff_events(old, new, m).len() implies {
            let e = #[trigger] diff_events(old, new, m)[k];
            e.row < ROWS && e.column < COLS
        } by {
            if k >= a.len() {
                assert(diff_events(old, new, m)[k] == c[k - a.len()]);
            } else {
                assert(diff_events(old, new, m)[k] == a[k]);
            }
        }
    }
}

/// The scanner's state after `n` scans of the same sample.
pub open spec fn scans(st: ScanState, raw: Seq<Seq<bool>>, n: nat) -> ScanState
    decreases n,
{
    if n == 0 {
        st
    } else {
        scan_next(scans(st, raw, (n - 1) as nat), raw)
    }
}

/// While a sample that differs from the settled state is held for fewer
/// scans than the bound allows, the scanner counts it and changes nothing.
proof fn lemma_counting(st: ScanState, raw: Seq<Seq<bool>>, k: nat)
    requires
        scan_state_wf(st),
        raw != st.settled,
        raw != st.prev_raw,
        !new_chord(st.prev_raw, raw),
        1 <= k <= st.bound,
    ensures
        scans(st, raw, k) == (ScanState { candidate: raw, since: k, prev_raw: raw, ..st }),
        scan_result(scans(st, raw, (k - 1) as nat), raw) == Some(Seq::<MatrixEvent>::empty()),
    decreases k,
{
    if k > 1 {
        lemma_counting(st, raw, (k - 1) as nat);
    }
}

/// Whether two samples differ at `(r, c)` and nowhere else.
pub open spec fn differ_only_at(old: Seq<Seq<bool>>, new: Seq<Seq<bool>>, r: int, c: int) -> bool {
    &&& 0 <= r < ROWS
    &&& 0 <= c < COLS
    &&& old[r][c] != new[r][c]
    &&& forall|i: int, j: int|
        0 <= i < ROWS && 0 <= j < COLS && !(i == r && j == c) ==> old[i][j] == new[i][j]
}

/// Debouncing. A run of identical samples that differ from the settled
/// state, starting after a different sample:
/// - produces no transition on each of its first scans, one fewer than the
///   debounce depth (the bound plus one);
/// - on the scan that completes the depth, produces the transitions from
///   the settled state to that sample, exactly one where the two differ at
///   a single key, and settles on the sample;
/// - cut short by a return to the settled state, produces no transition
///   and leaves the settled state as it was.
/// A sample that newly closes the bootloader chord is left out: it asks
/// for the bootloader instead.
pub proof fn lemma_debounce_depth(st: ScanState, raw: Seq<Seq<bool>>)
    requires
        scan_state_wf(st),
        is_grid(raw),
        raw != st.settled,
        raw != st.prev_raw,
        !new_chord(st.prev_raw, raw),
    ensures
        forall|k: nat| k < st.bound ==> #[trigger] scan_result(scans(st, raw, k), raw) == Some(
            Seq::<MatrixEvent>::empty(),
        ),
        scan_result(scans(st, raw, st.bound), raw) == Some(diff_events(st.settled, raw, ROWS as int)),
        forall|r: int, c: int| #[trigger] differ_only_at(st.settled, raw, r, c) ==> diff_events(st.settled, raw, ROWS as int) == seq![event_at(raw, r, c)],
        scans(st, raw, st.bound + 1).settled == raw,
        forall|k: nat| 1 <= k <= st.bound ==> {
            let back = #[trigger] scans(st, raw, k);
            &&& scan_result(back, st.settled) matches Some(evs) ==> evs.len() == 0
            &&& scan_next(back, st.settled).settled == st.settled
        },
{
    assert forall|k: nat| k < st.bound implies #[trigger] scan_result(scans(st, raw, k), raw) == Some(
        Seq::<MatrixEvent>::empty(),
    ) by {
        lemma_counting(st, raw, k + 1);
    }
    if st.bound >= 1 {
        lemma_counting(st, raw, st.bound);
    }
    assert forall|r: int, c: int| #[trigger] differ_only_at(st.settled, raw, r, c) implies diff_events(st.settled, raw, ROWS as int) == seq![event_at(raw, r, c)] by {
        lemma_single_transition(st.settled, raw, r, c);
    }
    assert forall|k: nat| 1 <= k <= st.bound implies {
        let back = #[trigger] scans(st, raw, k);
        &&& scan_result(back, st.settled) matches Some(evs) ==> evs.len() == 0
        &&& scan_next(back, st.settled).settled == st.settled
    } by {
        lemma_counting(st, raw, k);
    }
}

/// The transition at `(r, c)` as an event.
pub open spec fn event_at(new: Seq<Seq<bool>>, r: int, c: int) -> MatrixEvent {
    MatrixEvent { row: r as u8, column: c as u8, pressed: new[r][c] }
}

proof fn lemma_row_events(old: Seq<Seq<bool>>, new: Seq<Seq<bool>>, i: int, n: int, r: int, c: int)
    requires
        0 <= n <= COLS,
        0 <= c < COLS,
        forall|j: int| 0 <= j < n && !(i == r && j == c) ==> old[i][j] == new[i][j],
        i == r ==> old[r][c] != new[r][c],
    ensures
        row_events(old, new, i, n) == if i == r && c < n { seq![event_at(new, r, c)] } else { seq![] },
    decreases n,
{
    if n > 0 {
        lemma_row_events(old, new, i, n - 1, r, c);
        assert(row_events(old, new, i, n) =~= (if i == r && c < n { seq![event_at(new, r, c)] } else { seq![] }));
    }
}

proof fn lemma_rows_events(old: Seq<Seq<bool>>, new: Seq<Seq<bool>>, m: int, r: int, c: int)
    requires
        0 <= m <= ROWS,
        0 <= r < ROWS,
        0 <= c < COLS,
        old[r][c] != new[r][c],
        forall|i: int, j: int| 0 <= i < ROWS && 0 <= j < COLS && !(i == r && j == c) ==> old[i][j] == new[i][j],
    ensures
        diff_events(old, new, m) == if r < m { seq![event_at(new, r, c)] } else { seq![] },
    decreases m,
{
    if m > 0 {
        lemma_rows_events(old, new, m - 1, r, c);
        lemma_row_events(old, new, m - 1, COLS as int, r, c);
        assert(diff_events(old, new, m) =~= (if r < m { seq![event_at(new, r, c)] } else { seq![] }));
    }
}

/// A sample that differs from the settled state at a single coordinate
/// settles as exactly one transition, at that coordinate.
pub proof fn lemma_single_transition(old: Seq<Seq<bool>>, new: Seq<Seq<bool>>, r: int, c: int)
    requires
        0 <= r < ROWS,
        0 <= c < COLS,
        old[r][c] != new[r][c],
        forall|i: int, j: int| 0 <= i < ROWS && 0 <= j < COLS && !(i == r && j == c) ==> old[i][j] == new[i][j],
    ensures
        diff_events(old, new, ROWS as int) == seq![event_at(new, r, c)],
{
    lemma_rows_events(old, new, ROWS as int, r, c);
}

} // verus!
