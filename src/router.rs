//! Routing of key transitions into the layout engine's single coordinate
//! space. The left half's columns are canonical; the right half's are
//! mirrored. Each half sends its own transitions over the link as they
//! were sampled, and the two halves mirror in mutually exclusive cases.
use vstd::prelude::*;
use crate::codec::{MatrixEvent, decode, encode, event_of, fits_wire, frame_of};

verus! {

/// One of the two physical halves of the keyboard.
#[derive(Clone, Copy, Debug, PartialEq, Eq, Structural)]
pub enum Half {
    /// The half whose columns are the canonical ones.
    Left,
    Right,
}

/// The largest column of the canonical space, both halves together.
pub const MAX_COLUMN: u8 = 11;

pub open spec fn other_half(h: Half) -> Half {
    match h {
        Half::Left => Half::Right,
        Half::Right => Half::Left,
    }
}

pub open spec fn mirrored(e: MatrixEvent) -> MatrixEvent {
    MatrixEvent { column: (MAX_COLUMN - e.column) as u8, ..e }
}

/// What the layout engine receives for a transition sampled on `half`.
pub open spec fn local_to_layout(half: Half, e: MatrixEvent) -> MatrixEvent {
    if half == Half::Right {
        mirrored(e)
    } else {
        e
    }
}

/// What the layout engine receives for a transition that reached `half`
/// over the link.
pub open spec fn remote_to_layout(half: Half, e: MatrixEvent) -> MatrixEvent {
    if half == Half::Left {
        mirrored(e)
    } else {
        e
    }
}

/// Mirrors a column of either half into the other's.
pub fn mirror_column(column: u8) -> (r: u8)
    requires
        column <= MAX_COLUMN,
    ensures
        r == MAX_COLUMN - column,
{
    MAX_COLUMN - column
}

/// Mirrors the column of a transition.
pub fn mirror_event(e: MatrixEvent) -> (r: MatrixEvent)
    requires
        e.column <= MAX_COLUMN,
    ensures
        r == mirrored(e),
{
    MatrixEvent { column: mirror_column(e.column), ..e }
}

/// Mirroring twice gives back the column.
pub proof fn lemma_mirror_involution(column: u8)
    requires
        column <= MAX_COLUMN,
    ensures
        MAX_COLUMN - (MAX_COLUMN - column) == column,
{
}

/// Mirroring a transition twice gives back the transition.
pub proof fn lemma_mirror_event_involution(e: MatrixEvent)
    requires
        e.column <= MAX_COLUMN,
    ensures
        mirrored(mirrored(e)) == e,
{
}

/// A local transition: the frame to send to the other half, and the
/// transition for this half's layout engine.
#[derive(Clone, Copy, Debug, PartialEq, Eq, Structural)]
pub struct Routed {
    pub frame: u8,
    pub event: MatrixEvent,
}

pub open spec fn routed_local(half: Half, e: MatrixEvent) -> Routed {
    Routed { frame: frame_of(e), event: local_to_layout(half, e) }
}

/// Routes a transition sampled on `half`.
pub fn route_local(half: Half, e: MatrixEvent) -> (r: Routed)
    requires
        e.column <= MAX_COLUMN,
    ensures
        r == routed_local(half, e),
{
    let frame: u8 = encode(e);
    let event = if half == Half::Right {
        mirror_event(e)
    } else {
        e
    };
    Routed { frame, event }
}

/// Routes a link byte received on `half`; a byte that does not decode is
/// dropped.
pub fn route_remote(half: Half, b: u8) -> (r: Option<MatrixEvent>)
    ensures
        r == Some(remote_to_layout(half, event_of(b))),
{
    match decode(b) {
        Ok(e) => {
            if half == Half::Left {
                Some(mirror_event(e))
            } else {
                Some(e)
            }
        },
        Err(_) => None,
    }
}

/// Both halves give their layout engines the same transition for a key
/// sampled on either of them: the sampling half routes it locally, the
/// other receives its frame over the link.
pub proof fn lemma_halves_agree(half: Half, e: MatrixEvent)
    requires
        fits_wire(e),
    ensures
        remote_to_layout(other_half(half), event_of(routed_local(half, e).frame)) == routed_local(half, e).event,
{
    crate::codec::lemma_decode_encode(e);
}

} // verus!
