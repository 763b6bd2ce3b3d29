//! The one-byte wire frame exchanged between the two halves.
//!
//! Bit 7 carries the press flag, bits 3..=5 the column and bits 0..=2 the
//! row, so only coordinates up to 7 survive the trip.
use vstd::prelude::*;

verus! {

/// A key transition at a matrix coordinate.
#[derive(Clone, Copy, Debug, PartialEq, Eq, Structural)]
pub struct MatrixEvent {
    pub row: u8,
    pub column: u8,
    pub pressed: bool,
}

/// A link byte that does not stand for a key transition.
#[derive(Clone, Copy, Debug, PartialEq, Eq, Structural)]
pub struct FramingError {
    pub byte: u8,
}

/// Largest row or column that a frame can carry.
pub const MAX_WIRE_COORD: u8 = 7;

/// The frame that stands for `e`: row and column are cut to three bits.
pub open spec fn frame_of(e: MatrixEvent) -> u8 {
    ((e.row % 8) + 8 * (e.column % 8) + if e.pressed { 128int } else { 0int }) as u8
}

/// The event that a frame stands for.
pub open spec fn event_of(b: u8) -> MatrixEvent {
    MatrixEvent { row: (b % 8) as u8, column: ((b / 8) % 8) as u8, pressed: b >= 128 }
}

/// Whether both coordinates of `e` fit in a frame.
pub open spec fn fits_wire(e: MatrixEvent) -> bool {
    e.row <= MAX_WIRE_COORD && e.column <= MAX_WIRE_COORD
}

/// Packs a key transition into one link byte.
pub fn encode(e: MatrixEvent) -> (b: u8)
    ensures
        b == frame_of(e),
{
    let row: u8 = e.row;
    let column: u8 = e.column;
    let flag: u8 = if e.pressed { 128 } else { 0 };
    let b: u8 = (row & 7) | ((column & 7) << 3) | flag;
    assert(b == ((row % 8) + 8 * (column % 8) + flag) as u8) by (bit_vector)
        requires
            b == (row & 7) | ((column & 7) << 3) | flag,
            flag == 128 || flag == 0,
    ;
    b
}

/// Unpacks a link byte. Every byte stands for some transition, so this
/// never fails; the error exists for framings that cannot say as much.
pub fn decode(b: u8) -> (r: Result<MatrixEvent, FramingError>)
    ensures
        r == Ok::<MatrixEvent, FramingError>(event_of(b)),
{
    let row: u8 = b & 7;
    let column: u8 = (b & 56) >> 3;
    let pressed: bool = b & 128 == 128;
    assert(row == b % 8 && column == (b / 8) % 8 && (pressed <==> b >= 128)) by (bit_vector)
        requires
            row == b & 7,
            column == (b & 56) >> 3,
            pressed == (b & 128 == 128),
    ;
    Ok(MatrixEvent { row, column, pressed })
}

/// Decoding the frame of an event whose coordinates fit in three bits
/// gives back that event.
pub proof fn lemma_decode_encode(e: MatrixEvent)
    requires
        fits_wire(e),
    ensures
        event_of(frame_of(e)) == e,
{
    let b = frame_of(e);
    assert(b == e.row + 8 * e.column + if e.pressed { 128int } else { 0int });
}

} // verus!
