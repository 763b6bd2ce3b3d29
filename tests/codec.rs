use yuki::codec::{decode, encode, FramingError, MatrixEvent};

fn ev(row: u8, column: u8, pressed: bool) -> MatrixEvent {
    MatrixEvent { row, column, pressed }
}

#[test]
fn encode_press_packs_flag_column_and_row() {
    // press flag, column 5, row 2
    assert_eq!(encode(ev(2, 5, true)), 0b1010_1010);
}

#[test]
fn encode_release_has_no_flag() {
    assert_eq!(encode(ev(2, 5, false)), 0b0010_1010);
    assert_eq!(encode(ev(0, 0, false)), 0);
    assert_eq!(encode(ev(7, 7, true)), 0b1011_1111);
}

#[test]
fn encode_keeps_three_bits_of_each_coordinate() {
    assert_eq!(encode(ev(9, 10, false)), encode(ev(1, 2, false)));
}

#[test]
fn decode_reads_fields() {
    assert_eq!(decode(0b1010_1010), Ok(ev(2, 5, true)));
    assert_eq!(decode(0b0000_0011), Ok(ev(3, 0, false)));
    assert_eq!(decode(0b0011_1000), Ok(ev(0, 7, false)));
}

#[test]
fn decode_ignores_unused_bit() {
    assert_eq!(decode(0b0100_0001), Ok(ev(1, 0, false)));
}

#[test]
fn decode_accepts_every_byte() {
    for b in 0..=255u8 {
        let r: Result<MatrixEvent, FramingError> = decode(b);
        assert!(r.is_ok());
    }
}

#[test]
fn round_trip_on_every_wire_event() {
    for row in 0..8u8 {
        for column in 0..8u8 {
            for pressed in [false, true] {
                let e = ev(row, column, pressed);
                assert_eq!(decode(encode(e)), Ok(e));
            }
        }
    }
}
