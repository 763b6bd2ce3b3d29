use yuki::codec::MatrixEvent;
use yuki::scanner::{Grid, ScanOutcome, Scanner, DEBOUNCE_DEPTH};

fn open() -> Grid {
    [[false; 6]; 4]
}

fn with(keys: &[(usize, usize)]) -> Grid {
    let mut g = open();
    for &(r, c) in keys {
        g[r][c] = true;
    }
    g
}

fn events(o: ScanOutcome) -> Vec<MatrixEvent> {
    match o {
        ScanOutcome::Events(v) => v,
        ScanOutcome::Bootload => panic!("unexpected bootloader request"),
    }
}

fn ev(row: u8, column: u8, pressed: bool) -> MatrixEvent {
    MatrixEvent { row, column, pressed }
}

#[test]
fn depth_samples_give_exactly_one_transition() {
    let mut s = Scanner::new();
    let sample = with(&[(1, 2)]);
    for _ in 1..DEBOUNCE_DEPTH {
        assert!(events(s.scan(sample)).is_empty());
    }
    assert_eq!(events(s.scan(sample)), vec![ev(1, 2, true)]);
    assert!(events(s.scan(sample)).is_empty());
}

#[test]
fn fewer_samples_than_depth_give_nothing() {
    let mut s = Scanner::new();
    let sample = with(&[(0, 0)]);
    for _ in 1..DEBOUNCE_DEPTH {
        assert!(events(s.scan(sample)).is_empty());
    }
    // a bounce back to the settled state restarts the count
    assert!(events(s.scan(open())).is_empty());
    for _ in 1..DEBOUNCE_DEPTH {
        assert!(events(s.scan(sample)).is_empty());
    }
    assert_eq!(events(s.scan(sample)), vec![ev(0, 0, true)]);
}

#[test]
fn release_settles_after_depth_samples() {
    let mut s = Scanner::new();
    let sample = with(&[(2, 4)]);
    for _ in 0..DEBOUNCE_DEPTH {
        s.scan(sample);
    }
    for _ in 1..DEBOUNCE_DEPTH {
        assert!(events(s.scan(open())).is_empty());
    }
    assert_eq!(events(s.scan(open())), vec![ev(2, 4, false)]);
}

#[test]
fn transitions_come_in_row_major_order() {
    let mut s = Scanner::new();
    let first = with(&[(2, 1), (0, 3)]);
    for _ in 0..DEBOUNCE_DEPTH {
        s.scan(first);
    }
    let second = with(&[(2, 1), (1, 0)]);
    let mut last = Vec::new();
    for _ in 0..DEBOUNCE_DEPTH {
        last = events(s.scan(second));
    }
    assert_eq!(last, vec![ev(0, 3, false), ev(1, 0, true)]);
}

#[test]
fn new_chord_requests_bootloader_and_no_events() {
    let mut s = Scanner::new();
    let chord = with(&[(0, 5), (3, 5)]);
    assert!(matches!(s.scan(chord), ScanOutcome::Bootload));
}

#[test]
fn chord_with_other_keys_still_requests_bootloader() {
    let mut s = Scanner::new();
    assert!(matches!(s.scan(with(&[(0, 5), (3, 5), (1, 1)])), ScanOutcome::Bootload));
}

#[test]
fn one_chord_key_is_an_ordinary_key() {
    let mut s = Scanner::new();
    let sample = with(&[(0, 5)]);
    let mut last = Vec::new();
    for _ in 0..DEBOUNCE_DEPTH {
        last = events(s.scan(sample));
    }
    assert_eq!(last, vec![ev(0, 5, true)]);
}

#[test]
fn chord_keys_pressed_in_turn_do_not_request_bootloader() {
    let mut s = Scanner::new();
    assert!(events(s.scan(with(&[(0, 5)]))).is_empty());
    assert!(events(s.scan(with(&[(0, 5), (3, 5)]))).is_empty());
}

#[test]
fn bootloader_scan_leaves_the_count_untouched() {
    let mut s = Scanner::new();
    let sample = with(&[(1, 1)]);
    assert!(events(s.scan(sample)).is_empty());
    assert!(events(s.scan(sample)).is_empty());
    assert!(matches!(s.scan(with(&[(0, 5), (3, 5)])), ScanOutcome::Bootload));
    for _ in 3..DEBOUNCE_DEPTH {
        assert!(events(s.scan(sample)).is_empty());
    }
    assert_eq!(events(s.scan(sample)), vec![ev(1, 1, true)]);
}

#[test]
fn chord_held_keeps_requesting_bootloader() {
    let mut s = Scanner::new();
    let chord = with(&[(0, 5), (3, 5)]);
    assert!(matches!(s.scan(chord), ScanOutcome::Bootload));
    assert!(matches!(s.scan(chord), ScanOutcome::Bootload));
}
