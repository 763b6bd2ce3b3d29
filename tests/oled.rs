use yuki::oled::{direction_arrow, OLED};

#[test]
fn redraws_once_per_distinct_state() {
    let mut o = OLED::new();
    assert!(o.draw(0, true));
    assert!(!o.draw(0, true));
    assert!(!o.draw(0, true));
    assert!(o.draw(2, true));
    assert!(!o.draw(2, true));
    assert!(o.draw(2, false));
    assert!(!o.draw(2, false));
    assert!(o.draw(0, false));
}

#[test]
fn start_state_needs_no_redraw() {
    let mut o = OLED::new();
    assert!(!o.draw(0, false));
    assert_eq!(o.prev_layer, 0);
}

#[test]
fn arrow_points_at_host() {
    assert_eq!(direction_arrow(true), "-->");
    assert_eq!(direction_arrow(false), "<--");
}

#[test]
fn redraw_count_follows_changes() {
    let mut o = OLED::new();
    let calls = [(0, false), (1, false), (1, false), (1, true), (1, true), (0, true), (0, true)];
    let redraws = calls.iter().filter(|&&(l, u)| o.draw(l, u)).count();
    assert_eq!(redraws, 3);
}
