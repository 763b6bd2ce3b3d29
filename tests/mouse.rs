use yuki::mouse::{Dir, MAction, Mouse, MouseReport};

fn zero_report() -> MouseReport {
    MouseReport { buttons: 0, x: 0, y: 0, vertical_wheel: 0, horizontal_wheel: 0 }
}

fn tap(m: &mut Mouse, a: MAction) {
    m.handle_mouse_btn(&a, true);
    m.handle_mouse_btn(&a, false);
}

#[test]
fn new_mouse_is_active_and_still() {
    let m = Mouse::new();
    assert!(m.active);
    assert_eq!(m.report, zero_report());
    assert_eq!(m.move_btn_press_vals, [0; 4]);
    assert_eq!(m.boosted, [false; 4]);
    assert_eq!(m.scroll_dir, 0);
}

#[test]
fn buttons_set_and_clear_their_bits() {
    let mut m = Mouse::new();
    m.handle_mouse_btn(&MAction::Left, true);
    assert_eq!(m.report.buttons, 0x1);
    m.handle_mouse_btn(&MAction::Right, true);
    m.handle_mouse_btn(&MAction::Middle, true);
    assert_eq!(m.report.buttons, 0x7);
    m.handle_mouse_btn(&MAction::Right, false);
    assert_eq!(m.report.buttons, 0x5);
    m.handle_mouse_btn(&MAction::Left, false);
    m.handle_mouse_btn(&MAction::Middle, false);
    assert_eq!(m.report.buttons, 0);
}

#[test]
fn move_press_and_release_are_symmetric() {
    let mut m = Mouse::new();
    m.handle_mouse_btn(&MAction::Move(Dir::Up), true);
    assert_eq!(m.report.y, -4);
    assert_eq!(m.move_btn_press_vals[0], 4);
    m.handle_mouse_btn(&MAction::Move(Dir::Up), false);
    assert_eq!(m.report.y, 0);
    assert_eq!(m.move_btn_press_vals[0], 0);
}

#[test]
fn repeated_move_presses_accelerate() {
    let mut m = Mouse::new();
    m.handle_mouse_btn(&MAction::Move(Dir::Down), true);
    assert_eq!(m.report.y, 4);
    m.handle_mouse_btn(&MAction::Move(Dir::Down), true);
    assert_eq!(m.report.y, 12);
    assert_eq!(m.move_btn_press_vals[1], 8);
    m.handle_mouse_btn(&MAction::Move(Dir::Down), false);
    assert_eq!(m.report.y, 4);
    m.handle_mouse_btn(&MAction::Move(Dir::Down), false);
    assert_eq!(m.report.y, 0);
    assert_eq!(m.move_btn_press_vals[1], 0);
}

#[test]
fn horizontal_moves_change_x() {
    let mut m = Mouse::new();
    m.handle_mouse_btn(&MAction::Move(Dir::Left), true);
    assert_eq!(m.report.x, -4);
    m.handle_mouse_btn(&MAction::Move(Dir::Right), true);
    assert_eq!(m.report.x, 0);
    assert_eq!(m.report.y, 0);
}

#[test]
fn move_round_trip_with_ticks_keeps_counters() {
    for d in [Dir::Up, Dir::Down, Dir::Left, Dir::Right] {
        let mut m = Mouse::new();
        m.handle_mouse_btn(&MAction::Move(Dir::Right), true);
        let before = m.move_btn_press_vals;
        m.handle_mouse_btn(&MAction::Move(d), true);
        for _ in 0..250 {
            m.mouse_tick();
        }
        m.handle_mouse_btn(&MAction::Move(d), false);
        assert_eq!(m.move_btn_press_vals, before);
    }
}

#[test]
fn speedup_boosts_only_moving_directions() {
    let mut m = Mouse::new();
    m.handle_mouse_btn(&MAction::Move(Dir::Right), true);
    assert_eq!(m.report.x, 4);
    m.handle_mouse_btn(&MAction::Speedup, true);
    assert_eq!(m.report.x, 10);
    assert_eq!(m.report.y, 0);
    assert_eq!(m.move_btn_press_vals, [0, 0, 0, 10]);
    assert_eq!(m.boosted, [false, false, false, true]);
    m.handle_mouse_btn(&MAction::Speedup, false);
    assert_eq!(m.report.x, 4);
    assert_eq!(m.move_btn_press_vals, [0, 0, 0, 4]);
    assert_eq!(m.boosted, [false; 4]);
    m.handle_mouse_btn(&MAction::Move(Dir::Right), false);
    assert_eq!(m.report, zero_report());
    assert_eq!(m.move_btn_press_vals, [0; 4]);
}

#[test]
fn move_during_speedup_is_not_boosted() {
    let mut m = Mouse::new();
    m.handle_mouse_btn(&MAction::Speedup, true);
    assert_eq!(m.report, zero_report());
    assert_eq!(m.move_btn_press_vals, [0; 4]);
    m.handle_mouse_btn(&MAction::Move(Dir::Up), true);
    assert_eq!(m.report.y, -4);
    m.handle_mouse_btn(&MAction::Speedup, false);
    assert_eq!(m.report.y, -4);
    assert_eq!(m.move_btn_press_vals, [4, 0, 0, 0]);
    m.handle_mouse_btn(&MAction::Move(Dir::Up), false);
    assert_eq!(m.report.y, 0);
    assert_eq!(m.move_btn_press_vals, [0; 4]);
}

#[test]
fn speedup_release_after_move_release() {
    let mut m = Mouse::new();
    m.handle_mouse_btn(&MAction::Move(Dir::Right), true);
    m.handle_mouse_btn(&MAction::Speedup, true);
    m.handle_mouse_btn(&MAction::Move(Dir::Right), false);
    assert_eq!(m.report.x, 0);
    assert_eq!(m.move_btn_press_vals, [0, 0, 0, 6]);
    m.handle_mouse_btn(&MAction::Speedup, false);
    assert_eq!(m.report.x, 0);
    assert_eq!(m.move_btn_press_vals, [0; 4]);
}

#[test]
fn speedup_round_trip_restores_counters() {
    let mut m = Mouse::new();
    m.handle_mouse_btn(&MAction::Move(Dir::Up), true);
    m.handle_mouse_btn(&MAction::Move(Dir::Left), true);
    let before = m.move_btn_press_vals;
    m.handle_mouse_btn(&MAction::Speedup, true);
    assert_eq!(m.move_btn_press_vals, [10, 0, 10, 0]);
    assert_eq!((m.report.x, m.report.y), (-10, -10));
    for _ in 0..30 {
        m.mouse_tick();
    }
    m.handle_mouse_btn(&MAction::Speedup, false);
    assert_eq!(m.move_btn_press_vals, before);
    assert_eq!((m.report.x, m.report.y), (-4, -4));
}

#[test]
fn displacement_saturates() {
    let mut m = Mouse::new();
    for _ in 0..10 {
        m.handle_mouse_btn(&MAction::Move(Dir::Up), true);
    }
    assert_eq!(m.report.y, -128);
    assert_eq!(m.move_btn_press_vals[0], 40);
}

#[test]
fn counter_saturates() {
    let mut m = Mouse::new();
    for _ in 0..40 {
        m.handle_mouse_btn(&MAction::Move(Dir::Left), true);
    }
    assert_eq!(m.move_btn_press_vals[2], 127);
    assert_eq!(m.report.x, -128);
}

#[test]
fn scroll_sets_and_clears_wheels() {
    let mut m = Mouse::new();
    m.handle_mouse_btn(&MAction::Scroll(Dir::Up), true);
    assert_eq!(m.report.vertical_wheel, 1);
    m.handle_mouse_btn(&MAction::Scroll(Dir::Up), false);
    assert_eq!(m.report.vertical_wheel, 0);
    m.handle_mouse_btn(&MAction::Scroll(Dir::Down), true);
    assert_eq!(m.report.vertical_wheel, -1);
    tap(&mut m, MAction::Scroll(Dir::Down));
    m.handle_mouse_btn(&MAction::Scroll(Dir::Left), true);
    assert_eq!(m.report.horizontal_wheel, -1);
    assert_eq!(m.report.vertical_wheel, 0);
    m.handle_mouse_btn(&MAction::Scroll(Dir::Right), true);
    assert_eq!(m.report.horizontal_wheel, 1);
    m.handle_mouse_btn(&MAction::Scroll(Dir::Right), false);
    assert_eq!(m.report, zero_report());
    assert_eq!(m.scroll_dir, 0);
}

#[test]
fn held_scroll_repeats_on_ticks() {
    let mut m = Mouse::new();
    m.handle_mouse_btn(&MAction::Scroll(Dir::Up), true);
    for _ in 0..9 {
        m.mouse_tick();
        assert_eq!(m.report.vertical_wheel, 1);
    }
    m.mouse_tick();
    assert_eq!(m.report.vertical_wheel, 0);
    for _ in 10..99 {
        m.mouse_tick();
        assert_eq!(m.report.vertical_wheel, 0);
    }
    m.mouse_tick();
    assert_eq!(m.report.vertical_wheel, 1);
    assert_eq!(m.scroll_ticks, 0);
}

#[test]
fn tick_without_scroll_clears_wheels() {
    let mut m = Mouse::new();
    m.report.vertical_wheel = 1;
    m.report.horizontal_wheel = -1;
    m.mouse_tick();
    assert_eq!(m.report.vertical_wheel, 0);
    assert_eq!(m.report.horizontal_wheel, 0);
}

#[test]
fn toggle_active_flips_on_press_only() {
    let mut m = Mouse::new();
    m.handle_mouse_btn(&MAction::ToggleActive, true);
    assert!(!m.active);
    m.handle_mouse_btn(&MAction::ToggleActive, false);
    assert!(!m.active);
    tap(&mut m, MAction::ToggleActive);
    assert!(m.active);
}

#[test]
fn inactive_engine_ignores_actions_until_reactivated() {
    let actions = [
        MAction::Left,
        MAction::Right,
        MAction::Middle,
        MAction::Move(Dir::Up),
        MAction::Move(Dir::Down),
        MAction::Move(Dir::Left),
        MAction::Move(Dir::Right),
        MAction::Scroll(Dir::Up),
        MAction::Scroll(Dir::Down),
        MAction::Scroll(Dir::Left),
        MAction::Scroll(Dir::Right),
    ];
    for a in actions {
        let mut m = Mouse::new();
        m.handle_mouse_btn(&MAction::ToggleActive, true);
        m.handle_mouse_btn(&MAction::ToggleActive, false);
        m.handle_mouse_btn(&a, true);
        assert_eq!(m.report, zero_report());
        m.handle_mouse_btn(&a, false);
        assert_eq!(m.report, zero_report());

        tap(&mut m, MAction::ToggleActive);
        m.handle_mouse_btn(&a, true);
        assert_ne!(m.report, zero_report());
    }
}

#[test]
fn inactive_engine_still_counts_presses() {
    let mut m = Mouse::new();
    tap(&mut m, MAction::ToggleActive);
    m.handle_mouse_btn(&MAction::Move(Dir::Up), true);
    assert_eq!(m.move_btn_press_vals[0], 4);
    assert_eq!(m.report.y, 0);
    m.handle_mouse_btn(&MAction::Move(Dir::Up), false);
    assert_eq!(m.move_btn_press_vals[0], 0);
}
