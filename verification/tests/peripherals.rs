use termatama::hal::{
    get_lcd_matrix, rs_hal_get_timestamp, rs_hal_handler, rs_hal_is_log_enabled,
    rs_hal_play_frequency, rs_hal_set_frequency, rs_hal_set_lcd_icon, rs_hal_set_lcd_matrix,
    PeripheralState, ICON_COUNT, LCD_HEIGHT, LCD_WIDTH,
};
use termatama::render::render_frame;
use termatama::sched::{key_action, parse_keybind, Keybind, Pacer};
use termatama::engine::Button;

#[test]
fn bridge_starts_dark_and_silent() {
    let hal = PeripheralState::new();
    let matrix = get_lcd_matrix(&hal);
    assert_eq!(matrix.len(), LCD_HEIGHT);
    for row in &matrix {
        assert_eq!(row.len(), LCD_WIDTH);
        assert!(row.iter().all(|&cell| !cell));
    }
}

#[test]
fn lcd_cells_set_and_clear() {
    let mut hal = PeripheralState::new();
    rs_hal_set_lcd_matrix(&mut hal, 0, 0, 1);
    rs_hal_set_lcd_matrix(&mut hal, 31, 15, 1);
    rs_hal_set_lcd_matrix(&mut hal, 5, 3, 1);
    rs_hal_set_lcd_matrix(&mut hal, 5, 3, 0);
    let matrix = get_lcd_matrix(&hal);
    assert!(matrix[0][0]);
    assert!(matrix[15][31]);
    assert!(!matrix[3][5]);
}

#[test]
fn out_of_range_lcd_writes_are_ignored() {
    let mut hal = PeripheralState::new();
    rs_hal_set_lcd_matrix(&mut hal, 32, 0, 1);
    rs_hal_set_lcd_matrix(&mut hal, 0, 16, 1);
    rs_hal_set_lcd_matrix(&mut hal, 255, 255, 1);
    let matrix = get_lcd_matrix(&hal);
    for row in &matrix {
        assert!(row.iter().all(|&cell| !cell));
    }
}

#[test]
fn out_of_range_icon_writes_are_ignored() {
    let mut hal = PeripheralState::new();
    rs_hal_set_lcd_icon(&mut hal, ICON_COUNT as u8, 1);
    rs_hal_set_lcd_icon(&mut hal, 255, 1);
    // In-range writes still land.
    rs_hal_set_lcd_icon(&mut hal, 7, 1);
    // The matrix is untouched by icon writes.
    let matrix = get_lcd_matrix(&hal);
    for row in &matrix {
        assert!(row.iter().all(|&cell| !cell));
    }
}

#[test]
fn audio_flags_follow_the_core() {
    let mut hal = PeripheralState::new();
    rs_hal_set_frequency(&mut hal, 4400);
    rs_hal_play_frequency(&mut hal, 1);
    rs_hal_play_frequency(&mut hal, 0);
    // No observable panic or matrix change; the flags are covered by
    // the entry points' contracts.
    let matrix = get_lcd_matrix(&hal);
    assert_eq!(matrix.len(), LCD_HEIGHT);
}

#[test]
fn timestamp_is_capped() {
    assert_eq!(rs_hal_get_timestamp(123), 123);
    assert_eq!(rs_hal_get_timestamp(u32::MAX as u128), u32::MAX);
    assert_eq!(rs_hal_get_timestamp(u32::MAX as u128 + 1), u32::MAX);
    assert_eq!(rs_hal_get_timestamp(u128::MAX), u32::MAX);
}

#[test]
fn inert_hooks_answer_no() {
    assert_eq!(rs_hal_is_log_enabled(3), 0);
    assert_eq!(rs_hal_handler(), 0);
}

#[test]
fn keybind_matches_case_insensitively() {
    let kb = Keybind {
        left: 'z',
        middle: 'x',
        right: 'c',
    };
    assert_eq!(key_action(&kb, 'Z'), Some(Button::Left));
    assert_eq!(key_action(&kb, 'z'), Some(Button::Left));
    assert_eq!(key_action(&kb, 'X'), Some(Button::Middle));
    assert_eq!(key_action(&kb, 'c'), Some(Button::Right));
    assert_eq!(key_action(&kb, 'q'), None);
    assert_eq!(key_action(&kb, '7'), None);
    assert_eq!(key_action(&kb, ' '), None);
}

#[test]
fn default_keybind_is_zxc() {
    let kb = Keybind::default();
    assert_eq!(
        kb,
        Keybind {
            left: 'z',
            middle: 'x',
            right: 'c'
        }
    );
}

#[test]
fn pacer_drains_whole_steps() {
    let mut pacer = Pacer::new(1000, 10, 3);
    assert!(!pacer.step_pending());
    pacer.add_elapsed(2500);
    let mut ticks = 0usize;
    while pacer.step_pending() {
        ticks += pacer.consume_step();
    }
    // Two whole steps drained, half a step of time kept.
    assert_eq!(ticks, 20);
    pacer.add_elapsed(500);
    assert!(pacer.step_pending());
    assert_eq!(pacer.consume_step(), 10);
    assert!(!pacer.step_pending());
    assert_eq!(pacer.frame_ticks(), 3);
}

#[test]
fn pacer_lifts_zero_parameters() {
    let mut pacer = Pacer::new(0, 0, 0);
    pacer.add_elapsed(5);
    // Step length was lifted to one microsecond, batches to one tick.
    assert!(pacer.step_pending());
    assert_eq!(pacer.consume_step(), 1);
    assert_eq!(pacer.frame_ticks(), 1);
}

#[test]
fn pacer_saturates_instead_of_overflowing() {
    let mut pacer = Pacer::new(1000, 1, 1);
    pacer.add_elapsed(u64::MAX);
    pacer.add_elapsed(u64::MAX);
    assert!(pacer.step_pending());
    pacer.consume_step();
    assert!(pacer.step_pending());
}

#[test]
fn rendered_frame_has_border_and_cells() {
    let mut hal = PeripheralState::new();
    rs_hal_set_lcd_matrix(&mut hal, 2, 1, 1);
    let matrix = get_lcd_matrix(&hal);
    let frame = render_frame(&matrix);
    assert_eq!(frame.len(), LCD_HEIGHT + 2);
    for row in &frame {
        assert_eq!(row.len(), LCD_WIDTH + 2);
    }
    assert_eq!(frame[0][0], '┌');
    assert_eq!(frame[0][LCD_WIDTH + 1], '┐');
    assert_eq!(frame[LCD_HEIGHT + 1][0], '└');
    assert_eq!(frame[LCD_HEIGHT + 1][LCD_WIDTH + 1], '┘');
    assert_eq!(frame[1][0], '│');
    assert_eq!(frame[0][1], '─');
    // Cell (x=2, y=1) sits at row 2, column 3 inside the border.
    assert_eq!(frame[2][3], '█');
    assert_eq!(frame[2][4], ' ');
}

#[test]
fn shared_binding_prefers_left() {
    let kb = Keybind {
        left: 'a',
        middle: 'a',
        right: 'b',
    };
    // Left wins when two bindings share a character.
    assert_eq!(key_action(&kb, 'A'), Some(Button::Left));
}

#[test]
fn keybind_argument_is_parsed() {
    let kb = Keybind::default();
    let chars: Vec<char> = "A=i,B=o,C=p".chars().collect();
    let kb = parse_keybind(kb, &chars);
    assert_eq!(
        kb,
        Keybind {
            left: 'i',
            middle: 'o',
            right: 'p'
        }
    );
}

#[test]
fn keybind_argument_folds_case_and_keeps_unset_bindings() {
    let kb = Keybind::default();
    let chars: Vec<char> = "b=M".chars().collect();
    let kb = parse_keybind(kb, &chars);
    assert_eq!(
        kb,
        Keybind {
            left: 'z',
            middle: 'm',
            right: 'c'
        }
    );
}

#[test]
fn keybind_argument_ignores_malformed_parts() {
    let kb = Keybind::default();
    // An unknown key, a part without `=`, an empty value, an empty
    // part, and one good assignment.
    let chars: Vec<char> = "Q=t,zap,A=,,C=k".chars().collect();
    let kb = parse_keybind(kb, &chars);
    assert_eq!(
        kb,
        Keybind {
            left: 'z',
            middle: 'x',
            right: 'k'
        }
    );
}

#[test]
fn keybind_argument_accepts_space_separators_and_padding() {
    let kb = Keybind::default();
    let chars: Vec<char> = "A=u B=j".chars().collect();
    let kb = parse_keybind(kb, &chars);
    assert_eq!(
        kb,
        Keybind {
            left: 'u',
            middle: 'j',
            right: 'c'
        }
    );
    // Tabs around key and value are trimmed away.
    let chars: Vec<char> = "\tC\t=\tk".chars().collect();
    let kb = parse_keybind(kb, &chars);
    assert_eq!(kb.right, 'k');
}

#[test]
fn later_keybind_assignments_override_earlier_ones() {
    let kb = Keybind::default();
    let chars: Vec<char> = "A=1,A=2".chars().collect();
    let kb = parse_keybind(kb, &chars);
    assert_eq!(kb.left, '2');
}
