use ransid::{Color, Event, State};

fn rect(x: usize, y: usize, w: usize, h: usize, color: Color) -> Event {
    Event::Rect { x, y, w, h, color }
}

fn glyph(x: usize, y: usize, c: char) -> Event {
    Event::Char {
        x,
        y,
        c,
        bold: false,
        italic: false,
        underlined: false,
        strikethrough: false,
        color: Color::Ansi(7),
    }
}

fn csi(s: &mut State, c: char, params: &[i64]) -> Vec<Event> {
    let mut events = Vec::new();
    s.csi(c, params, &[], &mut events);
    events
}

fn private_mode(s: &mut State, c: char, mode: i64) -> Vec<Event> {
    let mut events = Vec::new();
    s.csi(c, &[mode], b"?", &mut events);
    events
}

#[test]
fn new_state_defaults() {
    let s = State::new(80, 24);
    assert_eq!((s.x, s.y, s.w, s.h), (0, 0, 80, 24));
    assert_eq!((s.top_margin, s.bottom_margin), (0, 23));
    assert_eq!(s.foreground, Color::Ansi(7));
    assert_eq!(s.background, Color::Ansi(0));
    assert!(s.autowrap && s.cursor && s.redraw && !s.origin);
    assert_eq!((s.g0, s.g1), ('B', '0'));
    assert!(s.is_valid());
}

#[test]
fn print_clears_cell_then_draws() {
    let mut s = State::new(80, 24);
    let mut events = Vec::new();
    s.print('a', &mut events);
    assert_eq!(events, vec![rect(0, 0, 1, 1, Color::Ansi(0)), glyph(0, 0, 'a')]);
    assert_eq!((s.x, s.y), (1, 0));
}

#[test]
fn print_inverted_swaps_colors() {
    let mut s = State::new(80, 24);
    csi(&mut s, 'm', &[7]);
    let mut events = Vec::new();
    s.print('x', &mut events);
    assert_eq!(events[0], rect(0, 0, 1, 1, Color::Ansi(7)));
    match &events[1] {
        Event::Char { color, .. } => assert_eq!(*color, Color::Ansi(0)),
        other => panic!("unexpected {:?}", other),
    }
}

#[test]
fn full_row_wraps_to_next_row() {
    let mut s = State::new(4, 3);
    let mut events = Vec::new();
    for c in "abcd".chars() {
        s.print(c, &mut events);
    }
    assert_eq!((s.x, s.y), (0, 1));
    assert_eq!(events.len(), 8);
    assert!(!events.iter().any(|e| matches!(e, Event::Move { .. })));
}

#[test]
fn full_bottom_row_scrolls_once() {
    let mut s = State::new(4, 3);
    csi(&mut s, 'H', &[3, 1]);
    let mut events = Vec::new();
    for c in "wxyz".chars() {
        s.print(c, &mut events);
    }
    assert_eq!((s.x, s.y), (0, 2));
    assert_eq!(events.len(), 10);
    assert_eq!(events[7], glyph(3, 2, 'z'));
    assert_eq!(
        events[8],
        Event::Move { from_x: 0, from_y: 1, to_x: 0, to_y: 0, w: 4, h: 2 }
    );
    assert_eq!(events[9], rect(0, 2, 4, 1, Color::Ansi(0)));
    assert_eq!(events.iter().filter(|e| matches!(e, Event::Move { .. })).count(), 1);
}

#[test]
fn no_autowrap_stays_in_last_column() {
    let mut s = State::new(3, 2);
    private_mode(&mut s, 'l', 7);
    assert!(!s.autowrap);
    let mut events = Vec::new();
    for c in "abcde".chars() {
        s.print(c, &mut events);
    }
    assert_eq!((s.x, s.y), (2, 0));
    assert_eq!(events[9], glyph(2, 0, 'e'));
}

#[test]
fn control_characters() {
    let mut s = State::new(80, 24);
    let mut events = Vec::new();
    s.execute('\x09', &mut events);
    assert_eq!(s.x, 8);
    s.execute('\x09', &mut events);
    assert_eq!(s.x, 16);
    s.execute('\x08', &mut events);
    assert_eq!(s.x, 15);
    s.execute('\x0A', &mut events);
    assert_eq!((s.x, s.y), (0, 1));
    s.x = 5;
    s.execute('\x0D', &mut events);
    assert_eq!(s.x, 0);
    s.execute('\x08', &mut events);
    assert_eq!(s.x, 0);
    s.execute('\x07', &mut events);
    assert!(events.is_empty());
}

#[test]
fn tab_stops_at_last_column() {
    let mut s = State::new(10, 2);
    let mut events = Vec::new();
    s.x = 8;
    s.execute('\x09', &mut events);
    assert_eq!(s.x, 9);
}

#[test]
fn newline_at_bottom_scrolls() {
    let mut s = State::new(80, 24);
    s.y = 23;
    let mut events = Vec::new();
    s.execute('\x0A', &mut events);
    assert_eq!((s.x, s.y), (0, 23));
    assert_eq!(
        events,
        vec![
            Event::Move { from_x: 0, from_y: 1, to_x: 0, to_y: 0, w: 80, h: 23 },
            rect(0, 23, 80, 1, Color::Ansi(0)),
        ]
    );
}

#[test]
fn cursor_moves_clamp() {
    let mut s = State::new(80, 24);
    csi(&mut s, 'B', &[100]);
    assert_eq!(s.y, 23);
    csi(&mut s, 'A', &[5]);
    assert_eq!(s.y, 18);
    csi(&mut s, 'C', &[200]);
    assert_eq!(s.x, 79);
    csi(&mut s, 'D', &[9]);
    assert_eq!(s.x, 70);
    csi(&mut s, 'D', &[0]);
    assert_eq!(s.x, 69);
    csi(&mut s, 'G', &[3]);
    assert_eq!(s.x, 2);
    csi(&mut s, 'd', &[4]);
    assert_eq!(s.y, 3);
    csi(&mut s, 'F', &[10]);
    assert_eq!((s.x, s.y), (0, 0));
    csi(&mut s, 'E', &[30]);
    assert_eq!((s.x, s.y), (0, 23));
    csi(&mut s, 'H', &[]);
    assert_eq!((s.x, s.y), (0, 0));
    csi(&mut s, 'f', &[12, 40]);
    assert_eq!((s.x, s.y), (39, 11));
    csi(&mut s, 'A', &[i64::MAX]);
    assert_eq!(s.y, 0);
}

#[test]
fn cursor_up_stops_at_top_margin() {
    let mut s = State::new(80, 24);
    csi(&mut s, 'r', &[5, 10]);
    csi(&mut s, 'H', &[8, 1]);
    csi(&mut s, 'A', &[20]);
    assert_eq!(s.y, 4);
    csi(&mut s, 'B', &[20]);
    assert_eq!(s.y, 9);
}

#[test]
fn origin_mode_positions_relative_to_region() {
    let mut s = State::new(80, 24);
    csi(&mut s, 'r', &[5, 10]);
    private_mode(&mut s, 'h', 6);
    assert!(s.origin);
    assert_eq!((s.x, s.y), (0, 4));
    csi(&mut s, 'H', &[2, 3]);
    assert_eq!((s.x, s.y), (2, 5));
    csi(&mut s, 'H', &[50, 1]);
    assert_eq!(s.y, 9);
    private_mode(&mut s, 'l', 6);
    assert_eq!((s.x, s.y), (0, 0));
}

#[test]
fn scroll_region_is_clamped() {
    let mut s = State::new(80, 24);
    csi(&mut s, 'r', &[10, 5]);
    assert_eq!((s.top_margin, s.bottom_margin), (9, 9));
    csi(&mut s, 'r', &[0, 100]);
    assert_eq!((s.top_margin, s.bottom_margin), (0, 23));
    csi(&mut s, 'r', &[3]);
    assert_eq!((s.top_margin, s.bottom_margin), (2, 23));
}

#[test]
fn scroll_up_inside_region() {
    let mut s = State::new(80, 24);
    csi(&mut s, 'r', &[5, 10]);
    csi(&mut s, 'H', &[6, 1]);
    let events = csi(&mut s, 'S', &[2]);
    assert_eq!(
        events,
        vec![
            Event::Move { from_x: 0, from_y: 6, to_x: 0, to_y: 4, w: 80, h: 4 },
            rect(0, 8, 80, 2, Color::Ansi(0)),
        ]
    );
    assert_eq!((s.x, s.y), (0, 5));
}

#[test]
fn scroll_down_and_oversized_scroll() {
    let mut s = State::new(80, 24);
    let events = csi(&mut s, 'T', &[3]);
    assert_eq!(
        events,
        vec![
            Event::Move { from_x: 0, from_y: 0, to_x: 0, to_y: 3, w: 80, h: 21 },
            rect(0, 0, 80, 3, Color::Ansi(0)),
        ]
    );
    let events = csi(&mut s, 'S', &[1000]);
    assert_eq!(
        events,
        vec![
            Event::Move { from_x: 0, from_y: 24, to_x: 0, to_y: 0, w: 80, h: 0 },
            rect(0, 0, 80, 24, Color::Ansi(0)),
        ]
    );
}

#[test]
fn erase_in_display() {
    let mut s = State::new(10, 5);
    csi(&mut s, 'H', &[3, 4]);
    let events = csi(&mut s, 'J', &[]);
    assert_eq!(events, vec![rect(3, 2, 7, 1, Color::Ansi(0)), rect(0, 3, 10, 2, Color::Ansi(0))]);
    let events = csi(&mut s, 'J', &[1]);
    assert_eq!(events, vec![rect(0, 0, 10, 2, Color::Ansi(0)), rect(0, 2, 3, 1, Color::Ansi(0))]);
    let events = csi(&mut s, 'J', &[2]);
    assert_eq!(events, vec![rect(0, 0, 10, 5, Color::Ansi(0))]);
    assert_eq!((s.x, s.y), (0, 0));
    let events = csi(&mut s, 'J', &[7]);
    assert!(events.is_empty());
}

#[test]
fn erase_in_line() {
    let mut s = State::new(10, 5);
    csi(&mut s, 'H', &[2, 5]);
    assert_eq!(csi(&mut s, 'K', &[0]), vec![rect(4, 1, 6, 1, Color::Ansi(0))]);
    assert_eq!(csi(&mut s, 'K', &[1]), vec![rect(0, 1, 4, 1, Color::Ansi(0))]);
    assert_eq!(csi(&mut s, 'K', &[2]), vec![rect(0, 1, 10, 1, Color::Ansi(0))]);
    assert_eq!((s.x, s.y), (4, 1));
}

#[test]
fn erase_uses_current_background() {
    let mut s = State::new(10, 5);
    csi(&mut s, 'm', &[44]);
    assert_eq!(csi(&mut s, 'K', &[2]), vec![rect(0, 0, 10, 1, Color::Ansi(4))]);
}

#[test]
fn delete_and_insert_characters() {
    let mut s = State::new(10, 5);
    csi(&mut s, 'G', &[3]);
    let events = csi(&mut s, 'P', &[2]);
    assert_eq!(
        events,
        vec![
            Event::Move { from_x: 4, from_y: 0, to_x: 2, to_y: 0, w: 6, h: 1 },
            rect(8, 0, 2, 1, Color::Ansi(0)),
        ]
    );
    let events = csi(&mut s, '@', &[100]);
    assert_eq!(
        events,
        vec![
            Event::Move { from_x: 2, from_y: 0, to_x: 9, to_y: 0, w: 1, h: 1 },
            rect(2, 0, 7, 1, Color::Ansi(0)),
        ]
    );
}

#[test]
fn device_attributes_reply() {
    let mut s = State::new(80, 24);
    let events = csi(&mut s, 'c', &[0]);
    assert_eq!(events, vec![Event::Input { data: b"\x1b[?6c".to_vec() }]);
}

#[test]
fn cursor_position_report() {
    let mut s = State::new(80, 24);
    csi(&mut s, 'H', &[12, 34]);
    let events = csi(&mut s, 'n', &[6]);
    assert_eq!(events, vec![Event::Input { data: b"\x1b[12;34R".to_vec() }]);
    assert_eq!((s.x, s.y), (33, 11));
    assert!(csi(&mut s, 'n', &[5]).is_empty());
}

#[test]
fn cursor_position_report_at_origin() {
    let mut s = State::new(80, 24);
    let events = csi(&mut s, 'n', &[6]);
    assert_eq!(events, vec![Event::Input { data: b"\x1b[1;1R".to_vec() }]);
}

#[test]
fn sgr_attributes() {
    let mut s = State::new(80, 24);
    csi(&mut s, 'm', &[1, 3, 4, 7, 9]);
    assert!(s.bold && s.italic && s.underlined && s.inverted && s.strikethrough);
    csi(&mut s, 'm', &[21, 23, 24, 27, 29]);
    assert!(!s.bold && !s.italic && !s.underlined && !s.inverted && !s.strikethrough);
    csi(&mut s, 'm', &[31, 42]);
    assert_eq!((s.foreground, s.background), (Color::Ansi(1), Color::Ansi(2)));
    csi(&mut s, 'm', &[1, 4]);
    csi(&mut s, 'm', &[]);
    assert!(!s.bold && !s.underlined);
    assert_eq!((s.foreground, s.background), (Color::Ansi(7), Color::Ansi(0)));
}

#[test]
fn sgr_extended_colors() {
    let mut s = State::new(80, 24);
    csi(&mut s, 'm', &[38, 2, 10, 20, 30, 48, 5, 200]);
    assert_eq!(s.foreground, Color::TrueColor(10, 20, 30));
    assert_eq!(s.background, Color::Ansi(200));
    csi(&mut s, 'm', &[38, 5, 300, 1]);
    assert_eq!(s.foreground, Color::Ansi(44));
    assert!(s.bold);
    csi(&mut s, 'm', &[48, 2, 1]);
    assert_eq!(s.background, Color::TrueColor(1, 0, 0));
    csi(&mut s, 'm', &[38]);
    assert_eq!(s.foreground, Color::Ansi(44));
    csi(&mut s, 'm', &[38, 9, 4]);
    assert!(s.underlined);
}

#[test]
fn sgr_reset_tracks_configured_defaults() {
    let mut s = State::new(80, 24);
    s.foreground_default = Color::TrueColor(1, 2, 3);
    s.background_default = Color::Ansi(4);
    csi(&mut s, 'm', &[31, 45]);
    csi(&mut s, 'm', &[0]);
    assert_eq!(s.foreground, Color::TrueColor(1, 2, 3));
    assert_eq!(s.background, Color::Ansi(4));
    csi(&mut s, 'm', &[32, 46]);
    csi(&mut s, 'm', &[39, 49]);
    assert_eq!(s.foreground, Color::TrueColor(1, 2, 3));
    assert_eq!(s.background, Color::Ansi(4));
}

#[test]
fn save_and_restore_single_slot() {
    let mut s = State::new(80, 24);
    csi(&mut s, 'H', &[5, 6]);
    csi(&mut s, 's', &[]);
    csi(&mut s, 'H', &[20, 70]);
    csi(&mut s, 'u', &[]);
    assert_eq!((s.x, s.y), (5, 4));
    csi(&mut s, 'H', &[2, 2]);
    csi(&mut s, 's', &[]);
    csi(&mut s, 'H', &[9, 9]);
    csi(&mut s, 's', &[]);
    csi(&mut s, 'H', &[1, 1]);
    csi(&mut s, 'u', &[]);
    assert_eq!((s.x, s.y), (8, 8));
}

#[test]
fn esc_and_csi_share_save_slot() {
    let mut s = State::new(80, 24);
    let mut events = Vec::new();
    csi(&mut s, 'H', &[3, 3]);
    s.esc('7', &[], &mut events);
    csi(&mut s, 'H', &[10, 10]);
    csi(&mut s, 'u', &[]);
    assert_eq!((s.x, s.y), (2, 2));
    csi(&mut s, 'H', &[4, 4]);
    csi(&mut s, 's', &[]);
    csi(&mut s, 'H', &[1, 1]);
    s.esc('8', &[], &mut events);
    assert_eq!((s.x, s.y), (3, 3));
    assert!(events.is_empty());
}

#[test]
fn dec_modes() {
    let mut s = State::new(80, 24);
    private_mode(&mut s, 'l', 25);
    assert!(!s.cursor);
    private_mode(&mut s, 'h', 25);
    assert!(s.cursor);
    private_mode(&mut s, 'h', 1000);
    private_mode(&mut s, 'h', 1002);
    private_mode(&mut s, 'h', 1006);
    private_mode(&mut s, 'h', 1015);
    assert!(s.mouse_vt200 && s.mouse_btn && s.mouse_sgr && s.mouse_rxvt);
    private_mode(&mut s, 'l', 1002);
    assert!(s.mouse_vt200 && !s.mouse_btn && s.mouse_sgr && s.mouse_rxvt);
    assert!(private_mode(&mut s, 'h', 4242).is_empty());
}

#[test]
fn modes_need_private_marker() {
    let mut s = State::new(80, 24);
    let events = csi(&mut s, 'l', &[25]);
    assert!(events.is_empty());
    assert!(s.cursor);
}

#[test]
fn alternate_screen_modes() {
    let mut s = State::new(80, 24);
    let alt = |alternate, clear| Event::ScreenBuffer { alternate, clear };
    assert_eq!(private_mode(&mut s, 'h', 47), vec![alt(true, false)]);
    assert_eq!(private_mode(&mut s, 'l', 47), vec![alt(false, false)]);
    assert_eq!(private_mode(&mut s, 'h', 1047), vec![alt(true, false)]);
    assert_eq!(private_mode(&mut s, 'l', 1047), vec![alt(false, true)]);
    csi(&mut s, 'H', &[7, 8]);
    assert_eq!(private_mode(&mut s, 'h', 1049), vec![alt(true, true)]);
    csi(&mut s, 'H', &[1, 1]);
    assert_eq!(private_mode(&mut s, 'l', 1049), vec![alt(false, false)]);
    assert_eq!((s.x, s.y), (7, 6));
    csi(&mut s, 'H', &[2, 3]);
    assert!(private_mode(&mut s, 'h', 1048).is_empty());
    csi(&mut s, 'H', &[9, 9]);
    private_mode(&mut s, 'l', 1048);
    assert_eq!((s.x, s.y), (2, 1));
}

#[test]
fn column_mode_switch() {
    let mut s = State::new(80, 24);
    csi(&mut s, 'r', &[3, 7]);
    csi(&mut s, 'H', &[5, 5]);
    let events = private_mode(&mut s, 'h', 3);
    assert_eq!(events, vec![Event::Resize { w: 132, h: 24 }, rect(0, 0, 132, 24, Color::Ansi(0))]);
    assert_eq!((s.x, s.y, s.w), (0, 0, 132));
    assert_eq!((s.top_margin, s.bottom_margin), (0, 23));
    let events = private_mode(&mut s, 'l', 3);
    assert_eq!(events, vec![Event::Resize { w: 80, h: 24 }, rect(0, 0, 80, 24, Color::Ansi(0))]);
    assert_eq!(s.w, 80);
}

#[test]
fn unknown_csi_is_ignored() {
    let mut s = State::new(80, 24);
    csi(&mut s, 'H', &[3, 3]);
    let events = csi(&mut s, 'z', &[1, 2, 3]);
    assert!(events.is_empty());
    assert_eq!((s.x, s.y), (2, 2));
}

#[test]
fn index_and_next_line() {
    let mut s = State::new(80, 24);
    let mut events = Vec::new();
    csi(&mut s, 'H', &[1, 5]);
    s.esc('D', &[], &mut events);
    assert_eq!((s.x, s.y), (4, 1));
    s.esc('E', &[], &mut events);
    assert_eq!((s.x, s.y), (0, 2));
    assert!(events.is_empty());
    s.y = 23;
    s.esc('D', &[], &mut events);
    assert_eq!(s.y, 23);
    assert_eq!(events.len(), 2);
}

#[test]
fn reverse_index_at_top_scrolls_down() {
    let mut s = State::new(80, 24);
    let mut events = Vec::new();
    s.esc('M', &[], &mut events);
    assert_eq!(s.y, 0);
    assert_eq!(
        events,
        vec![
            Event::Move { from_x: 0, from_y: 0, to_x: 0, to_y: 1, w: 80, h: 23 },
            rect(0, 0, 80, 1, Color::Ansi(0)),
        ]
    );
    csi(&mut s, 'H', &[5, 1]);
    let mut events = Vec::new();
    s.esc('M', &[], &mut events);
    assert_eq!(s.y, 3);
    assert!(events.is_empty());
}

#[test]
fn reverse_index_at_top_margin() {
    let mut s = State::new(80, 24);
    csi(&mut s, 'r', &[5, 10]);
    csi(&mut s, 'H', &[5, 1]);
    let mut events = Vec::new();
    s.esc('M', &[], &mut events);
    assert_eq!(s.y, 4);
    assert_eq!(
        events,
        vec![
            Event::Move { from_x: 0, from_y: 4, to_x: 0, to_y: 5, w: 80, h: 5 },
            rect(0, 4, 80, 1, Color::Ansi(0)),
        ]
    );
}

#[test]
fn alignment_test_pattern() {
    let mut s = State::new(80, 24);
    csi(&mut s, 'H', &[3, 3]);
    let mut events = Vec::new();
    s.esc('8', b"#", &mut events);
    assert_eq!((s.x, s.y), (0, 0));
    // 60 columns on two rows, 6 rows on two columns, two events per cell
    assert_eq!(events.len(), 2 * (60 * 2 + 6 * 2));
    assert_eq!(events[1], glyph(10, 8, 'E'));
    assert_eq!(events[3], glyph(10, 15, 'E'));
    assert_eq!(events[events.len() - 1], glyph(69, 14, 'E'));
}

#[test]
fn full_reset() {
    let mut s = State::new(80, 24);
    csi(&mut s, 'm', &[1, 3, 9, 41]);
    csi(&mut s, 'r', &[2, 5]);
    csi(&mut s, 'H', &[4, 4]);
    csi(&mut s, 's', &[]);
    s.redraw = false;
    let mut events = Vec::new();
    s.esc('c', &[], &mut events);
    assert_eq!(events, vec![rect(0, 0, 80, 24, Color::Ansi(0))]);
    assert_eq!((s.x, s.y, s.save_x, s.save_y), (0, 0, 0, 0));
    assert_eq!((s.top_margin, s.bottom_margin), (0, 23));
    assert!(!s.bold && !s.italic && !s.strikethrough && s.redraw);
    assert_eq!(s.background, Color::Ansi(0));
}

#[test]
fn unknown_esc_is_ignored() {
    let mut s = State::new(80, 24);
    let mut events = Vec::new();
    s.esc('Z', &[], &mut events);
    s.esc('8', b"(", &mut events);
    assert!(events.is_empty());
}

#[test]
fn osc_sets_title() {
    let mut s = State::new(80, 24);
    let mut events = Vec::new();
    s.osc(&[b"0", b"hello"], &mut events);
    s.osc(&[b"2", "t\u{e9}l\u{e9}".as_bytes()], &mut events);
    assert_eq!(
        events,
        vec![
            Event::Title { title: "hello".to_string() },
            Event::Title { title: "t\u{e9}l\u{e9}".to_string() },
        ]
    );
}

#[test]
fn osc_rejects_invalid_utf8_and_other_commands() {
    let mut s = State::new(80, 24);
    let mut events = Vec::new();
    s.osc(&[b"0", b"\xff\xfe"], &mut events);
    s.osc(&[b"4", b"hello"], &mut events);
    s.osc(&[b"1"], &mut events);
    s.osc(&[], &mut events);
    s.osc(&[b"", b"x"], &mut events);
    assert!(events.is_empty());
}

#[test]
fn title_payload_selects_second_parameter() {
    assert_eq!(ransid::osc::title_payload(&[b"1", b"abc"]), Some(&b"abc"[..]));
    assert_eq!(ransid::osc::title_payload(&[b"21", b"abc", b"x"]), Some(&b"abc"[..]));
    assert_eq!(ransid::osc::title_payload(&[b"3", b"abc"]), None);
    assert_eq!(ransid::osc::title_payload(&[b"0"]), None);
}

#[test]
fn resize_clamps_cursor_and_margins() {
    let mut s = State::new(80, 24);
    csi(&mut s, 'r', &[5, 20]);
    csi(&mut s, 'H', &[22, 70]);
    s.resize(40, 10);
    assert_eq!((s.w, s.h), (40, 10));
    assert_eq!((s.x, s.y), (39, 9));
    assert_eq!((s.top_margin, s.bottom_margin), (4, 5));
    assert!(s.is_valid());
    s.resize(40, 30);
    assert_eq!((s.top_margin, s.bottom_margin), (4, 25));
}

#[test]
fn degenerate_screen_never_panics() {
    let mut s = State::new(0, 0);
    let mut events = Vec::new();
    s.print('a', &mut events);
    s.execute('\x0A', &mut events);
    s.execute('\x09', &mut events);
    for c in "ABCDEFGHJKPST@dhlmnrsu".chars() {
        s.csi(c, &[3], &[], &mut events);
        s.csi(c, &[3], b"?", &mut events);
    }
    s.esc('M', &[], &mut events);
    s.esc('D', &[], &mut events);
    s.esc('8', b"#", &mut events);
    assert_eq!((s.x, s.y), (0, 0));
    assert!(s.is_valid());
}

#[test]
fn validity_check_catches_bad_fields() {
    let mut s = State::new(10, 5);
    assert!(s.is_valid());
    s.x = 10;
    assert!(!s.is_valid());
    s.x = 0;
    s.top_margin = 3;
    s.bottom_margin = 2;
    assert!(!s.is_valid());
    s.bottom_margin = 5;
    assert!(!s.is_valid());
}

#[test]
fn cursor_up_from_below_region_clamps_to_screen() {
    let mut s = State::new(80, 24);
    csi(&mut s, 'r', &[5, 10]);
    csi(&mut s, 'H', &[16, 1]);
    csi(&mut s, 'A', &[20]);
    assert_eq!(s.y, 0);
}

#[test]
fn cursor_down_from_above_region_clamps_to_screen() {
    let mut s = State::new(80, 24);
    csi(&mut s, 'r', &[5, 10]);
    csi(&mut s, 'H', &[2, 1]);
    csi(&mut s, 'B', &[50]);
    assert_eq!(s.y, 23);
    csi(&mut s, 'H', &[2, 1]);
    csi(&mut s, 'B', &[1]);
    assert_eq!(s.y, 2);
}

#[test]
fn print_chars_wraps_full_row() {
    let mut s = State::new(5, 3);
    let mut events = Vec::new();
    s.print_chars(&['a', 'b', 'c', 'd', 'e'], &mut events);
    assert_eq!((s.x, s.y), (0, 1));
    assert_eq!(events.len(), 10);
    assert_eq!(events[9], glyph(4, 0, 'e'));
    csi(&mut s, 'H', &[3, 1]);
    let mut events = Vec::new();
    s.print_chars(&['v', 'w', 'x', 'y', 'z'], &mut events);
    assert_eq!((s.x, s.y), (0, 2));
    assert_eq!(events.len(), 12);
    assert_eq!(
        events[10],
        Event::Move { from_x: 0, from_y: 1, to_x: 0, to_y: 0, w: 5, h: 2 }
    );
    assert_eq!(events[11], rect(0, 2, 5, 1, Color::Ansi(0)));
}

#[test]
fn save_restore_across_several_moves() {
    let mut s = State::new(80, 24);
    csi(&mut s, 'H', &[7, 9]);
    csi(&mut s, 's', &[]);
    csi(&mut s, 'B', &[3]);
    csi(&mut s, 'C', &[10]);
    csi(&mut s, 'G', &[40]);
    csi(&mut s, 'd', &[20]);
    let events = csi(&mut s, 'u', &[]);
    assert!(events.is_empty());
    assert_eq!((s.x, s.y), (8, 6));
}
