use hex_viewer::app::{App, Command, Event, Key, ScrollLimit};
use hex_viewer::byte::{
    byte_to_char, nibble_to_hex, u8_to_hex, Byte, ByteError, ByteType, Colour, Styled,
};
use hex_viewer::cursor::{step, Direction, Position};
use hex_viewer::hex_file::HexFile;
use hex_viewer::render::{char_row, hex_row, offset_label};
use hex_viewer::window::Window;

fn file_of(bytes: &[u8]) -> HexFile {
    HexFile::from_bytes("test.bin".to_string(), &bytes.to_vec())
}

fn ten_byte_app() -> App {
    // width 30 gives (30 - 10) / 4 - 1 = 4 columns; height 3 gives 3 rows
    App::new(file_of(&[0, 1, 2, 3, 4, 5, 6, 7, 8, 9]), 30, 3)
}

fn run(text: &str, colour: Option<Colour>, highlighted: bool) -> Styled {
    Styled { text: text.to_string(), colour, highlighted }
}

fn coloured(text: &str, colour: Colour) -> Styled {
    run(text, Some(colour), false)
}

fn blank(text: &str) -> Styled {
    run(text, None, false)
}

fn print_text(c: &Command) -> (u16, u16, Vec<Styled>) {
    match c {
        Command::Print { x, y, runs } => (*x, *y, runs.clone()),
        other => panic!("expected a print, got {:?}", other),
    }
}

#[test]
fn category_partition_is_exhaustive_and_disjoint() {
    for v in 0..=255u8 {
        let t = ByteType::get_type(v);
        assert_eq!(t == ByteType::Null, v == 0);
        assert_eq!(t == ByteType::NonAscii, v >= 0x80);
        if v != 0 && v < 0x80 {
            if v.is_ascii_graphic() {
                assert_eq!(t, ByteType::PrintableAscii);
            } else if v.is_ascii_whitespace() {
                assert_eq!(t, ByteType::WhitespaceAscii);
            } else {
                assert_eq!(t, ByteType::OtherAscii);
            }
        }
    }
}

#[test]
fn hex_pair_round_trips_for_every_byte() {
    for v in 0..=255u8 {
        let pair = u8_to_hex(v);
        let text: String = pair.iter().collect();
        assert_eq!(text, format!("{:02X}", v));
        assert_eq!(u8::from_str_radix(&text, 16).unwrap(), v);
    }
}

#[test]
fn nibble_out_of_range_is_an_error() {
    assert!(matches!(nibble_to_hex(15), Ok('F')));
    assert!(matches!(nibble_to_hex(16), Err(ByteError::NibbleParseError(16))));
    assert!(matches!(nibble_to_hex(255), Err(ByteError::NibbleParseError(255))));
}

#[test]
fn glyphs_by_category() {
    assert_eq!(byte_to_char(0, &ByteType::Null), '0');
    assert_eq!(byte_to_char(b'A', &ByteType::PrintableAscii), 'A');
    assert_eq!(byte_to_char(b' ', &ByteType::WhitespaceAscii), '_');
    assert_eq!(byte_to_char(7, &ByteType::OtherAscii), '\u{2022}');
    assert_eq!(byte_to_char(0xff, &ByteType::NonAscii), '\u{d7}');
}

#[test]
fn byte_text_is_coloured_by_category() {
    assert_eq!(Byte::new(b'A').char(), coloured("A", Colour::Cyan));
    assert_eq!(Byte::new(0).char(), coloured("0", Colour::Black));
    assert_eq!(Byte::new(b'\n').char(), coloured("_", Colour::White));
    assert_eq!(Byte::new(7).char(), coloured("\u{2022}", Colour::Green));
    assert_eq!(Byte::new(0xc8).char(), coloured("\u{d7}", Colour::Red));
    assert_eq!(Byte::new(0xab).hex(), coloured("AB", Colour::Red));
    assert_eq!(Byte::new(0x41).hex(), coloured("41", Colour::Cyan));
    assert_eq!(Byte::new(0x41).value(), 0x41);
    assert_eq!(ByteType::Null.colour_byte("x".to_string()), coloured("x", Colour::Black));
}

#[test]
fn right_twice_from_the_start() {
    let start = Position { index: 0, first_half: true };
    let once = step(start, Direction::Right, 4, 10);
    assert_eq!(once, Position { index: 0, first_half: false });
    let twice = step(once, Direction::Right, 4, 10);
    assert_eq!(twice, Position { index: 1, first_half: true });
}

#[test]
fn left_moves_back_a_digit_then_a_byte() {
    let p = Position { index: 1, first_half: false };
    let a = step(p, Direction::Left, 4, 10);
    assert_eq!(a, Position { index: 1, first_half: true });
    let b = step(a, Direction::Left, 4, 10);
    assert_eq!(b, Position { index: 0, first_half: false });
    assert_eq!(step(b, Direction::Down, 4, 10), Position { index: 4, first_half: false });
    assert_eq!(step(Position { index: 5, first_half: true }, Direction::Up, 4, 10).index, 1);
}

#[test]
fn moves_at_the_edges_do_nothing() {
    let up = Position { index: 3, first_half: true };
    assert_eq!(step(up, Direction::Up, 4, 10), up);
    let down = Position { index: 6, first_half: true };
    assert_eq!(step(down, Direction::Down, 4, 10), down);
    let left = Position { index: 4, first_half: true };
    assert_eq!(step(left, Direction::Left, 4, 10), left);
    let row_end = Position { index: 3, first_half: false };
    assert_eq!(step(row_end, Direction::Right, 4, 10), row_end);
    let last = Position { index: 9, first_half: false };
    assert_eq!(step(last, Direction::Right, 4, 10), last);
    assert_eq!(step(last, Direction::Stay, 4, 10), last);
}

#[test]
fn layout_for_width_88() {
    let app = App::new(file_of(&[1, 2, 3]), 88, 24);
    assert_eq!(app.view.columns, 18);
    assert_eq!(app.view.rows, 24);
    assert_eq!(app.hex_window.width(), 54);
    assert_eq!(app.char_window.move_to(0, 0), (69, 0));
    assert_eq!(app.char_window.width(), 18);
    assert_eq!(app.offset_window.width(), 8);
    assert_eq!(app.hex_window.move_to(0, 0), (11, 0));
}

#[test]
fn resize_lays_out_again_and_clears() {
    let mut app = ten_byte_app();
    let out = app.handle_event(Event::Resize(88, 10)).unwrap();
    assert_eq!(out[0], Command::Clear);
    assert_eq!(out[1], Command::HideCursor);
    assert_eq!(*out.last().unwrap(), Command::ShowCursor);
    assert_eq!(app.view.columns, 18);
    assert_eq!(app.view.rows, 10);
    assert_eq!(app.hex_window.width(), 54);
    assert_eq!(app.char_window.move_to(0, 0), (69, 0));
    assert_eq!(app.hex_window.height(), 10);
}

#[test]
fn ten_byte_file_in_four_columns_and_three_rows() {
    let app = ten_byte_app();
    let offsets = app.draw_offset();
    let hexes = app.draw_hex();
    let chars = app.draw_char();
    assert_eq!(offsets.len(), 3);
    assert_eq!(hexes.len(), 3);
    assert_eq!(chars.len(), 3);
    let labels = ["00000000", "00000004", "00000008"];
    for (r, label) in labels.iter().enumerate() {
        assert_eq!(print_text(&offsets[r]), (0, r as u16, vec![coloured(label, Colour::Black)]));
    }
    let hex_last = vec![
        coloured("08", Colour::Green),
        blank(" "),
        coloured("09", Colour::White),
        blank(" "),
        blank("  "),
        blank("  "),
    ];
    assert_eq!(print_text(&hexes[2]), (11, 2, hex_last));
    let char_last = vec![
        coloured("\u{2022}", Colour::Green),
        coloured("_", Colour::White),
        blank(" "),
        blank(" "),
    ];
    assert_eq!(print_text(&chars[2]), (30 - 4 - 1, 2, char_last));
    let hex_first: Vec<Styled> = [("00", Colour::Black), ("01", Colour::Green), ("02", Colour::Green), ("03", Colour::Green)]
        .iter()
        .flat_map(|(t, c)| vec![coloured(t, *c), blank(" ")])
        .collect();
    assert_eq!(print_text(&hexes[0]), (11, 0, hex_first));
    let plain: String = print_text(&hexes[2]).2.iter().map(|r| r.text.clone()).collect();
    assert_eq!(plain, "08 09     ");
}

#[test]
fn first_draw_puts_the_cursor_on_the_hex_pane() {
    let app = ten_byte_app();
    let out = app.first_draw();
    assert_eq!(out.len(), 10);
    assert_eq!(out[9], Command::PlaceCursor { x: 11, y: 0 });
}

#[test]
fn rows_and_offsets_past_the_window() {
    let file = file_of(&[0x41; 100]);
    let a = coloured("A", Colour::Cyan);
    let h = coloured("41", Colour::Cyan);
    assert_eq!(
        hex_row(&file, 98, 4),
        vec![h.clone(), blank(" "), h, blank(" "), blank("  "), blank("  ")]
    );
    assert_eq!(char_row(&file, 98, 4), vec![a.clone(), a, blank(" "), blank(" ")]);
    assert_eq!(offset_label(0x1234_5678_9), coloured("123456789", Colour::Black));
    assert_eq!(offset_label(255), coloured("000000FF", Colour::Black));
}

#[test]
fn hex_and_char_panes_draw_the_same_rows() {
    let mut app = App::new(file_of(&[5u8; 37]), 30, 4);
    for _ in 0..12 {
        assert_eq!(app.draw_hex().len(), app.draw_char().len());
        assert_eq!(app.draw_hex().len(), app.draw_offset().len());
        assert_eq!(app.row_starts().len(), app.draw_hex().len());
        app.scroll_down();
    }
}

#[test]
fn quit_stops_without_drawing() {
    let mut app = ten_byte_app();
    app.handle_event(Event::Key(Key::Char('l')));
    app.handle_event(Event::Key(Key::Up));
    let before = (app.cursor_pos, app.view);
    assert!(app.handle_event(Event::Key(Key::Char('q'))).is_none());
    assert_eq!((app.cursor_pos, app.view), before);
}

#[test]
fn keys_move_the_cursor_and_highlight_it() {
    let mut app = ten_byte_app();
    let out = app.handle_event(Event::Key(Key::Char('j'))).unwrap();
    assert_eq!(app.cursor_pos, Position { index: 4, first_half: true });
    assert_eq!(out.len(), 3);
    assert_eq!(print_text(&out[0]), (25, 0, vec![coloured("0", Colour::Black)]));
    assert_eq!(print_text(&out[1]), (25, 1, vec![run("\u{2022}", Some(Colour::Green), true)]));
    assert_eq!(out[2], Command::PlaceCursor { x: 11, y: 1 });
    let out = app.handle_event(Event::Key(Key::Char('l'))).unwrap();
    assert_eq!(out[2], Command::PlaceCursor { x: 12, y: 1 });
    app.handle_event(Event::Key(Key::Char('l')));
    assert_eq!(app.cursor_pos, Position { index: 5, first_half: true });
    app.handle_event(Event::Key(Key::Char('k')));
    assert_eq!(app.cursor_pos.index, 1);
    app.handle_event(Event::Key(Key::Char('h')));
    assert_eq!(app.cursor_pos, Position { index: 0, first_half: false });
    let out = app.handle_event(Event::Key(Key::Char('x'))).unwrap();
    assert!(out.is_empty());
    assert!(app.handle_event(Event::Other).unwrap().is_empty());
}

#[test]
fn cursor_moves_never_scroll() {
    let mut app = App::new(file_of(&[1u8; 40]), 30, 2);
    for _ in 0..5 {
        app.move_cursor(Direction::Down);
    }
    assert_eq!(app.cursor_pos.index, 20);
    assert_eq!(app.view.starting_row, 0);
    // the cursor is off screen: neither the old nor the new byte is drawn
    let out = app.move_cursor(Direction::Down);
    assert_eq!(app.cursor_pos.index, 24);
    assert!(out.is_empty());
}

#[test]
fn scrolling_has_no_end_clamp_but_stops_at_row_zero() {
    let mut app = ten_byte_app();
    assert!(app.scroll_up().is_empty());
    for _ in 0..5 {
        let out = app.handle_event(Event::Key(Key::Up)).unwrap();
        assert_eq!(out[0], Command::HideCursor);
    }
    assert_eq!(app.view.starting_row, 5);
    assert_eq!(app.draw_hex().len(), 0);
    let out = app.handle_event(Event::Key(Key::Down)).unwrap();
    assert_eq!(app.view.starting_row, 4);
    assert_eq!(out, vec![Command::HideCursor, Command::ShowCursor]);
}

#[test]
fn empty_file_draws_nothing() {
    let mut app = App::new(file_of(&[]), 40, 5);
    assert_eq!(app.first_draw(), vec![Command::PlaceCursor { x: 11, y: 0 }]);
    let out = app.handle_event(Event::Key(Key::Char('l'))).unwrap();
    assert!(out.is_empty());
    assert_eq!(app.cursor_pos, Position { index: 0, first_half: false });
}

#[test]
fn file_holds_its_bytes() {
    let file = file_of(&[9, 8, 7]);
    assert_eq!(file.len(), 3);
    let values: Vec<u8> = file.get_data().iter().map(|b| b.value()).collect();
    assert_eq!(values, vec![9, 8, 7]);
    file.print();
}

#[test]
fn window_setters_and_translation() {
    let mut w = Window::new(2, 3, 10, 5);
    assert_eq!(w.move_to(1, 1), (3, 4));
    w.set_location(20, 1);
    w.set_width(7);
    w.set_height(9);
    assert_eq!(w.move_to(0, 2), (20, 3));
    assert_eq!((w.width(), w.height()), (7, 9));
}

#[test]
fn scrolling_stops_at_the_last_row_when_limited() {
    let mut app = ten_byte_app();
    app.scroll_limit = ScrollLimit::LastRow;
    assert!(!app.scroll_down().is_empty());
    assert!(!app.scroll_down().is_empty());
    assert_eq!(app.view.starting_row, 2);
    assert!(app.scroll_down().is_empty());
    assert_eq!(app.view.starting_row, 2);
    let rows = app.draw_offset();
    assert_eq!(print_text(&rows[0]).2, vec![coloured("00000008", Colour::Black)]);
}
