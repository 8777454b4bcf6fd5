use tinybit::events::{KeyCode, KeyEvent, KeyModifiers};
use tinybit::string_ops::{at_boundary, byte_count};
use tinybit::ui::DebugOutput;
use tinybit::widgets::{Border, Text, TextField, Widget};
use tinybit::{Color, Pixel, ScreenPos, ScreenSize, Viewport};

fn any_size() -> ScreenSize {
    ScreenSize::new(80, 24)
}

fn key(code: KeyCode) -> KeyEvent {
    KeyEvent::new(code, KeyModifiers::none())
}

fn typed(field: &mut TextField, text: &str) {
    for c in text.chars() {
        field.event(key(KeyCode::Char(c)));
    }
}

fn focused() -> TextField {
    let mut field = TextField::new(None, None);
    field.focus = true;
    field
}

/// The column at which the field shows its cursor.
fn cursor_column(field: &TextField) -> u16 {
    field.pixels(any_size()).last().unwrap().pos.x
}

#[test]
fn text_pixels_line_by_line() {
    let text = Text::new("ab\n\ncd\n", Some(Color::Red), Some(Color::Blue));
    let px = |c: char, x: u16, y: u16| Pixel::new(c, ScreenPos::new(x, y), Some(Color::Red), Some(Color::Blue));
    assert_eq!(
        text.pixels(any_size()),
        vec![px('a', 0, 0), px('b', 1, 0), px('c', 0, 2), px('d', 1, 2)]
    );
}

#[test]
fn text_without_characters_has_no_pixels() {
    assert_eq!(Text::new(String::new(), None, None).pixels(any_size()), vec![]);
    assert_eq!(Text::new("\n\n".to_string(), None, None).pixels(any_size()), vec![]);
}

#[test]
fn text_counts_characters_not_bytes() {
    let text = Text::new("é✓z", None, None);
    assert_eq!(
        text.pixels(ScreenSize::new(0, 0)),
        vec![
            Pixel::white('é', ScreenPos::new(0, 0)),
            Pixel::white('✓', ScreenPos::new(1, 0)),
            Pixel::white('z', ScreenPos::new(2, 0)),
        ]
    );
}

#[test]
fn text_column_is_cut_down_to_sixteen_bits() {
    let mut long = "x".repeat(65536);
    long.push('y');
    let pixels = Text::new(long, None, None).pixels(any_size());
    assert_eq!(pixels.len(), 65537);
    assert_eq!(pixels[65535], Pixel::white('x', ScreenPos::new(65535, 0)));
    assert_eq!(pixels[65536], Pixel::white('y', ScreenPos::new(0, 0)));
}

#[test]
fn text_from_string_has_the_default_colours() {
    let text = Text::from("hi".to_string());
    assert_eq!(text.0, "hi");
    assert_eq!(text.1, None);
    assert_eq!(text.2, None);
    let text = Text::new("hi".to_string(), Some(Color::Red), None);
    assert_eq!((text.0.as_str(), text.1, text.2), ("hi", Some(Color::Red), None));
    let text = Text::new("Hello, World", None, Some(Color::Blue));
    assert_eq!((text.0.as_str(), text.1, text.2), ("Hello, World", None, Some(Color::Blue)));
    let text = Text::new('c', None, None);
    assert_eq!(text.0, "c");
}

#[test]
fn border_pixels_in_their_order() {
    let border = Border::new("ABCDEFGH".to_string(), Some(Color::Cyan), None);
    let px = |c: char, x: u16, y: u16| Pixel::new(c, ScreenPos::new(x, y), Some(Color::Cyan), None);
    assert_eq!(
        border.pixels(ScreenSize::new(4, 3)),
        vec![
            // top and bottom row
            px('B', 1, 0),
            px('B', 2, 0),
            px('F', 1, 2),
            px('F', 2, 2),
            // left and right side
            px('H', 0, 1),
            px('D', 3, 1),
            // corners, clockwise
            px('A', 0, 0),
            px('C', 3, 0),
            px('E', 3, 2),
            px('G', 0, 2),
        ]
    );
}

#[test]
fn border_around_the_smallest_areas() {
    let border = Border::new("12345678rest".to_string(), None, None);
    let px = |c: char, x: u16, y: u16| Pixel::white(c, ScreenPos::new(x, y));
    assert_eq!(
        border.pixels(ScreenSize::new(1, 1)),
        vec![px('1', 0, 0), px('3', 0, 0), px('5', 0, 0), px('7', 0, 0)]
    );
    assert_eq!(
        border.pixels(ScreenSize::new(2, 2)),
        vec![px('1', 0, 0), px('3', 1, 0), px('5', 1, 1), px('7', 0, 1)]
    );
    assert_eq!(
        border.pixels(ScreenSize::new(3, 1)),
        vec![px('2', 1, 0), px('6', 1, 0), px('1', 0, 0), px('3', 2, 0), px('5', 2, 0), px('7', 0, 0)]
    );
}

#[test]
fn border_has_one_pixel_for_each_cell_of_the_rim() {
    let border = Border::new("╔═╗║╝═╚║".to_string(), None, None);
    let pixels = border.pixels(ScreenSize::new(80, 24));
    assert_eq!(pixels.len(), 2 * 78 + 2 * 22 + 4);
    assert_eq!(pixels[0], Pixel::white('═', ScreenPos::new(1, 0)));
    assert_eq!(pixels[pixels.len() - 1], Pixel::white('╚', ScreenPos::new(0, 23)));
    let largest = border.pixels(ScreenSize::new(65535, 65535));
    assert_eq!(largest.len(), 4 * 65533 + 4);
    assert_eq!(largest[largest.len() - 2], Pixel::white('╝', ScreenPos::new(65534, 65534)));
}

#[test]
fn new_field_is_empty_enabled_and_without_focus() {
    let field = TextField::new(Some(Color::Red), None);
    assert_eq!(field.text, "");
    assert!(!field.password);
    assert!(!field.focus);
    assert!(!field.submit);
    assert!(field.enabled);
    assert_eq!(field.max_length, None);
    assert_eq!(field.pixels(any_size()), vec![]);
}

#[test]
fn field_without_focus_or_disabled_ignores_keys() {
    let mut field = TextField::new(None, None);
    typed(&mut field, "abc");
    field.event(key(KeyCode::Enter));
    assert_eq!(field.text, "");
    assert!(!field.submit);
    let mut field = focused();
    field.enabled = false;
    typed(&mut field, "abc");
    field.event(key(KeyCode::Enter));
    assert_eq!(field.text, "");
    assert!(!field.submit);
}

#[test]
fn typing_inserts_at_the_cursor() {
    let mut field = focused();
    typed(&mut field, "ac");
    assert_eq!(field.text, "ac");
    assert_eq!(cursor_column(&field), 2);
    field.event(key(KeyCode::Left));
    assert_eq!(cursor_column(&field), 1);
    typed(&mut field, "b");
    assert_eq!(field.text, "abc");
    assert_eq!(cursor_column(&field), 2);
}

#[test]
fn arrows_stop_at_the_ends_of_the_text() {
    let mut field = focused();
    typed(&mut field, "ab");
    field.event(key(KeyCode::Right));
    assert_eq!(cursor_column(&field), 2);
    field.event(key(KeyCode::Left));
    field.event(key(KeyCode::Left));
    field.event(key(KeyCode::Left));
    assert_eq!(cursor_column(&field), 0);
    field.event(key(KeyCode::Right));
    assert_eq!(cursor_column(&field), 1);
    field.event(key(KeyCode::Right));
    field.event(key(KeyCode::Right));
    assert_eq!(cursor_column(&field), 2);
}

#[test]
fn backspace_removes_the_character_before_the_cursor() {
    let mut field = focused();
    typed(&mut field, "abc");
    field.event(key(KeyCode::Left));
    field.event(key(KeyCode::Backspace));
    assert_eq!(field.text, "ac");
    assert_eq!(cursor_column(&field), 1);
    field.event(key(KeyCode::Backspace));
    assert_eq!(field.text, "c");
    assert_eq!(cursor_column(&field), 0);
    field.event(key(KeyCode::Backspace));
    assert_eq!(field.text, "c");
    assert_eq!(cursor_column(&field), 0);
}

#[test]
fn delete_removes_the_character_at_the_cursor() {
    let mut field = focused();
    typed(&mut field, "abc");
    field.event(key(KeyCode::Delete));
    assert_eq!(field.text, "abc");
    field.event(key(KeyCode::Left));
    field.event(key(KeyCode::Left));
    field.event(key(KeyCode::Delete));
    assert_eq!(field.text, "ac");
    assert_eq!(cursor_column(&field), 1);
    field.event(key(KeyCode::Delete));
    assert_eq!(field.text, "a");
    assert_eq!(cursor_column(&field), 1);
    field.event(key(KeyCode::Delete));
    assert_eq!(field.text, "a");
    let mut empty = focused();
    empty.event(key(KeyCode::Delete));
    assert_eq!(empty.text, "");
}

#[test]
fn delete_takes_a_whole_character_of_several_bytes() {
    let mut field = focused();
    field.text = "é✓a".to_string();
    field.event(key(KeyCode::Delete));
    assert_eq!(field.text, "✓a");
    field.event(key(KeyCode::Delete));
    assert_eq!(field.text, "a");
    field.event(key(KeyCode::Delete));
    assert_eq!(field.text, "");
}

#[test]
fn cursor_moves_by_bytes() {
    let mut field = focused();
    field.text = "é".to_string();
    field.event(key(KeyCode::Right));
    field.event(key(KeyCode::Right));
    // two bytes, one character: the cursor is drawn behind the text
    assert_eq!(cursor_column(&field), 2);
    field.event(key(KeyCode::Right));
    assert_eq!(cursor_column(&field), 2);
    typed(&mut field, "z");
    assert_eq!(field.text, "éz");
    assert_eq!(cursor_column(&field), 3);
    field.event(key(KeyCode::Backspace));
    assert_eq!(field.text, "é");
    assert_eq!(cursor_column(&field), 2);
}

#[test]
fn enter_submits() {
    let mut field = focused();
    typed(&mut field, "ok");
    field.event(key(KeyCode::Enter));
    assert!(field.submit);
    assert_eq!(field.text, "ok");
}

#[test]
fn other_keys_change_nothing() {
    let mut field = focused();
    typed(&mut field, "ab");
    for code in [
        KeyCode::Up,
        KeyCode::Down,
        KeyCode::Home,
        KeyCode::End,
        KeyCode::PageUp,
        KeyCode::PageDown,
        KeyCode::Tab,
        KeyCode::BackTab,
        KeyCode::Insert,
        KeyCode::F(1),
        KeyCode::Null,
        KeyCode::Esc,
    ] {
        field.event(KeyEvent::new(code, KeyModifiers { shift: true, control: true, alt: false }));
    }
    assert_eq!(field.text, "ab");
    assert!(!field.submit);
    assert_eq!(cursor_column(&field), 2);
}

#[test]
fn max_length_counts_characters() {
    let mut field = focused();
    // two characters, five bytes
    field.text = "é✓".to_string();
    field.max_length = Some(2);
    typed(&mut field, "a");
    assert_eq!(field.text, "é✓");
    field.max_length = Some(3);
    typed(&mut field, "a");
    assert_eq!(field.text, "aé✓");
    typed(&mut field, "b");
    assert_eq!(field.text, "aé✓");
    let mut field = focused();
    field.max_length = Some(3);
    typed(&mut field, "abcde");
    assert_eq!(field.text, "abc");
    assert_eq!(cursor_column(&field), 3);
    field.event(key(KeyCode::Backspace));
    typed(&mut field, "xy");
    assert_eq!(field.text, "abx");
    let mut none = focused();
    none.max_length = Some(0);
    typed(&mut none, "a");
    assert_eq!(none.text, "");
}

#[test]
fn clear_empties_the_text_and_resets_the_cursor() {
    let mut field = focused();
    typed(&mut field, "abc");
    field.event(key(KeyCode::Enter));
    field.clear();
    assert_eq!(field.text, "");
    assert!(field.focus);
    assert!(field.submit);
    assert_eq!(cursor_column(&field), 0);
    typed(&mut field, "z");
    assert_eq!(field.text, "z");
}

#[test]
fn unfocus_moves_the_cursor_behind_the_last_character() {
    let mut field = focused();
    typed(&mut field, "abc");
    field.event(key(KeyCode::Left));
    field.event(key(KeyCode::Left));
    field.unfocus();
    assert!(!field.focus);
    assert_eq!(field.text, "abc");
    field.focus = true;
    assert_eq!(cursor_column(&field), 3);
    let mut wide = focused();
    wide.text = "é✓".to_string();
    wide.unfocus();
    wide.focus = true;
    assert_eq!(cursor_column(&wide), 2);
}

#[test]
fn field_pixels_with_and_without_cursor() {
    let mut field = TextField::new(Some(Color::Green), Some(Color::Blue));
    field.text = "ab".to_string();
    let px = |c: char, x: u16| Pixel::new(c, ScreenPos::new(x, 0), Some(Color::Green), Some(Color::Blue));
    assert_eq!(field.pixels(any_size()), vec![px('a', 0), px('b', 1)]);
    field.focus = true;
    // the cursor is at the start, on 'a'
    assert_eq!(
        field.pixels(any_size()),
        vec![
            px('a', 0),
            px('b', 1),
            Pixel::new('a', ScreenPos::new(0, 0), Some(Color::Black), Some(Color::Green)),
        ]
    );
    field.event(key(KeyCode::Right));
    field.event(key(KeyCode::Right));
    assert_eq!(
        field.pixels(any_size()),
        vec![
            px('a', 0),
            px('b', 1),
            Pixel::new(' ', ScreenPos::new(2, 0), Some(Color::Black), Some(Color::Green)),
        ]
    );
    field.enabled = false;
    assert_eq!(field.pixels(any_size()), vec![px('a', 0), px('b', 1)]);
}

#[test]
fn cursor_without_foreground_is_black_on_white() {
    let field = focused();
    assert_eq!(
        field.pixels(any_size()),
        vec![Pixel::new(' ', ScreenPos::new(0, 0), Some(Color::Black), Some(Color::White))]
    );
}

#[test]
fn password_field_shows_stars() {
    let mut field = focused();
    field.password = true;
    typed(&mut field, "pw");
    field.event(key(KeyCode::Left));
    assert_eq!(field.text, "pw");
    assert_eq!(
        field.pixels(any_size()),
        vec![
            Pixel::white('*', ScreenPos::new(0, 0)),
            Pixel::white('*', ScreenPos::new(1, 0)),
            Pixel::new('*', ScreenPos::new(1, 0), Some(Color::Black), Some(Color::White)),
        ]
    );
    field.event(key(KeyCode::Right));
    assert_eq!(
        field.pixels(any_size()).last(),
        Some(&Pixel::new(' ', ScreenPos::new(2, 0), Some(Color::Black), Some(Color::White)))
    );
}

#[test]
fn debug_output_draws_its_text_in_the_first_row() {
    let mut view = Viewport::new(ScreenPos::new(1, 1), ScreenSize::new(3, 2));
    let output = DebugOutput { text: "héllo".to_string() };
    output.render(&mut view);
    assert_eq!(
        view.pixels(),
        vec![
            Pixel::white('h', ScreenPos::new(1, 1)),
            Pixel::white('é', ScreenPos::new(2, 1)),
            Pixel::white('l', ScreenPos::new(3, 1)),
        ]
    );
    DebugOutput::default().render(&mut view);
    assert_eq!(DebugOutput::default().text, "");
    assert_eq!(view.pixels().len(), 3);
    assert_eq!(view.pixels(), vec![]);
}

#[test]
fn accepts_says_whether_the_edit_falls_between_characters() {
    let all = [
        KeyCode::Backspace,
        KeyCode::Delete,
        KeyCode::Char('x'),
        KeyCode::Left,
        KeyCode::Right,
        KeyCode::Enter,
        KeyCode::Esc,
    ];
    let mut field = focused();
    typed(&mut field, "ab");
    field.event(key(KeyCode::Left));
    for code in all {
        assert!(field.accepts(key(code)));
    }
    // one character of two bytes, the cursor inside it
    let mut field = focused();
    field.text = "é".to_string();
    field.event(key(KeyCode::Right));
    assert!(field.accepts(key(KeyCode::Backspace)));
    assert!(!field.accepts(key(KeyCode::Delete)));
    assert!(!field.accepts(key(KeyCode::Char('x'))));
    assert!(field.accepts(key(KeyCode::Left)));
    assert!(field.accepts(key(KeyCode::Right)));
    field.max_length = Some(1);
    assert!(field.accepts(key(KeyCode::Char('x'))));
    field.focus = false;
    assert!(field.accepts(key(KeyCode::Delete)));
    // the cursor behind the first byte of two
    let mut field = focused();
    field.text = "é".to_string();
    field.event(key(KeyCode::Right));
    field.event(key(KeyCode::Right));
    assert!(!field.accepts(key(KeyCode::Backspace)));
    assert!(field.accepts(key(KeyCode::Delete)));
    assert!(field.accepts(key(KeyCode::Char('x'))));
    // the cursor behind a text that was cut short
    field.text = String::new();
    assert!(!field.accepts(key(KeyCode::Backspace)));
    assert!(field.accepts(key(KeyCode::Delete)));
    assert!(!field.accepts(key(KeyCode::Char('x'))));
}

#[test]
fn byte_offsets_of_a_string() {
    let text = "aé✓𝄞".to_string();
    assert_eq!(byte_count(&text), 1 + 2 + 3 + 4);
    assert_eq!(byte_count(&String::new()), 0);
    let boundaries: Vec<usize> = (0..13).filter(|offset| at_boundary(&text, *offset)).collect();
    assert_eq!(boundaries, vec![0, 1, 3, 6, 10]);
    assert!(at_boundary(&String::new(), 0));
    assert!(!at_boundary(&String::new(), 1));
}

#[test]
fn no_character_is_taken_behind_one_of_several_bytes() {
    let mut field = focused();
    typed(&mut field, "a");
    assert!(field.accepts(key(KeyCode::Char('b'))));
    typed(&mut field, "é");
    assert_eq!(field.text, "aé");
    assert!(!field.accepts(key(KeyCode::Char('b'))));
    field.event(key(KeyCode::Right));
    assert!(field.accepts(key(KeyCode::Char('b'))));
    typed(&mut field, "b");
    assert_eq!(field.text, "aéb");
}
