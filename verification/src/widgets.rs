//! A collection of widgets.
use vstd::prelude::*;
use vstd::std_specs::convert::IntoSpec;
use vstd::utf8::is_ascii_chars;
use crate::events::{KeyCode, KeyEvent};
use crate::string_ops::{
    at_boundary, byte_count, byte_len, char_index, char_width, clear_text, insert_char,
    is_boundary, lemma_ascii_offsets, lemma_byte_len_insert, lemma_byte_len_remove,
    lemma_char_index_unique, lemma_char_width, lemma_offsets_increase, remove_char, starts_at,
};
use crate::{Color, Pixel, ScreenPos, ScreenSize};

verus! {

/// Something that can be drawn into an area of a given size.
pub trait Widget {
    /// Whether the widget can be laid out in an area of the given size. A
    /// widget that says nothing else can be laid out in any area.
    open spec fn fits(&self, size: ScreenSize) -> bool {
        true
    }

    /// The pixels of the widget, relative to its top left corner.
    fn pixels(&self, size: ScreenSize) -> (pixels: Vec<Pixel>)
        requires
            self.fits(size),
    ;
}

/// The number of line breaks among the first `count` characters.
pub open spec fn row_at(text: Seq<char>, count: nat) -> nat
    decreases count,
{
    if count == 0 {
        0
    } else if text[count - 1] == '\n' {
        row_at(text, (count - 1) as nat) + 1
    } else {
        row_at(text, (count - 1) as nat)
    }
}

/// The number of characters that follow the last line break among the first
/// `count` characters.
pub open spec fn column_at(text: Seq<char>, count: nat) -> nat
    decreases count,
{
    if count == 0 || text[count - 1] == '\n' {
        0
    } else {
        column_at(text, (count - 1) as nat) + 1
    }
}

/// The pixels of the first `count` characters of a text: one for each
/// character but the line breaks, at its column and row, both cut down to
/// sixteen bits.
pub open spec fn text_pixels_upto(
    text: Seq<char>,
    fg: Option<Color>,
    bg: Option<Color>,
    count: nat,
) -> Seq<Pixel>
    decreases count,
{
    if count == 0 {
        Seq::empty()
    } else {
        let before = text_pixels_upto(text, fg, bg, (count - 1) as nat);
        if text[count - 1] == '\n' {
            before
        } else {
            before.push(
                Pixel {
                    glyph: text[count - 1],
                    pos: ScreenPos {
                        x: column_at(text, (count - 1) as nat) as u16,
                        y: row_at(text, (count - 1) as nat) as u16,
                    },
                    fg_color: fg,
                    bg_color: bg,
                },
            )
        }
    }
}

/// The pixels of a text, line by line.
pub open spec fn text_pixels(text: Seq<char>, fg: Option<Color>, bg: Option<Color>) -> Seq<Pixel> {
    text_pixels_upto(text, fg, bg, text.len())
}

/// Render a text string as a specified location.
pub struct Text(pub String, pub Option<Color>, pub Option<Color>);

impl Text {
    /// Make a new text widget from anything that turns into a `String`.
    pub fn new<S: Into<String>>(s: S, fg: Option<Color>, bg: Option<Color>) -> (text: Self)
        ensures
            S::obeys_into_spec() ==> text.0 == s.into_spec(),
            text.1 == fg,
            text.2 == bg,
    {
        Self(s.into(), fg, bg)
    }
}

impl From<String> for Text {
    fn from(s: String) -> (text: Text) {
        Text(s, None, None)
    }
}

impl vstd::std_specs::convert::FromSpecImpl<String> for Text {
    open spec fn obeys_from_spec() -> bool {
        true
    }

    open spec fn from_spec(s: String) -> Text {
        Text(s, None, None)
    }
}

impl Widget for Text {
    fn pixels(&self, _size: ScreenSize) -> (pixels: Vec<Pixel>)
        ensures
            pixels@ == text_pixels(self.0@, self.1, self.2),
    {
        let count: usize = self.0.as_str().unicode_len();
        let mut pixels: Vec<Pixel> = Vec::with_capacity(count);
        let mut x: usize = 0;
        let mut y: usize = 0;
        let ghost text = self.0@;
        for c in iter: self.0.as_str().chars()
            invariant
                iter.seq() == text,
                text == self.0@,
                text.len() == count,
                x == column_at(text, iter.index() as nat),
                y == row_at(text, iter.index() as nat),
                x <= iter.index(),
                y <= iter.index(),
                pixels@ == text_pixels_upto(text, self.1, self.2, iter.index() as nat),
        {
            if c == '\n' {
                y += 1;
                x = 0;
            } else {
                pixels.push(
                    Pixel::new(
                        c,
                        ScreenPos::new(
                            #[verifier::truncate]
                            (x as u16),
                            #[verifier::truncate]
                            (y as u16),
                        ),
                        self.1,
                        self.2,
                    ),
                );
                x += 1;
            }
        }
        pixels
    }
}

// -----------------------------------------------------------------------------
//     - Border -
// -----------------------------------------------------------------------------
/// The number of cells of a side of the given length that lie between its
/// two corners.
pub open spec fn between_corners(length: u16) -> nat {
    if length >= 2 {
        (length - 2) as nat
    } else {
        0
    }
}

/// The cells of row `y` between the corners of an area `width` wide, from
/// left to right, all showing `glyph`.
pub open spec fn row_pixels(
    glyph: char,
    y: u16,
    width: u16,
    fg: Option<Color>,
    bg: Option<Color>,
) -> Seq<Pixel> {
    Seq::new(
        between_corners(width),
        |i: int|
            Pixel { glyph, pos: ScreenPos { x: (i + 1) as u16, y }, fg_color: fg, bg_color: bg },
    )
}

/// The cells of column `x` between the corners of an area `height` high, from
/// top to bottom, all showing `glyph`.
pub open spec fn column_pixels(
    glyph: char,
    x: u16,
    height: u16,
    fg: Option<Color>,
    bg: Option<Color>,
) -> Seq<Pixel> {
    Seq::new(
        between_corners(height),
        |i: int|
            Pixel { glyph, pos: ScreenPos { x, y: (i + 1) as u16 }, fg_color: fg, bg_color: bg },
    )
}

/// The mathematical model of a border: its eight characters, clockwise from
/// the top left corner, and its colours.
pub struct BorderStyle {
    pub chars: Seq<char>,
    pub fg_color: Option<Color>,
    pub bg_color: Option<Color>,
}

impl BorderStyle {
    /// The pixel of the border that shows its character number `which` at
    /// `x`, `y`.
    pub open spec fn pixel(self, which: int, x: u16, y: u16) -> Pixel {
        Pixel {
            glyph: self.chars[which],
            pos: ScreenPos { x, y },
            fg_color: self.fg_color,
            bg_color: self.bg_color,
        }
    }

    /// The pixels of the border around an area of the given size: the top
    /// row, the bottom row, the left side, the right side, and the corners
    /// clockwise from the top left.
    pub open spec fn pixels(self, size: ScreenSize) -> Seq<Pixel> {
        let right = (size.width - 1) as u16;
        let bottom = (size.height - 1) as u16;
        row_pixels(self.chars[1], 0, size.width, self.fg_color, self.bg_color) + row_pixels(
            self.chars[5],
            bottom,
            size.width,
            self.fg_color,
            self.bg_color,
        ) + column_pixels(self.chars[7], 0, size.height, self.fg_color, self.bg_color)
            + column_pixels(self.chars[3], right, size.height, self.fg_color, self.bg_color)
            + seq![
            self.pixel(0, 0, 0),
            self.pixel(2, right, 0),
            self.pixel(4, right, bottom),
            self.pixel(6, 0, bottom),
        ]
    }
}

/// Render a border.
/// See the `new` function for more details.
pub struct Border {
    s: String,
    fg_color: Option<Color>,
    bg_color: Option<Color>,
}

impl View for Border {
    type V = BorderStyle;

    closed spec fn view(&self) -> BorderStyle {
        BorderStyle { chars: self.s@, fg_color: self.fg_color, bg_color: self.bg_color }
    }
}

impl Border {
    /// Create a new border from the chars in `s`, starting
    /// from the top left corner, going clockwise.
    ///
    /// ```text
    /// // Border::new("ABCDEFGH" None, None)
    ///
    /// ABBBBBBC
    /// H      D
    /// H      D
    /// GFFFFFFE
    /// ```
    pub fn new(s: String, fg_color: Option<Color>, bg_color: Option<Color>) -> (border: Self)
        requires
            s@.len() >= 8,
        ensures
            border@ == (BorderStyle { chars: s@, fg_color, bg_color }),
    {
        Self { s, fg_color, bg_color }
    }

    /// Append the cells of row `y` between the corners.
    fn push_row(&self, pixels: &mut Vec<Pixel>, glyph: char, y: u16, width: u16)
        requires
            width >= 1,
        ensures
            final(pixels)@ == old(pixels)@ + row_pixels(
                glyph,
                y,
                width,
                self@.fg_color,
                self@.bg_color,
            ),
    {
        let ghost start = pixels@;
        let ghost row = row_pixels(glyph, y, width, self@.fg_color, self@.bg_color);
        assert(start + row.take(0) =~= start);
        let mut x: u16 = 1;
        while x < width - 1
            invariant
                1 <= x,
                width >= 1,
                width >= 2 ==> x <= width - 1,
                row == row_pixels(glyph, y, width, self@.fg_color, self@.bg_color),
                width >= 2 ==> pixels@ == start + row.take(x - 1),
                width < 2 ==> pixels@ == start,
            decreases width - x,
        {
            pixels.push(Pixel::new(glyph, ScreenPos::new(x, y), self.fg_color, self.bg_color));
            assert(row.take(x as int) =~= row.take(x - 1).push(row[x - 1]));
            x += 1;
        }
        assert(width >= 2 ==> row.take(x - 1) =~= row);
        assert(width < 2 ==> start + row =~= start);
    }

    /// Append the cells of column `x` between the corners.
    fn push_column(&self, pixels: &mut Vec<Pixel>, glyph: char, x: u16, height: u16)
        requires
            height >= 1,
        ensures
            final(pixels)@ == old(pixels)@ + column_pixels(
                glyph,
                x,
                height,
                self@.fg_color,
                self@.bg_color,
            ),
    {
        let ghost start = pixels@;
        let ghost column = column_pixels(glyph, x, height, self@.fg_color, self@.bg_color);
        assert(start + column.take(0) =~= start);
        let mut y: u16 = 1;
        while y < height - 1
            invariant
                1 <= y,
                height >= 1,
                height >= 2 ==> y <= height - 1,
                column == column_pixels(glyph, x, height, self@.fg_color, self@.bg_color),
                height >= 2 ==> pixels@ == start + column.take(y - 1),
                height < 2 ==> pixels@ == start,
            decreases height - y,
        {
            pixels.push(Pixel::new(glyph, ScreenPos::new(x, y), self.fg_color, self.bg_color));
            assert(column.take(y as int) =~= column.take(y - 1).push(column[y - 1]));
            y += 1;
        }
        assert(height >= 2 ==> column.take(y - 1) =~= column);
        assert(height < 2 ==> start + column =~= start);
    }
}

impl Widget for Border {
    /// A border needs its eight characters and an area of at least one cell.
    open spec fn fits(&self, size: ScreenSize) -> bool {
        self@.chars.len() >= 8 && size.width >= 1 && size.height >= 1
    }

    fn pixels(&self, size: ScreenSize) -> (pixels: Vec<Pixel>)
        ensures
            pixels@ == self@.pixels(size),
    {
        let text = self.s.as_str();
        let left = text.get_char(7);
        let bot_left = text.get_char(6);
        let bot = text.get_char(5);
        let bot_right = text.get_char(4);
        let right = text.get_char(3);
        let top_right = text.get_char(2);
        let top = text.get_char(1);
        let top_left = text.get_char(0);

        let mut pixels: Vec<Pixel> = Vec::new();
        self.push_row(&mut pixels, top, 0, size.width);
        self.push_row(&mut pixels, bot, size.height - 1, size.width);
        self.push_column(&mut pixels, left, 0, size.height);
        self.push_column(&mut pixels, right, size.width - 1, size.height);

        // Corners
        pixels.push(Pixel::new(top_left, ScreenPos::zero(), self.fg_color, self.bg_color));
        pixels.push(
            Pixel::new(top_right, ScreenPos::new(size.width - 1, 0), self.fg_color, self.bg_color),
        );
        pixels.push(
            Pixel::new(
                bot_right,
                ScreenPos::new(size.width - 1, size.height - 1),
                self.fg_color,
                self.bg_color,
            ),
        );
        pixels.push(
            Pixel::new(bot_left, ScreenPos::new(0, size.height - 1), self.fg_color, self.bg_color),
        );
        assert(pixels@ =~= self@.pixels(size));
        pixels
    }
}

// -----------------------------------------------------------------------------
//     - Text field -
// -----------------------------------------------------------------------------
/// The mathematical model of a text field. The cursor is a byte offset into
/// the text where the field edits it, and a character index where the field
/// draws it.
pub struct FieldState {
    pub text: Seq<char>,
    pub password: bool,
    pub focus: bool,
    pub submit: bool,
    pub enabled: bool,
    pub max_length: Option<usize>,
    pub fg_color: Option<Color>,
    pub bg_color: Option<Color>,
    pub cursor: usize,
}

impl FieldState {
    /// An empty field, enabled and without focus.
    pub open spec fn empty(fg_color: Option<Color>, bg_color: Option<Color>) -> FieldState {
        FieldState {
            text: Seq::empty(),
            password: false,
            focus: false,
            submit: false,
            enabled: true,
            max_length: None,
            fg_color,
            bg_color,
            cursor: 0,
        }
    }

    /// Whether the field reacts to keys and shows its cursor.
    pub open spec fn active(self) -> bool {
        self.focus && self.enabled
    }

    /// Whether the text has reached the length that the field allows.
    pub open spec fn full(self) -> bool {
        self.max_length matches Some(max) && max <= self.text.len()
    }

    /// Whether the field can take the key: where the key edits the text,
    /// the place of the edit falls between two characters, and the cursor can
    /// still be counted on behind an inserted character.
    pub open spec fn accepts(self, event: KeyEvent) -> bool {
        self.active() ==> match event.code {
            KeyCode::Backspace => self.cursor > 0 ==> is_boundary(self.text, self.cursor - 1)
                && self.cursor - 1 < byte_len(self.text),
            KeyCode::Delete => self.cursor < byte_len(self.text) ==> is_boundary(
                self.text,
                self.cursor as int,
            ),
            KeyCode::Char(_) => !self.full() ==> is_boundary(self.text, self.cursor as int)
                && self.cursor < usize::MAX,
            _ => true,
        }
    }

    /// The field after the key. Without focus, or disabled, it ignores the
    /// key. The arrow keys move the cursor by one byte inside the text,
    /// backspace removes the character before the cursor, delete the one at
    /// the cursor, enter submits, and a character is inserted at the cursor
    /// unless the text is full.
    pub open spec fn after(self, event: KeyEvent) -> FieldState {
        if !self.active() {
            self
        } else {
            match event.code {
                KeyCode::Left => if self.cursor > 0 {
                    FieldState { cursor: (self.cursor - 1) as usize, ..self }
                } else {
                    self
                },
                KeyCode::Right => if self.cursor < byte_len(self.text) {
                    FieldState { cursor: (self.cursor + 1) as usize, ..self }
                } else {
                    self
                },
                KeyCode::Backspace => if self.cursor > 0 {
                    FieldState {
                        cursor: (self.cursor - 1) as usize,
                        text: self.text.remove(char_index(self.text, self.cursor - 1)),
                        ..self
                    }
                } else {
                    self
                },
                KeyCode::Delete => if self.cursor < byte_len(self.text) {
                    FieldState {
                        text: self.text.remove(char_index(self.text, self.cursor as int)),
                        ..self
                    }
                } else {
                    self
                },
                KeyCode::Enter => FieldState { submit: true, ..self },
                KeyCode::Char(c) => if self.full() {
                    self
                } else {
                    FieldState {
                        text: self.text.insert(char_index(self.text, self.cursor as int), c),
                        cursor: (self.cursor + 1) as usize,
                        ..self
                    }
                },
                _ => self,
            }
        }
    }

    /// The glyph that the field shows for the character with the given
    /// index.
    pub open spec fn shown(self, index: int) -> char {
        if self.password {
            '*'
        } else {
            self.text[index]
        }
    }

    /// The pixels of the text, all in the first row.
    pub open spec fn text_pixels(self) -> Seq<Pixel> {
        Seq::new(
            self.text.len(),
            |i: int|
                Pixel {
                    glyph: self.shown(i),
                    pos: ScreenPos { x: i as u16, y: 0 },
                    fg_color: self.fg_color,
                    bg_color: self.bg_color,
                },
        )
    }

    /// The pixel of the cursor: the character under it, or a space behind
    /// the text, in black on the field's foreground colour, or on white where
    /// the field has none.
    pub open spec fn cursor_pixel(self) -> Pixel {
        Pixel {
            glyph: if self.cursor < self.text.len() {
                self.shown(self.cursor as int)
            } else {
                ' '
            },
            pos: ScreenPos { x: self.cursor as u16, y: 0 },
            fg_color: Some(Color::Black),
            bg_color: Some(
                match self.fg_color {
                    Some(color) => color,
                    None => Color::White,
                },
            ),
        }
    }

    /// The pixels of the field: its text, and its cursor where it reacts to
    /// keys.
    pub open spec fn pixels(self) -> Seq<Pixel> {
        if self.active() {
            self.text_pixels().push(self.cursor_pixel())
        } else {
            self.text_pixels()
        }
    }
}

/// A field of ASCII text with its cursor inside the text can take every key,
/// and stays such a field when the key is no character or an ASCII character.
/// There a byte is a character: backspace removes the character with the
/// index before the cursor's, delete the one with the cursor's index, and a
/// character is inserted at the cursor's index.
pub proof fn lemma_ascii_field(state: FieldState, event: KeyEvent)
    requires
        is_ascii_chars(state.text),
        state.cursor <= state.text.len() < usize::MAX,
        event.code matches KeyCode::Char(c) ==> '\0' <= c <= '\u{7f}',
    ensures
        state.accepts(event),
        is_ascii_chars(state.after(event).text),
        state.after(event).cursor <= state.after(event).text.len(),
        state.active() && event.code == KeyCode::Backspace && state.cursor > 0 ==> state.after(
            event,
        ).text == state.text.remove(state.cursor - 1),
        state.active() && event.code == KeyCode::Delete && state.cursor < state.text.len()
            ==> state.after(event).text == state.text.remove(state.cursor as int),
        state.active() && !state.full() ==> (event.code matches KeyCode::Char(c) ==> state.after(
            event,
        ).text == state.text.insert(state.cursor as int, c) && state.after(event).cursor
            == state.cursor + 1),
{
    lemma_ascii_offsets(state.text, state.cursor as int);
    if state.cursor > 0 {
        lemma_ascii_offsets(state.text, state.cursor - 1);
    }
}

/// The cursor moves by one byte behind a character that was typed. It then
/// falls between two characters exactly if the character takes one byte: a
/// field takes no further character behind one that takes more.
pub proof fn lemma_cursor_after_typing(state: FieldState, event: KeyEvent)
    requires
        state.active(),
        !state.full(),
        event.code is Char,
        state.accepts(event),
    ensures
        is_boundary(state.after(event).text, state.after(event).cursor as int) <==> char_width(
            event.code->Char_0,
        ) == 1,
{
    let c = event.code->Char_0;
    let index = char_index(state.text, state.cursor as int);
    let text = state.after(event).text;
    let cursor = state.cursor + 1;
    lemma_char_width(c);
    lemma_byte_len_insert(state.text, index, c);
    assert(text.take(index) =~= state.text.take(index));
    if is_boundary(text, cursor) {
        let place = char_index(text, cursor);
        if place < index {
            lemma_offsets_increase(text, place, index);
        } else if place == index {
        } else if place > index + 1 {
            lemma_offsets_increase(text, index + 1, place);
        }
    }
    if char_width(c) == 1 {
        assert(starts_at(text, index + 1, cursor));
    }
}

/// A text input field.
pub struct TextField {
    pub text: String,
    pub password: bool,
    pub focus: bool,
    pub submit: bool,
    pub enabled: bool,
    pub max_length: Option<usize>,
    fg_color: Option<Color>,
    bg_color: Option<Color>,
    cursor: usize,
}

impl View for TextField {
    type V = FieldState;

    closed spec fn view(&self) -> FieldState {
        FieldState {
            text: self.text@,
            password: self.password,
            focus: self.focus,
            submit: self.submit,
            enabled: self.enabled,
            max_length: self.max_length,
            fg_color: self.fg_color,
            bg_color: self.bg_color,
            cursor: self.cursor,
        }
    }
}

impl TextField {
    /// Construct a new instance of an input.
    pub fn new(fg_color: Option<Color>, bg_color: Option<Color>) -> (field: Self)
        ensures
            field@ == FieldState::empty(fg_color, bg_color),
    {
        Self {
            text: String::new(),
            password: false,
            focus: false,
            submit: false,
            enabled: true,
            max_length: None,
            fg_color,
            bg_color,
            cursor: 0,
        }
    }

    /// Clear the input and place the cursor
    /// at the start.
    pub fn clear(&mut self)
        ensures
            final(self)@ == (FieldState { text: Seq::empty(), cursor: 0, ..old(self)@ }),
    {
        clear_text(&mut self.text);
        self.cursor = 0;
    }

    /// Remove focus from the input.
    /// This hides the cursor, and moves it behind the last character.
    pub fn unfocus(&mut self)
        ensures
            final(self)@ == (FieldState {
                focus: false,
                cursor: old(self)@.text.len() as usize,
                ..old(self)@
            }),
    {
        self.focus = false;
        self.cursor = self.text.as_str().unicode_len();
    }

    /// Whether the field can take the key. It can where it has no focus or
    /// is disabled, where the key edits nothing, and where the place of the
    /// edit falls between two characters of the text.
    pub fn accepts(&self, event: KeyEvent) -> (able: bool)
        ensures
            able == self@.accepts(event),
    {
        if !self.focus || !self.enabled {
            return true;
        }
        match event.code {
            KeyCode::Backspace => self.cursor == 0 || (at_boundary(&self.text, self.cursor - 1)
                && self.cursor - 1 < byte_count(&self.text)),
            KeyCode::Delete => self.cursor >= byte_count(&self.text) || at_boundary(
                &self.text,
                self.cursor,
            ),
            KeyCode::Char(_) => {
                let full = match self.max_length {
                    Some(max_len) => max_len <= self.text.as_str().unicode_len(),
                    None => false,
                };
                full || (at_boundary(&self.text, self.cursor) && self.cursor < usize::MAX)
            },
            _ => true,
        }
    }

    /// Pass a `KeyEvent` to the input to build
    /// up the text value.
    ///
    /// This can be accessed through the `text` field.
    pub fn event(&mut self, event: KeyEvent)
        requires
            old(self)@.accepts(event),
        ensures
            final(self)@ == old(self)@.after(event),
    {
        if !self.focus || !self.enabled {
            return ;
        }
        let KeyEvent { code, .. } = event;
        let ghost before = self.text@;

        match code {
            KeyCode::Left if self.cursor > 0 => {
                self.cursor -= 1;
            },
            KeyCode::Right if self.cursor < byte_count(&self.text) => {
                self.cursor += 1;
            },
            KeyCode::Backspace if self.cursor > 0 => {
                self.cursor -= 1;
                remove_char(&mut self.text, self.cursor);
            },
            KeyCode::Delete if byte_count(&self.text) > 0 => {
                if byte_count(&self.text) <= self.cursor {
                    return ;
                }
                remove_char(&mut self.text, self.cursor);
                proof {
                    let index = char_index(before, self.cursor as int);
                    lemma_char_index_unique(before, index, self.cursor as int);
                    lemma_byte_len_remove(before, index);
                    lemma_char_index_unique(self.text@, index, self.cursor as int);
                }
                if self.cursor > byte_count(&self.text) {
                    self.cursor = byte_count(&self.text);
                }
            },
            KeyCode::Enter => {
                self.submit = true;
            },
            KeyCode::Char(c) => {
                match self.max_length {
                    Some(max_len) if max_len <= self.text.as_str().unicode_len() => return ,
                    _ => {},
                }
                insert_char(&mut self.text, self.cursor, c);
                self.cursor += 1;
            },
            _ => {},
        }
    }
}

impl Widget for TextField {
    fn pixels(&self, _size: ScreenSize) -> (pixels: Vec<Pixel>)
        ensures
            pixels@ == self@.pixels(),
    {
        let count: usize = self.text.as_str().unicode_len();
        let mut pixels: Vec<Pixel> = Vec::with_capacity(count);
        let mut x: usize = 0;
        let ghost state = self@;
        for c in iter: self.text.as_str().chars()
            invariant
                iter.seq() == state.text,
                state == self@,
                state.text.len() == count,
                x == iter.index(),
                pixels@ == state.text_pixels().take(x as int),
        {
            let glyph = if self.password {
                '*'
            } else {
                c
            };
            pixels.push(
                Pixel::new(
                    glyph,
                    ScreenPos::new(
                        #[verifier::truncate]
                        (x as u16),
                        0,
                    ),
                    self.fg_color,
                    self.bg_color,
                ),
            );
            assert(state.text_pixels().take(x + 1) =~= state.text_pixels().take(x as int).push(
                state.text_pixels()[x as int],
            ));
            x += 1;
        }
        assert(state.text_pixels().take(x as int) =~= state.text_pixels());

        if !self.focus || !self.enabled {
            return pixels;
        }
        // Get char under cursor

        let c = if self.cursor < count {
            if self.password {
                '*'
            } else {
                self.text.as_str().get_char(self.cursor)
            }
        } else {
            ' '
        };

        // Draw cursor
        let bg = match self.fg_color {
            Some(color) => color,
            None => Color::White,
        };
        pixels.push(
            Pixel::new(
                c,
                ScreenPos::new(
                    #[verifier::truncate]
                    (self.cursor as u16),
                    0,
                ),
                Some(Color::Black),
                Some(bg),
            ),
        );
        pixels
    }
}

} // verus!
