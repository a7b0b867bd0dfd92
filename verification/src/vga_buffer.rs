//! Character-cell text renderer: a writer over the 25 x 80 screen of the
//! text buffer, modeled as owned memory.
//!
//! The hardware buffer is a fixed region of memory-mapped cells; here the
//! writer owns the cell array as plain data, and the host shell that talks
//! to the real device copies the cells through. Every cursor move, line
//! scroll and row clear is verified against a functional model of the
//! screen.

use vstd::prelude::*;

verus! {

/// Number of character rows on the screen.
pub const BUFFER_HEIGHT: usize = 25;

/// Number of character columns in one row.
pub const BUFFER_WIDTH: usize = 80;

/// The sixteen standard text-mode colors.
#[allow(dead_code)]
#[derive(Debug, Clone, Copy, PartialEq, Eq, Structural)]
pub enum Color {
    Black,
    Blue,
    Green,
    Cyan,
    Red,
    Magenta,
    Brown,
    LightGray,
    DarkGray,
    LightBlue,
    LightGreen,
    LightCyan,
    LightRed,
    Pink,
    Yellow,
    White,
}

impl Color {
    /// The four-bit hardware value of the color.
    pub open spec fn spec_value(self) -> u8 {
        match self {
            Color::Black => 0,
            Color::Blue => 1,
            Color::Green => 2,
            Color::Cyan => 3,
            Color::Red => 4,
            Color::Magenta => 5,
            Color::Brown => 6,
            Color::LightGray => 7,
            Color::DarkGray => 8,
            Color::LightBlue => 9,
            Color::LightGreen => 10,
            Color::LightCyan => 11,
            Color::LightRed => 12,
            Color::Pink => 13,
            Color::Yellow => 14,
            Color::White => 15,
        }
    }

    /// Returns the four-bit hardware value of the color.
    pub fn value(self) -> (r: u8)
        ensures
            r == self.spec_value(),
            r < 16,
    {
        match self {
            Color::Black => 0,
            Color::Blue => 1,
            Color::Green => 2,
            Color::Cyan => 3,
            Color::Red => 4,
            Color::Magenta => 5,
            Color::Brown => 6,
            Color::LightGray => 7,
            Color::DarkGray => 8,
            Color::LightBlue => 9,
            Color::LightGreen => 10,
            Color::LightCyan => 11,
            Color::LightRed => 12,
            Color::Pink => 13,
            Color::Yellow => 14,
            Color::White => 15,
        }
    }
}

/// A full color attribute byte: background color in the high four bits,
/// foreground color in the low four bits.
#[derive(Debug, Clone, Copy, PartialEq, Eq, Structural)]
pub struct ColorCode(pub u8);

impl ColorCode {
    /// Packs a foreground and a background color into one attribute byte.
    pub fn new(foreground: Color, background: Color) -> (r: ColorCode)
        ensures
            r.0 == background.spec_value() * 16 + foreground.spec_value(),
    {
        let fg: u8 = foreground.value();
        let bg: u8 = background.value();
        ColorCode(bg * 16 + fg)
    }
}

/// One screen cell: a byte of text and its color attribute.
#[derive(Debug, Clone, Copy, PartialEq, Eq, Structural)]
pub struct ScreenChar {
    pub ascii_character: u8,
    pub color_code: ColorCode,
}

/// A blank cell: a space in the given color.
pub open spec fn blank_cell(color: ColorCode) -> ScreenChar {
    ScreenChar { ascii_character: 32, color_code: color }
}

/// A fully blank screen in the given color.
pub open spec fn blank_screen(color: ColorCode) -> Seq<ScreenChar> {
    Seq::new((BUFFER_HEIGHT * BUFFER_WIDTH) as nat, |i: int| blank_cell(color))
}

/// The screen after scrolling one line up: every row but the last takes the
/// contents of the row below it, and the last row becomes blank.
pub open spec fn scrolled(s: Seq<ScreenChar>, color: ColorCode) -> Seq<ScreenChar> {
    Seq::new(
        s.len(),
        |i: int|
            if i < (BUFFER_HEIGHT - 1) * BUFFER_WIDTH {
                s[i + BUFFER_WIDTH]
            } else {
                blank_cell(color)
            },
    )
}

/// The screen and cursor column after one byte is written: a newline
/// scrolls and returns to column zero; any other byte first scrolls when
/// the row is full, then lands in the bottom row at the cursor column.
pub open spec fn after_byte(s: Seq<ScreenChar>, col: nat, color: ColorCode, byte: u8) -> (
    Seq<ScreenChar>,
    nat,
) {
    if byte == 10 {
        (scrolled(s, color), 0nat)
    } else {
        let start = if col >= BUFFER_WIDTH {
            (scrolled(s, color), 0nat)
        } else {
            (s, col)
        };
        (
            start.0.update(
                (BUFFER_HEIGHT - 1) * BUFFER_WIDTH + start.1,
                ScreenChar { ascii_character: byte, color_code: color },
            ),
            start.1 + 1,
        )
    }
}

/// The byte a character is rendered as: newline stays a line break,
/// printable ASCII stays itself, everything else becomes the block glyph.
pub open spec fn glyph(c: char) -> u8 {
    if c == '\n' {
        10
    } else if 0x20 <= c as u32 && c as u32 <= 0x7e {
        (c as u32) as u8
    } else {
        0xfe
    }
}

/// The screen and cursor column after a sequence of characters is written,
/// one glyph at a time.
pub open spec fn after_chars(s: Seq<ScreenChar>, col: nat, color: ColorCode, text: Seq<char>) -> (
    Seq<ScreenChar>,
    nat,
)
    decreases text.len(),
{
    if text.len() == 0 {
        (s, col)
    } else {
        let prefix = after_chars(s, col, color, text.drop_last());
        after_byte(prefix.0, prefix.1, color, glyph(text.last()))
    }
}

/// Writer over the character-cell screen. It owns the cell array as plain
/// data; the cursor walks the bottom row and full lines scroll upward.
pub struct Writer {
    column_position: usize,
    color_code: ColorCode,
    cells: Vec<ScreenChar>,
}

impl Writer {
    /// The cells of the screen, row-major: the cell of row `r` and column
    /// `c` stands at index `r * BUFFER_WIDTH + c`.
    pub closed spec fn screen(self) -> Seq<ScreenChar> {
        self.cells@
    }

    /// The cursor column in the bottom row.
    pub closed spec fn col(self) -> nat {
        self.column_position as nat
    }

    /// The color attribute every written cell receives.
    pub closed spec fn color(self) -> ColorCode {
        self.color_code
    }

    /// The writer holds one full screen of cells and the cursor never
    /// passes the row end.
    pub closed spec fn wf(self) -> bool {
        &&& self.cells@.len() == BUFFER_HEIGHT * BUFFER_WIDTH
        &&& self.column_position <= BUFFER_WIDTH
    }

    /// A fresh writer: blank screen, cursor at column zero.
    pub fn new(color_code: ColorCode) -> (r: Writer)
        ensures
            r.wf(),
            r.col() == 0,
            r.color() == color_code,
            r.screen() == blank_screen(color_code),
    {
        let mut cells: Vec<ScreenChar> = Vec::new();
        let blank = ScreenChar { ascii_character: 32u8, color_code };
        let mut i: usize = 0;
        while i < BUFFER_HEIGHT * BUFFER_WIDTH
            invariant
                i <= BUFFER_HEIGHT * BUFFER_WIDTH,
                cells@.len() == i,
                blank == blank_cell(color_code),
                forall|j: int| 0 <= j < i ==> cells@[j] == blank_cell(color_code),
            decreases BUFFER_HEIGHT * BUFFER_WIDTH - i,
        {
            cells.push(blank);
            i = i + 1;
        }
        proof {
            assert(cells@ =~= blank_screen(color_code));
        }
        Writer { column_position: 0, color_code, cells }
    }

    /// Reads the text byte of one cell.
    pub fn char_at(&self, row: usize, col: usize) -> (r: u8)
        requires
            self.wf(),
            row < BUFFER_HEIGHT,
            col < BUFFER_WIDTH,
        ensures
            r == self.screen()[row * BUFFER_WIDTH + col].ascii_character,
    {
        self.cells[row * BUFFER_WIDTH + col].ascii_character
    }

    /// The cursor column, as the tests read it.
    pub fn column(&self) -> (r: usize)
        ensures
            r == self.col(),
    {
        self.column_position
    }

    /// Writes one byte: a newline scrolls the screen; any other byte lands
    /// at the cursor in the bottom row, scrolling first when the row is
    /// full, and advances the cursor.
    pub fn write_byte(&mut self, byte: u8)
        requires
            old(self).wf(),
        ensures
            final(self).wf(),
            final(self).color() == old(self).color(),
            (final(self).screen(), final(self).col()) == after_byte(
                old(self).screen(),
                old(self).col(),
                old(self).color(),
                byte,
            ),
    {
        if byte == 10u8 {
            self.new_line();
        } else {
            if self.column_position >= BUFFER_WIDTH {
                self.new_line();
            }
            let row = BUFFER_HEIGHT - 1;
            let col = self.column_position;
            let color_code = self.color_code;
            self.cells.set(row * BUFFER_WIDTH + col, ScreenChar { ascii_character: byte, color_code });
            self.column_position = col + 1;
        }
    }

    /// Writes a string of characters, rendering each through `glyph`.
    pub fn write_string(&mut self, s: &str)
        requires
            old(self).wf(),
        ensures
            final(self).wf(),
            final(self).color() == old(self).color(),
            (final(self).screen(), final(self).col()) == after_chars(
                old(self).screen(),
                old(self).col(),
                old(self).color(),
                s@,
            ),
    {
        let n = s.unicode_len();
        let mut i: usize = 0;
        while i < n
            invariant
                self.wf(),
                i <= n,
                n == s@.len(),
                self.color() == old(self).color(),
                (self.screen(), self.col()) == after_chars(
                    old(self).screen(),
                    old(self).col(),
                    old(self).color(),
                    s@.take(i as int),
                ),
            decreases n - i,
        {
            let c = s.get_char(i);
            let u = c as u32;
            let byte: u8 = if c == '\n' {
                10u8
            } else if 0x20 <= u && u <= 0x7e {
                u as u8
            } else {
                0xfe
            };
            assert(byte == glyph(s@[i as int]));
            assert(s@.take(i + 1).drop_last() =~= s@.take(i as int));
            assert(s@.take(i + 1).last() == s@[i as int]);
            self.write_byte(byte);
            i = i + 1;
        }
        assert(s@.take(n as int) =~= s@);
    }

    /// Scrolls the screen one line up and returns the cursor to column
    /// zero.
    fn new_line(&mut self)
        requires
            old(self).wf(),
        ensures
            final(self).wf(),
            final(self).color() == old(self).color(),
            final(self).screen() == scrolled(old(self).screen(), old(self).color()),
            final(self).col() == 0,
    {
        let mut i: usize = 0;
        while i < (BUFFER_HEIGHT - 1) * BUFFER_WIDTH
            invariant
                old(self).wf(),
                i <= (BUFFER_HEIGHT - 1) * BUFFER_WIDTH,
                self.cells@.len() == BUFFER_HEIGHT * BUFFER_WIDTH,
                self.color_code == old(self).color_code,
                self.column_position == old(self).column_position,
                forall|j: int| 0 <= j < i ==> self.cells@[j] == old(self).cells@[j + BUFFER_WIDTH],
                forall|j: int|
                    i <= j < BUFFER_HEIGHT * BUFFER_WIDTH ==> self.cells@[j] == old(self).cells@[j],
            decreases (BUFFER_HEIGHT - 1) * BUFFER_WIDTH - i,
        {
            let moved = self.cells[i + BUFFER_WIDTH];
            self.cells.set(i, moved);
            i = i + 1;
        }
        self.clear_row(BUFFER_HEIGHT - 1);
        self.column_position = 0;
        assert(self.cells@ =~= scrolled(old(self).cells@, old(self).color_code));
    }

    /// Overwrites every cell of one row with a blank in the current color.
    fn clear_row(&mut self, row: usize)
        requires
            old(self).wf(),
            row < BUFFER_HEIGHT,
        ensures
            final(self).wf(),
            final(self).color() == old(self).color(),
            final(self).col() == old(self).col(),
            final(self).screen() =~= Seq::new(
                old(self).screen().len(),
                |i: int|
                    if row * BUFFER_WIDTH <= i < row * BUFFER_WIDTH + BUFFER_WIDTH {
                        blank_cell(old(self).color())
                    } else {
                        old(self).screen()[i]
                    },
            ),
    {
        let blank = ScreenChar { ascii_character: 32u8, color_code: self.color_code };
        let mut col: usize = 0;
        while col < BUFFER_WIDTH
            invariant
                old(self).wf(),
                row < BUFFER_HEIGHT,
                col <= BUFFER_WIDTH,
                self.cells@.len() == BUFFER_HEIGHT * BUFFER_WIDTH,
                self.color_code == old(self).color_code,
                self.column_position == old(self).column_position,
                blank == blank_cell(old(self).color()),
                forall|j: int|
                    row * BUFFER_WIDTH <= j < row * BUFFER_WIDTH + col ==> self.cells@[j] == blank_cell(
                        old(self).color(),
                    ),
                forall|j: int|
                    0 <= j < BUFFER_HEIGHT * BUFFER_WIDTH && !(row * BUFFER_WIDTH <= j < row
                        * BUFFER_WIDTH + col) ==> self.cells@[j] == old(self).cells@[j],
            decreases BUFFER_WIDTH - col,
        {
            assert(row * BUFFER_WIDTH + col < BUFFER_HEIGHT * BUFFER_WIDTH) by (nonlinear_arith)
                requires
                    row < BUFFER_HEIGHT,
                    col < BUFFER_WIDTH,
            ;
            self.cells.set(row * BUFFER_WIDTH + col, blank);
            col = col + 1;
        }
    }
}

} // verus!
