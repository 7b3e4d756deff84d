//! A text-mode console: a screen of 25 rows of 80 character cells, each a
//! 16-bit word holding a byte and its colours, and a cursor.
//!
//! The screen is kept in memory; copying it to the display's memory and
//! moving the hardware cursor to `cursor_index` is left to the caller.

use vstd::prelude::*;
use vstd::string::StringSliceAdditionalSpecFns;

verus! {

/// VGA display width in number of characters.
pub const COLUMNS: usize = 80;

/// VGA display height in number of characters.
pub const ROWS: usize = 25;

/// Number of cells on the screen.
pub const CELLS: usize = 2000;

/// Distance between tab stops.
pub const TAB_WIDTH: usize = 8;

/// Background and foreground colours of the display.
#[derive(Clone, Copy, Debug, PartialEq, Eq, Structural)]
pub enum Color {
    Black,
    Blue,
    Green,
    Cyan,
    Red,
    Purple,
    Brown,
    Grey,
    DarkGrey,
    LightBlue,
    LightGreen,
    LightCyan,
    LightRed,
    LightPurple,
    Yellow,
    White,
}

/// The 4-bit code of a colour.
pub open spec fn color_code(c: Color) -> u8 {
    match c {
        Color::Black => 0,
        Color::Blue => 1,
        Color::Green => 2,
        Color::Cyan => 3,
        Color::Red => 4,
        Color::Purple => 5,
        Color::Brown => 6,
        Color::Grey => 7,
        Color::DarkGrey => 8,
        Color::LightBlue => 9,
        Color::LightGreen => 10,
        Color::LightCyan => 11,
        Color::LightRed => 12,
        Color::LightPurple => 13,
        Color::Yellow => 14,
        Color::White => 15,
    }
}

impl Color {
    /// The 4-bit code of this colour.
    pub fn code(&self) -> (r: u8)
        ensures
            r == color_code(*self),
    {
        match self {
            Color::Black => 0,
            Color::Blue => 1,
            Color::Green => 2,
            Color::Cyan => 3,
            Color::Red => 4,
            Color::Purple => 5,
            Color::Brown => 6,
            Color::Grey => 7,
            Color::DarkGrey => 8,
            Color::LightBlue => 9,
            Color::LightGreen => 10,
            Color::LightCyan => 11,
            Color::LightRed => 12,
            Color::LightPurple => 13,
            Color::Yellow => 14,
            Color::White => 15,
        }
    }
}

/// The cell word for `byte`: the byte in bits 0 to 7, the foreground colour
/// in bits 8 to 11 and the background colour in bits 12 to 15.
pub open spec fn cell_of(byte: u8, background: Color, foreground: Color) -> u16 {
    (byte + 256 * (16 * color_code(background) + color_code(foreground))) as u16
}

/// Constructs the cell word for `byte` in the given colours.
pub fn vga_char(byte: u8, background_color: Color, foreground_color: Color) -> (r: u16)
    ensures
        r == cell_of(byte, background_color, foreground_color),
{
    let bg = background_color.code();
    let fg = foreground_color.code();
    let attribute_byte: u8 = (bg << 4) | (fg & 0x0f);
    let character: u16 = (byte as u16) | ((attribute_byte as u16) << 8);
    assert(character == (byte + 256 * (16 * bg + fg)) as u16) by (bit_vector)
        requires
            bg < 16,
            fg < 16,
            attribute_byte == (bg << 4) | (fg & 0x0f),
            character == (byte as u16) | ((attribute_byte as u16) << 8),
    ;
    character
}

/// Whether `byte` is a printable ASCII character.
pub fn is_printable(byte: u8) -> (r: bool)
    ensures
        r == (32 <= byte <= 126),
{
    32 <= byte && byte <= 126
}

/// The screen as the console model sees it: the cells in row-major order and
/// the cursor's column and row.
pub ghost struct Screen {
    pub cells: Seq<u16>,
    pub x: int,
    pub y: int,
}

/// The cells moved one row up, the first row lost and the last one blank.
pub open spec fn scrolled(cells: Seq<u16>, blank: u16) -> Seq<u16> {
    cells.subrange(COLUMNS as int, CELLS as int) + Seq::new(COLUMNS as nat, |i: int| blank)
}

/// Moves the cursor to the start of the next row, scrolling when it was on
/// the last one.
pub open spec fn new_line(s: Screen, blank: u16) -> Screen {
    if s.y + 1 < ROWS {
        Screen { x: 0, y: s.y + 1, ..s }
    } else {
        Screen { cells: scrolled(s.cells, blank), x: 0, y: ROWS - 1 }
    }
}

/// The screen after one byte is written in the given colours.
///
/// A line feed moves to the start of the next row, a carriage return to the
/// start of the row, a backspace one column left (not past the first), a
/// tab to `((x % 8) + 1) * 8`. Any other byte is stored at the cursor, a
/// byte that is not printable as `0xfe`, and the cursor advances, to the
/// next row after the last column. Leaving the last row scrolls the screen.
pub open spec fn after_byte(s: Screen, background: Color, foreground: Color, byte: u8) -> Screen {
    let blank = cell_of(32, background, foreground);
    if byte == 10 {
        new_line(s, blank)
    } else if byte == 13 {
        Screen { x: 0, ..s }
    } else if byte == 8 {
        Screen { x: if s.x > 0 { s.x - 1 } else { 0 }, ..s }
    } else if byte == 9 {
        Screen { x: ((s.x % TAB_WIDTH as int) + 1) * TAB_WIDTH as int, ..s }
    } else {
        let shown: u8 = if 32 <= byte <= 126 { byte } else { 0xfe };
        let stored = Screen {
            cells: s.cells.update(s.y * COLUMNS + s.x, cell_of(shown, background, foreground)),
            ..s
        };
        if s.x + 1 < COLUMNS {
            Screen { x: s.x + 1, ..stored }
        } else {
            new_line(stored, blank)
        }
    }
}

/// The screen after the bytes of `bytes` are written in order.
pub open spec fn after_bytes(s: Screen, background: Color, foreground: Color, bytes: Seq<u8>) -> Screen
    decreases bytes.len(),
{
    if bytes.len() == 0 {
        s
    } else {
        after_byte(
            after_bytes(s, background, foreground, bytes.drop_last()),
            background,
            foreground,
            bytes.last(),
        )
    }
}

/// Inner display cursor representation.
#[derive(Clone, Copy, Debug)]
pub struct Cursor {
    /// Current column.
    pub x: usize,
    /// Current row.
    pub y: usize,
}

impl Cursor {
    /// The cursor position as an offset into the row-major cells.
    pub fn to_array_index(&self) -> (r: usize)
        requires
            self.x < COLUMNS,
            self.y < ROWS,
        ensures
            r == self.y * COLUMNS + self.x,
    {
        self.y * COLUMNS + self.x
    }
}

/// A text console: the screen's cells, the cursor, and the colours in which
/// new characters are written.
pub struct Monitor {
    cursor: Cursor,
    buffer: Vec<u16>,
    background_color: Color,
    foreground_color: Color,
}

impl Monitor {
    /// The screen: cells and cursor.
    pub closed spec fn screen(&self) -> Screen {
        Screen { cells: self.buffer@, x: self.cursor.x as int, y: self.cursor.y as int }
    }

    /// The background colour of new characters.
    pub closed spec fn background(&self) -> Color {
        self.background_color
    }

    /// The foreground colour of new characters.
    pub closed spec fn foreground(&self) -> Color {
        self.foreground_color
    }

    /// A screen of `CELLS` cells with the cursor on it.
    pub closed spec fn wf(&self) -> bool {
        &&& self.buffer@.len() == CELLS
        &&& self.cursor.x < COLUMNS
        &&& self.cursor.y < ROWS
    }

    /// A console in the given colours, with a blank screen and the cursor at
    /// the top left corner.
    pub fn new(background_color: Color, foreground_color: Color) -> (r: Self)
        ensures
            r.wf(),
            r.background() == background_color,
            r.foreground() == foreground_color,
            r.screen() == (Screen {
                cells: Seq::new(CELLS as nat, |i: int| cell_of(32, background_color, foreground_color)),
                x: 0,
                y: 0,
            }),
    {
        let mut m = Monitor {
            cursor: Cursor { x: 0, y: 0 },
            buffer: vec![0u16; CELLS],
            background_color,
            foreground_color,
        };
        m.clear();
        m
    }

    /// Sets the background colour for characters written from now on.
    pub fn set_background_color(&mut self, color: &Color)
        ensures
            final(self).background() == *color,
            final(self).foreground() == old(self).foreground(),
            final(self).screen() == old(self).screen(),
            final(self).wf() == old(self).wf(),
    {
        self.background_color = *color;
    }

    /// Sets the foreground colour for characters written from now on.
    pub fn set_foreground_color(&mut self, color: &Color)
        ensures
            final(self).foreground() == *color,
            final(self).background() == old(self).background(),
            final(self).screen() == old(self).screen(),
            final(self).wf() == old(self).wf(),
    {
        self.foreground_color = *color;
    }

    /// Fills the whole screen with blanks in the current colours and puts the
    /// cursor at the top left corner.
    pub fn clear(&mut self)
        requires
            old(self).wf(),
        ensures
            final(self).wf(),
            final(self).background() == old(self).background(),
            final(self).foreground() == old(self).foreground(),
            final(self).screen() == (Screen {
                cells: Seq::new(
                    CELLS as nat,
                    |i: int| cell_of(32, old(self).background(), old(self).foreground()),
                ),
                x: 0,
                y: 0,
            }),
    {
        let blank = vga_char(32, self.background_color, self.foreground_color);
        let mut i: usize = 0;
        while i < CELLS
            invariant
                i <= CELLS,
                self.buffer@.len() == CELLS,
                self.background_color == old(self).background_color,
                self.foreground_color == old(self).foreground_color,
                blank == cell_of(32, self.background_color, self.foreground_color),
                forall|k: int| 0 <= k < i ==> self.buffer@[k] == blank,
            decreases CELLS - i,
        {
            self.buffer.set(i, blank);
            i = i + 1;
        }
        self.cursor.x = 0;
        self.cursor.y = 0;
        assert(self.buffer@ =~= Seq::new(CELLS as nat, |i: int| blank));
    }

    /// Moves every row one row up; the first row is lost and the last one is
    /// filled with blanks in the current colours. The cursor stays.
    fn scroll(&mut self)
        requires
            old(self).wf(),
        ensures
            final(self).wf(),
            final(self).background() == old(self).background(),
            final(self).foreground() == old(self).foreground(),
            final(self).screen() == (Screen {
                cells: scrolled(
                    old(self).screen().cells,
                    cell_of(32, old(self).background(), old(self).foreground()),
                ),
                ..old(self).screen()
            }),
    {
        let mut i: usize = 0;
        while i < CELLS - COLUMNS
            invariant
                i <= CELLS - COLUMNS,
                self.wf(),
                self.cursor == old(self).cursor,
                self.background_color == old(self).background_color,
                self.foreground_color == old(self).foreground_color,
                forall|k: int| 0 <= k < i ==> self.buffer@[k] == old(self).buffer@[k + COLUMNS],
                forall|k: int| i <= k < CELLS ==> self.buffer@[k] == old(self).buffer@[k],
            decreases CELLS - COLUMNS - i,
        {
            let v = self.buffer[i + COLUMNS];
            self.buffer.set(i, v);
            i = i + 1;
        }
        let blank = vga_char(32, self.background_color, self.foreground_color);
        while i < CELLS
            invariant
                CELLS - COLUMNS <= i <= CELLS,
                self.wf(),
                self.cursor == old(self).cursor,
                self.background_color == old(self).background_color,
                self.foreground_color == old(self).foreground_color,
                blank == cell_of(32, self.background_color, self.foreground_color),
                forall|k: int|
                    0 <= k < CELLS - COLUMNS ==> self.buffer@[k] == old(self).buffer@[k + COLUMNS],
                forall|k: int| CELLS - COLUMNS <= k < i ==> self.buffer@[k] == blank,
            decreases CELLS - i,
        {
            self.buffer.set(i, blank);
            i = i + 1;
        }
        assert(self.buffer@ =~= scrolled(old(self).buffer@, blank));
    }

    /// Moves the cursor to the start of the next row, scrolling when it was
    /// on the last one.
    fn new_line(&mut self)
        requires
            old(self).wf(),
        ensures
            final(self).wf(),
            final(self).background() == old(self).background(),
            final(self).foreground() == old(self).foreground(),
            final(self).screen() == new_line(
                old(self).screen(),
                cell_of(32, old(self).background(), old(self).foreground()),
            ),
    {
        self.cursor.x = 0;
        if self.cursor.y + 1 < ROWS {
            self.cursor.y = self.cursor.y + 1;
        } else {
            self.scroll();
            self.cursor.y = ROWS - 1;
        }
    }

    /// Writes `byte` at the cursor, or obeys it for the control bytes line
    /// feed, carriage return, backspace and tab.
    pub fn write_byte(&mut self, byte: u8)
        requires
            old(self).wf(),
        ensures
            final(self).wf(),
            final(self).background() == old(self).background(),
            final(self).foreground() == old(self).foreground(),
            final(self).screen() == after_byte(
                old(self).screen(),
                old(self).background(),
                old(self).foreground(),
                byte,
            ),
    {
        match byte {
            0x0a => {
                self.new_line();
                return;
            },
            0x0d => {
                self.cursor.x = 0;
                return;
            },
            0x08 => {
                if self.cursor.x > 0 {
                    self.cursor.x = self.cursor.x - 1;
                }
                return;
            },
            0x09 => {
                self.cursor.x = ((self.cursor.x % TAB_WIDTH) + 1) * TAB_WIDTH;
                return;
            },
            _ => {},
        }
        let shown = if is_printable(byte) {
            byte
        } else {
            0xfe
        };
        let character = vga_char(shown, self.background_color, self.foreground_color);
        let index = self.cursor.to_array_index();
        self.buffer.set(index, character);
        if self.cursor.x + 1 < COLUMNS {
            self.cursor.x = self.cursor.x + 1;
        } else {
            self.new_line();
        }
    }

    /// Writes the bytes of `string` in order.
    pub fn write_str(&mut self, string: &str)
        requires
            old(self).wf(),
        ensures
            final(self).wf(),
            final(self).background() == old(self).background(),
            final(self).foreground() == old(self).foreground(),
            final(self).screen() == after_bytes(
                old(self).screen(),
                old(self).background(),
                old(self).foreground(),
                string.spec_bytes(),
            ),
    {
        let bytes = string.as_bytes();
        let mut i: usize = 0;
        while i < bytes.len()
            invariant
                i <= bytes@.len(),
                bytes@ == string.spec_bytes(),
                self.wf(),
                self.background() == old(self).background(),
                self.foreground() == old(self).foreground(),
                self.screen() == after_bytes(
                    old(self).screen(),
                    old(self).background(),
                    old(self).foreground(),
                    bytes@.take(i as int),
                ),
            decreases bytes@.len() - i,
        {
            self.write_byte(bytes[i]);
            assert(bytes@.take(i as int + 1).drop_last() =~= bytes@.take(i as int));
            i = i + 1;
        }
        assert(bytes@.take(bytes@.len() as int) =~= bytes@);
    }

    /// The cursor's offset into the row-major cells, where the hardware
    /// cursor belongs.
    pub fn cursor_index(&self) -> (r: usize)
        requires
            self.wf(),
        ensures
            r == self.screen().y * COLUMNS + self.screen().x,
    {
        self.cursor.to_array_index()
    }

    /// The cell at `row` and `column`.
    pub fn cell(&self, row: usize, column: usize) -> (r: u16)
        requires
            self.wf(),
            row < ROWS,
            column < COLUMNS,
        ensures
            r == self.screen().cells[row * COLUMNS + column],
    {
        self.buffer[row * COLUMNS + column]
    }
}

} // verus!
