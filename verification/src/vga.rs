//! Text-mode console driver: a cursor-tracking writer over a fixed 25x80 grid
//! of 16-bit cells, each packing a character code with a foreground and a
//! background color index.

use vstd::prelude::*;

verus! {

/// A color index of the text-mode palette. Only the two indices the driver
/// actually uses are represented.
#[derive(Copy, Clone, PartialEq, Eq, Structural, Debug)]
pub enum VgaColor {
    Black,
    White,
}

/// The 4-bit palette index a color stands for.
pub open spec fn color_code(c: VgaColor) -> u16 {
    match c {
        VgaColor::Black => 0,
        VgaColor::White => 15,
    }
}

/// Packs a character code and two color indices into one 16-bit cell:
/// bits 0-7 the character, bits 8-11 the foreground, bits 12-15 the
/// background.
pub open spec fn cell_value(c: u8, background: VgaColor, foreground: VgaColor) -> u16 {
    (color_code(background) << 12) | (color_code(foreground) << 8) | (c as u16)
}

/// The character code stored in bits 0-7 of a cell.
pub open spec fn cell_char(x: u16) -> u8 {
    (x & 0xff) as u8
}

/// The foreground color index stored in bits 8-11 of a cell.
pub open spec fn cell_fg(x: u16) -> u16 {
    (x >> 8) & 0xf
}

/// The background color index stored in bits 12-15 of a cell.
pub open spec fn cell_bg(x: u16) -> u16 {
    (x >> 12) & 0xf
}

/// One 16-bit cell of the hardware text grid.
#[derive(Copy, Clone, PartialEq, Eq, Structural, Debug)]
pub struct VgaChar(pub u16);

impl VgaChar {
    /// Encodes a character with a background and a foreground color.
    pub fn new(c: u8, background: VgaColor, foreground: VgaColor) -> (r: Self)
        ensures
            r.0 == cell_value(c, background, foreground),
    {
        let bg: u16 = (background.code() as u16) << 12;
        let fg: u16 = (foreground.code() as u16) << 8;
        let c: u16 = c as u16;
        VgaChar(bg | fg | c)
    }

    /// The character code this cell displays.
    pub fn character(self) -> (r: u8)
        ensures
            r == cell_char(self.0),
    {
        (self.0 & 0xff) as u8
    }

    /// The 4-bit foreground color index of this cell.
    pub fn foreground_code(self) -> (r: u8)
        ensures
            r as u16 == cell_fg(self.0),
    {
        proof {
            let x = self.0;
            assert(((x >> 8) & 0xf) < 256) by (bit_vector);
        }
        ((self.0 >> 8) & 0xf) as u8
    }

    /// The 4-bit background color index of this cell.
    pub fn background_code(self) -> (r: u8)
        ensures
            r as u16 == cell_bg(self.0),
    {
        proof {
            let x = self.0;
            assert(((x >> 12) & 0xf) < 256) by (bit_vector);
        }
        ((self.0 >> 12) & 0xf) as u8
    }
}

impl VgaColor {
    /// The palette index of this color, as an 8-bit value.
    pub fn code(self) -> (r: u8)
        ensures
            r as u16 == color_code(self),
    {
        match self {
            VgaColor::Black => 0,
            VgaColor::White => 15,
        }
    }
}

/// Decoding a packed cell recovers the character and both color indices that
/// went in: the three fields never disturb one another.
pub proof fn lemma_cell_round_trip(c: u8, background: VgaColor, foreground: VgaColor)
    ensures
        cell_char(cell_value(c, background, foreground)) == c,
        cell_fg(cell_value(c, background, foreground)) == color_code(foreground),
        cell_bg(cell_value(c, background, foreground)) == color_code(background),
{
    let b = color_code(background);
    let f = color_code(foreground);
    assert(b < 16 && f < 16);
    assert((((b << 12) | (f << 8) | (c as u16)) & 0xff) as u8 == c) by (bit_vector)
        requires
            b < 16,
            f < 16,
    ;
    assert((((b << 12) | (f << 8) | (c as u16)) >> 8) & 0xf == f) by (bit_vector)
        requires
            b < 16,
            f < 16,
    ;
    assert((((b << 12) | (f << 8) | (c as u16)) >> 12) & 0xf == b) by (bit_vector)
        requires
            b < 16,
            f < 16,
    ;
}

/// The palette index determines the color: no two colors share a code.
pub proof fn lemma_color_code_injective(a: VgaColor, b: VgaColor)
    requires
        color_code(a) == color_code(b),
    ensures
        a == b,
{
}

/// Rows of the text grid.
pub const VGA_ROWS: usize = 25;

/// Columns of the text grid.
pub const VGA_COLS: usize = 80;

/// Cells of the whole text grid.
pub const VGA_CELLS: usize = 2000;

/// The abstract state of the console: cursor position, the grid contents in
/// row-major order, and the colors new characters are drawn with.
pub ghost struct ConsoleView {
    pub row: int,
    pub col: int,
    pub cells: Seq<VgaChar>,
    pub background: VgaColor,
    pub foreground: VgaColor,
}

impl ConsoleView {
    /// The cursor column always stays on the grid; the row may rest one past
    /// the last line, but only until the next scroll check resolves it.
    pub open spec fn wf(self) -> bool {
        &&& 0 <= self.row <= 25
        &&& 0 <= self.col < 80
        &&& self.cells.len() == 2000
    }

    /// The cell shown at a row and column of the grid.
    pub open spec fn cell_at(self, row: int, col: int) -> VgaChar {
        self.cells[row * 80 + col]
    }
}

/// The cell the driver clears the screen with: a null character on a white
/// background.
pub open spec fn blank_cell() -> VgaChar {
    VgaChar(cell_value(0, VgaColor::White, VgaColor::White))
}

/// The console state right after construction: cursor at the origin, every
/// cell blank, black text on a white background.
pub open spec fn initial_console() -> ConsoleView {
    ConsoleView {
        row: 0,
        col: 0,
        cells: Seq::new(2000, |i: int| blank_cell()),
        background: VgaColor::White,
        foreground: VgaColor::Black,
    }
}

/// If the cursor has run past the last row, every row moves up by one and the
/// cursor comes back onto the grid; the bottom row keeps its old contents,
/// about to be overwritten.
pub open spec fn scroll_step(v: ConsoleView) -> ConsoleView {
    if v.row == 25 {
        ConsoleView {
            row: 24,
            cells: Seq::new(2000, |i: int| if i < 1920 { v.cells[i + 80] } else { v.cells[i] }),
            ..v
        }
    } else {
        v
    }
}

/// Scrolling moves every row up by one: afterwards each row but the last
/// shows what the row beneath it showed, and the cursor is back on the grid.
pub proof fn lemma_scroll_shifts_rows(v: ConsoleView, r: int, c: int)
    requires
        v.wf(),
        v.row == 25,
        0 <= r < 24,
        0 <= c < 80,
    ensures
        scroll_step(v).cell_at(r, c) == v.cell_at(r + 1, c),
        scroll_step(v).row == 24,
{
    assert(r * 80 + c < 1920);
    assert((r + 1) * 80 + c == r * 80 + c + 80);
}

/// A newline moves the cursor to the start of the next row.
pub open spec fn newline_step(v: ConsoleView) -> ConsoleView {
    ConsoleView { row: v.row + 1, col: 0, ..v }
}

/// The cursor moves one cell right, wrapping to the start of the next row at
/// the grid's edge.
pub open spec fn advance_step(v: ConsoleView) -> ConsoleView {
    if v.col + 1 == 80 {
        ConsoleView { row: v.row + 1, col: 0, ..v }
    } else {
        ConsoleView { col: v.col + 1, ..v }
    }
}

/// A printable byte lands at the cursor, encoded with the current colors, and
/// the cursor advances.
pub open spec fn put_step(v: ConsoleView, c: u8) -> ConsoleView {
    advance_step(
        ConsoleView {
            cells: v.cells.update(v.row * 80 + v.col, VgaChar(cell_value(c, v.background, v.foreground))),
            ..v
        },
    )
}

/// One byte of output: the scroll check runs first, so a write never happens
/// with the cursor off the grid; then a newline moves the cursor and any other
/// byte is printed.
pub open spec fn write_byte(v: ConsoleView, c: u8) -> ConsoleView {
    let s = scroll_step(v);
    if c == 10 {
        newline_step(s)
    } else {
        put_step(s, c)
    }
}

/// A whole write: the bytes take effect one after the other, in order.
pub open spec fn write_bytes(v: ConsoleView, s: Seq<u8>) -> ConsoleView
    decreases s.len(),
{
    if s.len() == 0 {
        v
    } else {
        write_bytes(write_byte(v, s[0]), s.drop_first())
    }
}

/// Appending one byte to a write is the same as writing it afterwards.
pub proof fn lemma_write_bytes_push(v: ConsoleView, s: Seq<u8>, c: u8)
    ensures
        write_bytes(v, s.push(c)) == write_byte(write_bytes(v, s), c),
    decreases s.len(),
{
    if s.len() == 0 {
        assert(s.push(c).drop_first() =~= Seq::<u8>::empty());
        assert(write_bytes(v, s.push(c)) == write_byte(v, c));
    } else {
        assert(s.push(c).drop_first() =~= s.drop_first().push(c));
        lemma_write_bytes_push(write_byte(v, s[0]), s.drop_first(), c);
    }
}

/// The stateful console writer: a cursor, the drawing colors, and the grid of
/// cells it renders into.
pub struct VgaWriter {
    row: usize,
    col: usize,
    buffer: Vec<VgaChar>,
    background: VgaColor,
    foreground: VgaColor,
}

impl View for VgaWriter {
    type V = ConsoleView;

    closed spec fn view(&self) -> ConsoleView {
        ConsoleView {
            row: self.row as int,
            col: self.col as int,
            cells: self.buffer@,
            background: self.background,
            foreground: self.foreground,
        }
    }
}

impl VgaWriter {
    /// The writer's cursor and grid are in bounds.
    pub open spec fn wf(&self) -> bool {
        self@.wf()
    }

    /// A fresh console: the grid bound in, the cursor at the origin, and every
    /// cell cleared with the background color.
    pub fn new() -> (w: VgaWriter)
        ensures
            w.wf(),
            w@ == initial_console(),
    {
        let mut buffer: Vec<VgaChar> = Vec::new();
        let mut i: usize = 0;
        while i < VGA_CELLS
            invariant
                i <= 2000,
                buffer@.len() == i,
            decreases 2000 - i,
        {
            buffer.push(VgaChar(0));
            i += 1;
        }
        let mut writer = VgaWriter {
            row: 0,
            col: 0,
            buffer,
            foreground: VgaColor::Black,
            background: VgaColor::White,
        };
        writer.clean();
        proof {
            assert(writer@.cells =~= initial_console().cells);
            assert(writer@ == initial_console());
        }
        writer
    }

    /// Renders a sequence of bytes: each byte in turn passes the scroll check,
    /// then either starts a new line or is printed at the cursor.
    pub fn write(&mut self, text: &[u8])
        requires
            old(self).wf(),
        ensures
            final(self).wf(),
            final(self)@ == write_bytes(old(self)@, text@),
    {
        let mut i: usize = 0;
        while i < text.len()
            invariant
                self.wf(),
                i <= text@.len(),
                self@ == write_bytes(old(self)@, text@.take(i as int)),
            decreases text@.len() - i,
        {
            proof {
                assert(text@.take(i + 1) =~= text@.take(i as int).push(text@[i as int]));
                lemma_write_bytes_push(old(self)@, text@.take(i as int), text@[i as int]);
            }
            self.scroll_if_needed();
            let c = text[i];
            if c == 10 {
                self.write_new_line();
            } else {
                self.write_char(c);
            }
            i += 1;
        }
        proof {
            assert(text@.take(text@.len() as int) =~= text@);
        }
    }

    /// The scroll check: once the cursor leaves the bottom of the grid, every
    /// row shifts up by one and the cursor returns to the last row.
    fn scroll_if_needed(&mut self)
        requires
            old(self).wf(),
        ensures
            final(self).wf(),
            final(self)@.row < 25,
            final(self)@ == scroll_step(old(self)@),
    {
        if self.row == VGA_ROWS {
            let mut idx: usize = 0;
            while idx < 1920
                invariant
                    idx <= 1920,
                    self.row == old(self).row,
                    self.col == old(self).col,
                    self.background == old(self).background,
                    self.foreground == old(self).foreground,
                    self.buffer@.len() == 2000,
                    forall|j: int| 0 <= j < idx ==> self.buffer@[j] == old(self).buffer@[j + 80],
                    forall|j: int| idx <= j < 2000 ==> self.buffer@[j] == old(self).buffer@[j],
                decreases 1920 - idx,
            {
                let moved = self.buffer[idx + 80];
                self.buffer[idx] = moved;
                idx += 1;
            }
            self.row = self.row - 1;
            proof {
                assert(self@.cells =~= scroll_step(old(self)@).cells);
                assert(self@ == scroll_step(old(self)@));
            }
        }
    }

    /// A newline: back to the first column, down one row.
    fn write_new_line(&mut self)
        requires
            old(self).wf(),
            old(self)@.row < 25,
        ensures
            final(self).wf(),
            final(self)@ == newline_step(old(self)@),
    {
        self.col = 0;
        self.row = self.row + 1;
    }

    /// Prints one byte at the cursor with the current colors and advances.
    fn write_char(&mut self, c: u8)
        requires
            old(self).wf(),
            old(self)@.row < 25,
        ensures
            final(self).wf(),
            final(self)@ == put_step(old(self)@, c),
    {
        let idx: usize = self.row * 80 + self.col;
        let cell = VgaChar::new(c, self.background, self.foreground);
        self.buffer[idx] = cell;
        self.next_position();
    }

    /// Advances the cursor one cell, wrapping at the end of a row.
    fn next_position(&mut self)
        requires
            old(self).wf(),
            old(self)@.row < 25,
        ensures
            final(self).wf(),
            final(self)@ == advance_step(old(self)@),
    {
        self.col = self.col + 1;
        if self.col == VGA_COLS {
            self.col = 0;
            self.row = self.row + 1;
        }
    }

    /// Clears the whole grid to blank cells; the cursor and colors stay.
    fn clean(&mut self)
        requires
            old(self)@.cells.len() == 2000,
        ensures
            final(self)@ == (ConsoleView {
                cells: Seq::new(2000, |i: int| blank_cell()),
                ..old(self)@
            }),
    {
        let mut idx: usize = 0;
        while idx < VGA_CELLS
            invariant
                idx <= 2000,
                self.row == old(self).row,
                self.col == old(self).col,
                self.background == old(self).background,
                self.foreground == old(self).foreground,
                self.buffer@.len() == 2000,
                forall|j: int| 0 <= j < idx ==> self.buffer@[j] == blank_cell(),
                forall|j: int| idx <= j < 2000 ==> self.buffer@[j] == old(self).buffer@[j],
            decreases 2000 - idx,
        {
            let blank = VgaChar::new(0, VgaColor::White, VgaColor::White);
            self.buffer[idx] = blank;
            idx += 1;
        }
        proof {
            assert(self@.cells =~= Seq::new(2000, |i: int| blank_cell()));
            assert(self@ == (ConsoleView {
                cells: Seq::new(2000, |i: int| blank_cell()),
                ..old(self)@
            }));
        }
    }

    /// The cell currently shown at a row and column.
    pub fn cell_at(&self, row: usize, col: usize) -> (r: VgaChar)
        requires
            self.wf(),
            row < 25,
            col < 80,
        ensures
            r == self@.cell_at(row as int, col as int),
    {
        self.buffer[row * 80 + col]
    }

    /// The row the cursor stands on.
    pub fn cursor_row(&self) -> (r: usize)
        ensures
            r as int == self@.row,
    {
        self.row
    }

    /// The column the cursor stands on.
    pub fn cursor_col(&self) -> (r: usize)
        ensures
            r as int == self@.col,
    {
        self.col
    }
}

} // verus!
