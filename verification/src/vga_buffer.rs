//! Double-buffered text renderer for an 80x25 character device.
//!
//! All drawing lands in a shadow grid held in ordinary memory; [`Writer::flush`]
//! is the only operation that stores to the device itself.

use vstd::prelude::*;
use vstd::string::StringSliceAdditionalSpecFns;
use volatile::Volatile;

verus! {

/// Rows of the character device.
pub const BUFFER_HEIGHT: usize = 25;

/// Columns of the character device.
pub const BUFFER_WIDTH: usize = 80;

/// Rows that [`Writer::move_to`] adds to the row it is given. The layout keeps
/// the top of the screen for the playfield, so text positions count from below
/// it. A different layout changes this constant and nothing else.
pub const ROW_OFFSET: usize = 2;

/// Glyph that fills a cleared cell.
pub const BLANK_GLYPH: u8 = 0x20;

/// Glyph that stands in for every byte the device cannot display.
pub const FALLBACK_GLYPH: u8 = 0xfe;

/// Line feed: scrolls instead of occupying a cell.
pub const NEWLINE: u8 = 0x0a;

/// The sixteen colours of the text-mode palette, in palette order.
#[derive(Debug, Clone, Copy, PartialEq, Eq, Structural)]
pub enum Color {
    Black,
    Blue,
    Green,
    Cyan,
    Red,
    Magenta,
    Brown,
    LightGray,
    DarkGray,
    LightBlue,
    LightGreen,
    LightCyan,
    LightRed,
    Pink,
    Yellow,
    White,
}

impl Color {
    /// Position of the colour in the palette, 0 to 15.
    pub open spec fn palette_index(self) -> u8 {
        match self {
            Color::Black => 0,
            Color::Blue => 1,
            Color::Green => 2,
            Color::Cyan => 3,
            Color::Red => 4,
            Color::Magenta => 5,
            Color::Brown => 6,
            Color::LightGray => 7,
            Color::DarkGray => 8,
            Color::LightBlue => 9,
            Color::LightGreen => 10,
            Color::LightCyan => 11,
            Color::LightRed => 12,
            Color::Pink => 13,
            Color::Yellow => 14,
            Color::White => 15,
        }
    }

    /// The colour's palette index as the device encodes it.
    pub fn index(self) -> (n: u8)
        ensures
            n == self.palette_index(),
            n < 16,
    {
        match self {
            Color::Black => 0,
            Color::Blue => 1,
            Color::Green => 2,
            Color::Cyan => 3,
            Color::Red => 4,
            Color::Magenta => 5,
            Color::Brown => 6,
            Color::LightGray => 7,
            Color::DarkGray => 8,
            Color::LightBlue => 9,
            Color::LightGreen => 10,
            Color::LightCyan => 11,
            Color::LightRed => 12,
            Color::Pink => 13,
            Color::Yellow => 14,
            Color::White => 15,
        }
    }
}

/// Attribute byte of a cell: sixteen times the background's palette index plus
/// the foreground's, which puts the background in the high four bits and the
/// foreground in the low four.
pub open spec fn attribute_byte(foreground: Color, background: Color) -> u8 {
    (background.palette_index() * 16 + foreground.palette_index()) as u8
}

/// Display attribute of a cell.
#[derive(Debug, Clone, Copy, PartialEq, Eq, Structural)]
pub struct ColorCode(pub u8);

impl ColorCode {
    /// Packs a foreground and a background colour into one attribute.
    pub fn new(foreground: Color, background: Color) -> (code: ColorCode)
        ensures
            code.0 == attribute_byte(foreground, background),
    {
        let fg: u8 = foreground.index();
        let bg: u8 = background.index();
        assert((bg << 4) | fg == bg * 16 + fg) by (bit_vector)
            requires
                fg < 16,
                bg < 16,
        ;
        ColorCode((bg << 4) | fg)
    }
}

/// An attribute byte is the background shifted left by four bits, or-ed with
/// the foreground, and its two halves are the colours it was made from:
/// nothing of the foreground leaks into the background or back.
pub proof fn lemma_attribute_packing(foreground: Color, background: Color)
    ensures
        attribute_byte(foreground, background) == (background.palette_index() << 4)
            | foreground.palette_index(),
        attribute_byte(foreground, background) & 0x0f == foreground.palette_index(),
        attribute_byte(foreground, background) >> 4 == background.palette_index(),
{
    let fg: u8 = foreground.palette_index();
    let bg: u8 = background.palette_index();
    let packed: u8 = (bg * 16 + fg) as u8;
    assert(packed == (bg << 4) | fg && packed & 0x0f == fg && packed >> 4 == bg) by (bit_vector)
        requires
            fg < 16,
            bg < 16,
            packed == bg * 16 + fg,
    ;
}

/// One cell of the grid: a glyph and the attribute it is shown with.
#[derive(Debug, Clone, Copy, PartialEq, Eq, Structural)]
pub struct ScreenChar {
    pub ascii_character: u8,
    pub color_code: ColorCode,
}

/// A cleared cell in the given attribute.
pub open spec fn blank_cell(color: ColorCode) -> ScreenChar {
    ScreenChar { ascii_character: BLANK_GLYPH, color_code: color }
}

/// A row of cleared cells.
pub open spec fn blank_row(color: ColorCode) -> Seq<ScreenChar> {
    Seq::new(BUFFER_WIDTH as nat, |c: int| blank_cell(color))
}

/// Whether a grid has the device's shape.
pub open spec fn grid_shaped(grid: Seq<Seq<ScreenChar>>) -> bool {
    &&& grid.len() == BUFFER_HEIGHT
    &&& forall|r: int| 0 <= r < BUFFER_HEIGHT ==> (#[trigger] grid[r]).len() == BUFFER_WIDTH
}

/// Whether the device can show a byte as it is: printable ASCII, the solid
/// block and the light shade used for drawing boxes, and the line feed.
pub open spec fn is_displayable(byte: u8) -> bool {
    (0x20 <= byte && byte <= 0x7e) || byte == NEWLINE || byte == 0xdb || byte == 0xb0
}

/// Whether a sequence of bytes holds nothing but line feeds, which scroll and
/// store no glyph.
pub open spec fn only_newlines(bytes: Seq<u8>) -> bool {
    forall|i: int| 0 <= i < bytes.len() ==> bytes[i] == NEWLINE
}

/// The byte the renderer writes for an input byte.
pub open spec fn sanitized(byte: u8) -> u8 {
    if is_displayable(byte) {
        byte
    } else {
        FALLBACK_GLYPH
    }
}

/// Replaces a byte the device cannot display with the fallback glyph.
pub fn sanitize(byte: u8) -> (out: u8)
    ensures
        out == sanitized(byte),
        out == byte || out == FALLBACK_GLYPH,
        out == byte <==> is_displayable(byte) || byte == FALLBACK_GLYPH,
{
    if (0x20 <= byte && byte <= 0x7e) || byte == NEWLINE {
        byte
    } else if byte == 0xdb || byte == 0xb0 {
        byte
    } else {
        FALLBACK_GLYPH
    }
}

/// What a [`Writer`] is, as plain mathematical values.
pub struct WriterView {
    /// Column of the cursor; `BUFFER_WIDTH` after a write into the last column.
    pub column: nat,
    /// Row of the cursor.
    pub row: nat,
    /// Attribute given to the cells written next.
    pub color: ColorCode,
    /// The shadow grid, row by row.
    pub shadow: Seq<Seq<ScreenChar>>,
    /// What the device shows, row by row.
    pub device: Seq<Seq<ScreenChar>>,
}

impl WriterView {
    /// Both grids have the device's shape.
    pub open spec fn wf(self) -> bool {
        grid_shaped(self.shadow) && grid_shaped(self.device)
    }

    /// The cursor stands on a row of the grid, so a glyph can be written.
    pub open spec fn cursor_on_grid(self) -> bool {
        self.row < BUFFER_HEIGHT
    }

    /// The given row cleared in the current attribute.
    pub open spec fn clear_row(self, row: int) -> WriterView {
        WriterView { shadow: self.shadow.update(row, blank_row(self.color)), ..self }
    }

    /// Every row moved up by one, the last row cleared, the cursor back at
    /// column 0 of the row it was on.
    pub open spec fn new_line(self) -> WriterView {
        WriterView {
            column: 0,
            shadow: Seq::new(
                BUFFER_HEIGHT as nat,
                |r: int|
                    if r + 1 < BUFFER_HEIGHT {
                        self.shadow[r + 1]
                    } else {
                        blank_row(self.color)
                    },
            ),
            ..self
        }
    }

    /// The glyph stored at the cursor, which then moves one column on.
    pub open spec fn put(self, glyph: u8) -> WriterView {
        WriterView {
            column: self.column + 1,
            shadow: self.shadow.update(
                self.row as int,
                self.shadow[self.row as int].update(
                    self.column as int,
                    ScreenChar { ascii_character: glyph, color_code: self.color },
                ),
            ),
            ..self
        }
    }

    /// One byte appended at the cursor: a line feed scrolls; any other byte is
    /// stored as it is, after a scroll if the line is full.
    pub open spec fn write_byte(self, byte: u8) -> WriterView {
        if byte == NEWLINE {
            self.new_line()
        } else if self.column >= BUFFER_WIDTH {
            self.new_line().put(byte)
        } else {
            self.put(byte)
        }
    }

    /// The bytes appended in order, each one sanitized first.
    pub open spec fn write_bytes(self, bytes: Seq<u8>) -> WriterView
        decreases bytes.len(),
    {
        if bytes.len() == 0 {
            self
        } else {
            self.write_bytes(bytes.drop_last()).write_byte(sanitized(bytes.last()))
        }
    }

    /// The device brought up to date with the shadow grid.
    pub open spec fn flush(self) -> WriterView {
        WriterView { device: self.shadow, ..self }
    }

    /// Whether `move_to` accepts the position.
    pub open spec fn accepts(col: int, row: int) -> bool {
        0 <= col < BUFFER_WIDTH && 0 <= row < BUFFER_HEIGHT
    }

    /// The cursor placed at the column and, `ROW_OFFSET` rows further down, the
    /// row; unchanged where the position is not accepted.
    pub open spec fn move_to(self, col: int, row: int) -> WriterView {
        if Self::accepts(col, row) {
            WriterView { column: col as nat, row: (row + ROW_OFFSET) as nat, ..self }
        } else {
            self
        }
    }

    /// The foreground changed for later writes, on the fixed black background.
    pub open spec fn change_color(self, color: Color) -> WriterView {
        WriterView { color: ColorCode(attribute_byte(color, Color::Black)), ..self }
    }

    /// One empty line printed and shown: a line feed, then a flush.
    pub open spec fn print_empty_line(self) -> WriterView {
        self.write_byte(NEWLINE).flush()
    }

    /// `count` empty lines printed and shown, one after the other.
    pub open spec fn print_empty_lines(self, count: nat) -> WriterView
        decreases count,
    {
        if count == 0 {
            self
        } else {
            self.print_empty_lines((count - 1) as nat).print_empty_line()
        }
    }
}

/// `volatile::Volatile`: a value that is only ever read and written with
/// volatile accesses. Nothing of its inside is visible here.
#[verifier::external_type_specification]
#[verifier::external_body]
#[verifier::reject_recursive_types(T)]
pub struct ExVolatile<T: Copy>(Volatile<T>);

/// The two bytes a device cell contains, glyph first: the value that
/// `Volatile::read` returns and `Volatile::write` replaces.
pub uninterp spec fn stored(slot: Volatile<[u8; 2]>) -> (u8, u8);

/// The character device as it lies in memory: rows of two-byte cells, glyph
/// then attribute. Arrays and `Volatile` add no padding, so a reference to the
/// device's address is a reference to this type.
pub type Buffer = [[Volatile<[u8; 2]>; BUFFER_WIDTH]; BUFFER_HEIGHT];

/// The cell that a device slot contains.
pub open spec fn slot_cell(slot: Volatile<[u8; 2]>) -> ScreenChar {
    ScreenChar { ascii_character: stored(slot).0, color_code: ColorCode(stored(slot).1) }
}

/// What a device shows, row by row.
pub open spec fn device_view(buffer: Buffer) -> Seq<Seq<ScreenChar>> {
    Seq::new(
        BUFFER_HEIGHT as nat,
        |r: int| Seq::new(BUFFER_WIDTH as nat, |c: int| slot_cell(buffer[r][c])),
    )
}

/// `Volatile::write` on the cell at a position inside the grid: afterwards
/// that cell contains the glyph and the attribute given, and every other cell
/// contains what it did before.
#[verifier::external_body]
fn write_cell(buffer: &mut Buffer, row: usize, col: usize, cell: ScreenChar)
    requires
        row < BUFFER_HEIGHT,
        col < BUFFER_WIDTH,
    ensures
        forall|r: int, c: int|
            0 <= r < BUFFER_HEIGHT && 0 <= c < BUFFER_WIDTH ==> #[trigger] stored(
                final(buffer)[r][c],
            ) == if r == row && c == col {
                (cell.ascii_character, cell.color_code.0)
            } else {
                stored(old(buffer)[r][c])
            },
{
    buffer[row][col].write([cell.ascii_character, cell.color_code.0])
}

/// `Volatile::read` on the cell at a position inside the grid: the glyph and
/// the attribute that the cell contains.
#[verifier::external_body]
fn read_cell(buffer: &Buffer, row: usize, col: usize) -> (cell: ScreenChar)
    requires
        row < BUFFER_HEIGHT,
        col < BUFFER_WIDTH,
    ensures
        (cell.ascii_character, cell.color_code.0) == stored(buffer[row as int][col as int]),
{
    let bytes = buffer[row][col].read();
    ScreenChar { ascii_character: bytes[0], color_code: ColorCode(bytes[1]) }
}

/// The shadow grid: the renderer's own copy of the screen.
struct DoubleBuffer {
    chars: [[ScreenChar; BUFFER_WIDTH]; BUFFER_HEIGHT],
}

impl DoubleBuffer {
    spec fn view(&self) -> Seq<Seq<ScreenChar>> {
        Seq::new(BUFFER_HEIGHT as nat, |r: int| self.chars[r]@)
    }
}

/// The renderer: a cursor, the attribute in use, the shadow grid and the
/// device behind it.
pub struct Writer {
    column_position: usize,
    row_position: usize,
    color_code: ColorCode,
    buffer: &'static mut Buffer,
    double_buffer: DoubleBuffer,
}

impl Writer {
    /// The writer as plain values.
    pub closed spec fn view(&self) -> WriterView {
        WriterView {
            column: self.column_position as nat,
            row: self.row_position as nat,
            color: self.color_code,
            shadow: self.double_buffer@,
            device: device_view(*self.buffer),
        }
    }

    /// A writer in front of the given device: white on black, the shadow grid
    /// blank, the cursor at the start of the last row. The device is left as it
    /// is until the first flush.
    pub fn new(buffer: &'static mut Buffer) -> (writer: Writer)
        ensures
            writer@.column == 0,
            writer@.row == BUFFER_HEIGHT - 1,
            writer@.color == ColorCode(attribute_byte(Color::White, Color::Black)),
            writer@.shadow == Seq::new(BUFFER_HEIGHT as nat, |r: int| blank_row(writer@.color)),
            writer@.device == device_view(*old(buffer)),
            writer@.wf(),
    {
        let color_code = ColorCode::new(Color::White, Color::Black);
        let blank = ScreenChar { ascii_character: BLANK_GLYPH, color_code };
        let writer = Writer {
            column_position: 0,
            row_position: BUFFER_HEIGHT - 1,
            color_code,
            buffer,
            double_buffer: DoubleBuffer { chars: [[blank; BUFFER_WIDTH]; BUFFER_HEIGHT] },
        };
        assert(writer@.shadow =~~= Seq::new(BUFFER_HEIGHT as nat, |r: int| blank_row(color_code)));
        writer
    }

    /// Both grids of a writer always have the device's shape.
    pub proof fn lemma_view_wf(&self)
        ensures
            self@.wf(),
    {
    }

    /// The attribute given to the cells written next.
    pub fn color_code(&self) -> (code: ColorCode)
        ensures
            code == self@.color,
    {
        self.color_code
    }

    /// Sets the attribute, foreground and background, of the cells written
    /// from now on.
    pub fn set_color_code(&mut self, code: ColorCode)
        ensures
            final(self)@ == (WriterView { color: code, ..old(self)@ }),
    {
        self.color_code = code;
    }

    /// Column of the cursor.
    pub fn column_position(&self) -> (col: usize)
        ensures
            col == self@.column,
    {
        self.column_position
    }

    /// Row of the cursor.
    pub fn row_position(&self) -> (row: usize)
        ensures
            row == self@.row,
    {
        self.row_position
    }

    /// The cell of the shadow grid at a position, or nothing outside the grid.
    pub fn shadow_cell(&self, row: usize, col: usize) -> (cell: Option<ScreenChar>)
        ensures
            cell == if row < BUFFER_HEIGHT && col < BUFFER_WIDTH {
                Some(self@.shadow[row as int][col as int])
            } else {
                None
            },
    {
        if row < BUFFER_HEIGHT && col < BUFFER_WIDTH {
            Some(self.double_buffer.chars[row][col])
        } else {
            None
        }
    }

    /// The cell that the device shows at a position, or nothing outside the
    /// grid. Drawing never depends on it; it is there to inspect a device that
    /// lives in ordinary memory.
    pub fn device_cell(&self, row: usize, col: usize) -> (cell: Option<ScreenChar>)
        ensures
            cell == if row < BUFFER_HEIGHT && col < BUFFER_WIDTH {
                Some(self@.device[row as int][col as int])
            } else {
                None
            },
    {
        if row < BUFFER_HEIGHT && col < BUFFER_WIDTH {
            Some(read_cell(&*self.buffer, row, col))
        } else {
            None
        }
    }

    /// Fills a row of the shadow grid with blanks in the current attribute.
    fn clear_row(&mut self, row: usize)
        requires
            row < BUFFER_HEIGHT,
        ensures
            final(self)@ == old(self)@.clear_row(row as int),
    {
        let blank = ScreenChar { ascii_character: BLANK_GLYPH, color_code: self.color_code };
        for col in 0..BUFFER_WIDTH
            invariant
                row < BUFFER_HEIGHT,
                blank == blank_cell(self.color_code),
                self.column_position == old(self).column_position,
                self.row_position == old(self).row_position,
                self.color_code == old(self).color_code,
                *self.buffer == *old(self).buffer,
                forall|r: int|
                    0 <= r < BUFFER_HEIGHT && r != row ==> self.double_buffer.chars[r]
                        == old(self).double_buffer.chars[r],
                forall|c: int| 0 <= c < col ==> self.double_buffer.chars[row as int][c] == blank,
        {
            self.double_buffer.chars[row][col] = blank;
        }
        assert(self@.shadow =~~= old(self)@.clear_row(row as int).shadow);
    }

    /// Scrolls the shadow grid up by one row, clears the last row and takes the
    /// cursor back to column 0.
    fn new_line(&mut self)
        ensures
            final(self)@ == old(self)@.new_line(),
    {
        for row in 1..BUFFER_HEIGHT
            invariant
                self.column_position == old(self).column_position,
                self.row_position == old(self).row_position,
                self.color_code == old(self).color_code,
                *self.buffer == *old(self).buffer,
                forall|r: int|
                    0 <= r < row - 1 ==> self.double_buffer.chars[r] == old(
                        self,
                    ).double_buffer.chars[r + 1],
                forall|r: int|
                    row - 1 <= r < BUFFER_HEIGHT ==> self.double_buffer.chars[r] == old(
                        self,
                    ).double_buffer.chars[r],
        {
            for col in 0..BUFFER_WIDTH
                invariant
                    1 <= row < BUFFER_HEIGHT,
                    self.column_position == old(self).column_position,
                    self.row_position == old(self).row_position,
                    self.color_code == old(self).color_code,
                    *self.buffer == *old(self).buffer,
                    forall|r: int|
                        0 <= r < row - 1 ==> self.double_buffer.chars[r] == old(
                            self,
                        ).double_buffer.chars[r + 1],
                    forall|r: int|
                        row <= r < BUFFER_HEIGHT ==> self.double_buffer.chars[r] == old(
                            self,
                        ).double_buffer.chars[r],
                    forall|c: int|
                        0 <= c < col ==> self.double_buffer.chars[row - 1][c] == old(
                            self,
                        ).double_buffer.chars[row as int][c],
            {
                let character = self.double_buffer.chars[row][col];
                self.double_buffer.chars[row - 1][col] = character;
            }
            assert(self.double_buffer.chars[row - 1] =~= old(self).double_buffer.chars[row as int]);
        }
        self.clear_row(BUFFER_HEIGHT - 1);
        self.column_position = 0;
        assert(self@.shadow =~~= old(self)@.new_line().shadow);
    }

    /// Appends one byte at the cursor, as it is. A line feed scrolls. Any other
    /// byte is stored in the cell at the cursor in the current attribute, after
    /// a scroll if the line is already full, and the cursor moves one column
    /// on. To store a byte the cursor has to stand on a row of the grid.
    pub fn write_byte(&mut self, byte: u8)
        requires
            byte == NEWLINE || old(self)@.cursor_on_grid(),
        ensures
            final(self)@ == old(self)@.write_byte(byte),
    {
        if byte == NEWLINE {
            self.new_line();
        } else {
            if self.column_position >= BUFFER_WIDTH {
                self.new_line();
            }
            let row = self.row_position;
            let col = self.column_position;

            let color_code = self.color_code;
            self.double_buffer.chars[row][col] = ScreenChar { ascii_character: byte, color_code };
            self.column_position += 1;
            assert(self@.shadow =~~= old(self)@.write_byte(byte).shadow);
        }
    }

    /// Appends a sequence of bytes, each replaced by the fallback glyph where
    /// the device cannot display it.
    pub fn write_bytes(&mut self, bytes: &[u8])
        requires
            old(self)@.cursor_on_grid() || only_newlines(bytes@),
        ensures
            final(self)@ == old(self)@.write_bytes(bytes@),
    {
        let n = bytes.len();
        for i in 0..n
            invariant
                n == bytes@.len(),
                self@.cursor_on_grid() || only_newlines(bytes@),
                self@ == old(self)@.write_bytes(bytes@.take(i as int)),
        {
            proof {
                let upto = bytes@.take(i + 1);
                assert(upto.drop_last() =~= bytes@.take(i as int));
                assert(upto.last() == bytes@[i as int]);
                lemma_write_byte_keeps_row(self@, sanitized(bytes@[i as int]));
            }
            self.write_byte(sanitize(bytes[i]));
        }
        assert(bytes@.take(n as int) =~= bytes@);
    }

    /// Appends a string: the bytes of its UTF-8 encoding, sanitized.
    pub fn write_string(&mut self, s: &str)
        requires
            old(self)@.cursor_on_grid() || only_newlines(s.spec_bytes()),
        ensures
            final(self)@ == old(self)@.write_bytes(s.spec_bytes()),
    {
        self.write_bytes(s.as_bytes());
    }

    /// Copies every cell of the shadow grid to the device, row by row. This is
    /// the only operation that stores to the device; after it the device shows
    /// exactly the shadow grid.
    pub fn flush(&mut self)
        ensures
            final(self)@ == old(self)@.flush(),
    {
        for row in 0..BUFFER_HEIGHT
            invariant
                self.column_position == old(self).column_position,
                self.row_position == old(self).row_position,
                self.color_code == old(self).color_code,
                self.double_buffer == old(self).double_buffer,
                forall|r: int, c: int|
                    0 <= r < row && 0 <= c < BUFFER_WIDTH ==> slot_cell(
                        #[trigger] self.buffer[r][c],
                    ) == self.double_buffer.chars[r][c],
        {
            for col in 0..BUFFER_WIDTH
                invariant
                    row < BUFFER_HEIGHT,
                    self.column_position == old(self).column_position,
                    self.row_position == old(self).row_position,
                    self.color_code == old(self).color_code,
                    self.double_buffer == old(self).double_buffer,
                    forall|r: int, c: int|
                        0 <= r < row && 0 <= c < BUFFER_WIDTH ==> slot_cell(
                            #[trigger] self.buffer[r][c],
                        ) == self.double_buffer.chars[r][c],
                    forall|c: int|
                        0 <= c < col ==> slot_cell(#[trigger] self.buffer[row as int][c])
                            == self.double_buffer.chars[row as int][c],
            {
                let screen_char = self.double_buffer.chars[row][col];
                write_cell(self.buffer, row, col, screen_char);
            }
        }
        assert(self@.device =~~= old(self)@.shadow);
    }

    /// Places the cursor for the writes that follow. A column or a row outside
    /// the grid is refused and leaves the cursor where it was. An accepted row
    /// is stored `ROW_OFFSET` rows further down, so the cursor may then stand
    /// below the grid: `write_byte` asks for a cursor on the grid.
    pub fn move_to(&mut self, col: usize, row: usize) -> (moved: Option<()>)
        ensures
            moved.is_some() <==> WriterView::accepts(col as int, row as int),
            final(self)@ == old(self)@.move_to(col as int, row as int),
    {
        if row >= BUFFER_HEIGHT || col >= BUFFER_WIDTH {
            return None;
        }
        self.row_position = row + ROW_OFFSET;
        self.column_position = col;

        Some(())
    }
}

/// Sets the foreground of the cells written from now on. The background stays
/// black.
pub fn change_color(writer: &mut Writer, color: Color)
    ensures
        final(writer)@ == old(writer)@.change_color(color),
{
    writer.color_code = ColorCode::new(color, Color::Black);
}

/// Scrolls the whole screen away: one empty line for each row of the grid,
/// each shown at once. Afterwards every cell of the shadow grid and of the
/// device is blank in the current attribute.
pub fn clear_screen(writer: &mut Writer)
    ensures
        final(writer)@ == old(writer)@.print_empty_lines(BUFFER_HEIGHT as nat),
{
    for n in 0..BUFFER_HEIGHT
        invariant
            writer@ == old(writer)@.print_empty_lines(n as nat),
    {
        writer.write_byte(NEWLINE);
        writer.flush();
    }
}

/// Writing moves the cursor along its row and never off it.
pub proof fn lemma_write_byte_keeps_row(w: WriterView, byte: u8)
    ensures
        w.write_byte(byte).row == w.row,
        w.write_byte(byte).color == w.color,
        w.write_byte(byte).device == w.device,
{
}

/// A flush changes nothing but the device, which then shows the shadow grid;
/// a second flush with no write in between changes nothing at all.
pub proof fn lemma_flush_idempotent(w: WriterView)
    ensures
        w.flush().device == w.shadow,
        w.flush().shadow == w.shadow,
        w.flush().flush() == w.flush(),
{
}

/// Every byte is written either as it is or as the fallback glyph, and it is
/// kept exactly when the device can display it. A string of one byte writes
/// that one sanitized byte.
pub proof fn lemma_sanitize_total(w: WriterView, byte: u8)
    ensures
        is_displayable(byte) ==> sanitized(byte) == byte,
        !is_displayable(byte) ==> sanitized(byte) == FALLBACK_GLYPH,
        is_displayable(sanitized(byte)) || sanitized(byte) == FALLBACK_GLYPH,
        sanitized(sanitized(byte)) == sanitized(byte),
        w.write_bytes(seq![byte]) == w.write_byte(sanitized(byte)),
{
    let one = seq![byte];
    assert(one.drop_last() =~= Seq::<u8>::empty());
    assert(one.last() == byte);
    assert(w.write_bytes(one.drop_last()) == w);
}

/// A sequence of `count` line feeds.
pub open spec fn newlines(count: nat) -> Seq<u8> {
    Seq::new(count, |i: int| NEWLINE)
}

/// After `count` line feeds the rows of the shadow grid have moved up by
/// `count`, and the rows that came in from below are blank; the cursor is at
/// column 0 of the row it was on. From `BUFFER_HEIGHT` line feeds on, nothing
/// of the old content is left.
pub proof fn lemma_newlines_scroll(w: WriterView, count: nat)
    requires
        w.wf(),
    ensures
        w.write_bytes(newlines(count)).wf(),
        w.write_bytes(newlines(count)).row == w.row,
        w.write_bytes(newlines(count)).color == w.color,
        w.write_bytes(newlines(count)).device == w.device,
        count > 0 ==> w.write_bytes(newlines(count)).column == 0,
        forall|r: int|
            0 <= r < BUFFER_HEIGHT ==> #[trigger] w.write_bytes(newlines(count)).shadow[r] == if r
                + count < BUFFER_HEIGHT {
                w.shadow[r + count]
            } else {
                blank_row(w.color)
            },
    decreases count,
{
    if count > 0 {
        let shorter = (count - 1) as nat;
        lemma_newlines_scroll(w, shorter);
        assert(newlines(count).drop_last() =~= newlines(shorter));
        assert(newlines(count).last() == NEWLINE);
        assert(sanitized(NEWLINE) == NEWLINE);
    }
}

/// Scrolling a full screen away and then writing one visible glyph leaves that
/// glyph at column 0 of the cursor's row and every other cell blank.
pub proof fn lemma_scroll_then_glyph(w: WriterView, glyph: u8)
    requires
        w.wf(),
        w.cursor_on_grid(),
        is_displayable(glyph),
        glyph != NEWLINE,
    ensures
        ({
            let after = w.write_bytes(newlines(BUFFER_HEIGHT as nat).push(glyph));
            &&& after.wf()
            &&& after.row == w.row
            &&& after.column == 1
            &&& forall|r: int, c: int|
                0 <= r < BUFFER_HEIGHT && 0 <= c < BUFFER_WIDTH ==> #[trigger] after.shadow[r][c]
                    == if r == w.row && c == 0 {
                    ScreenChar { ascii_character: glyph, color_code: w.color }
                } else {
                    blank_cell(w.color)
                }
        }),
{
    let lines = newlines(BUFFER_HEIGHT as nat);
    let all = lines.push(glyph);
    lemma_newlines_scroll(w, BUFFER_HEIGHT as nat);
    assert(all.drop_last() =~= lines);
    assert(all.last() == glyph);
}

/// Printing `count` empty lines scrolls the shadow grid as `count` line feeds
/// do and leaves the device showing it. After `BUFFER_HEIGHT` of them, as
/// `clear_screen` prints, every cell of both grids is blank.
pub proof fn lemma_empty_lines_clear(w: WriterView, count: nat)
    requires
        w.wf(),
    ensures
        w.print_empty_lines(count).wf(),
        w.print_empty_lines(count).row == w.row,
        w.print_empty_lines(count).color == w.color,
        w.print_empty_lines(count).shadow == w.write_bytes(newlines(count)).shadow,
        count > 0 ==> w.print_empty_lines(count).column == 0,
        count > 0 ==> w.print_empty_lines(count).device == w.print_empty_lines(count).shadow,
        count >= BUFFER_HEIGHT ==> forall|r: int|
            0 <= r < BUFFER_HEIGHT ==> #[trigger] w.print_empty_lines(count).shadow[r] == blank_row(
                w.color,
            ),
    decreases count,
{
    lemma_newlines_scroll(w, count);
    if count > 0 {
        let shorter = (count - 1) as nat;
        lemma_empty_lines_clear(w, shorter);
        lemma_newlines_scroll(w, shorter);
        assert(newlines(count).drop_last() =~= newlines(shorter));
        assert(newlines(count).last() == NEWLINE);
        assert(w.print_empty_lines(count).shadow =~~= w.write_bytes(newlines(count)).shadow);
    }
}

/// The first column and the first row beyond the grid are refused, and the
/// cursor stays where it was; the top left corner is accepted.
pub proof fn lemma_move_to_bounds(w: WriterView, col: int, row: int)
    ensures
        !WriterView::accepts(BUFFER_WIDTH as int, row),
        !WriterView::accepts(col, BUFFER_HEIGHT as int),
        w.move_to(BUFFER_WIDTH as int, row) == w,
        w.move_to(col, BUFFER_HEIGHT as int) == w,
        WriterView::accepts(0, 0),
        w.move_to(0, 0).column == 0 && w.move_to(0, 0).row == ROW_OFFSET,
{
}

} // verus!
