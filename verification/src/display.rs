//! The VGA text mode screen: 25 rows of 80 characters, two bytes per
//! character (the ASCII code, then the colour attribute).

use crate::bits::{bits_of, get_bits_u8};
use vstd::prelude::*;

verus! {

/// Number of character rows on the screen.
pub const ROW: usize = 25;

/// Number of characters in a row.
pub const COL: usize = 80;

/// Number of bytes that encode one character cell.
pub const SINGLE_CHAR_BYTE: usize = 2;

/// The sixteen colours of the VGA text mode palette.
#[derive(Debug, Clone, Copy, PartialEq, Eq, Structural)]
pub enum Color {
    Black,
    Blue,
    Green,
    Cyan,
    Red,
    Magenta,
    Brown,
    LightGray,
    DarkGray,
    LightBlue,
    LightGreen,
    LightCyan,
    LightRed,
    Pink,
    Yellow,
    White,
}

/// The colour with palette number `n`, if `n` is a palette number.
pub open spec fn color_spec(n: u8) -> Option<Color> {
    match n {
        0 => Some(Color::Black),
        1 => Some(Color::Blue),
        2 => Some(Color::Green),
        3 => Some(Color::Cyan),
        4 => Some(Color::Red),
        5 => Some(Color::Magenta),
        6 => Some(Color::Brown),
        7 => Some(Color::LightGray),
        8 => Some(Color::DarkGray),
        9 => Some(Color::LightBlue),
        10 => Some(Color::LightGreen),
        11 => Some(Color::LightCyan),
        12 => Some(Color::LightRed),
        13 => Some(Color::Pink),
        14 => Some(Color::Yellow),
        15 => Some(Color::White),
        _ => None,
    }
}

/// The name under which a colour is given to the renderer.
pub open spec fn color_name(c: Color) -> Seq<char> {
    match c {
        Color::Black => "black"@,
        Color::Blue => "blue"@,
        Color::Green => "green"@,
        Color::Cyan => "cyan"@,
        Color::Red => "red"@,
        Color::Magenta => "magenta"@,
        Color::Brown => "brown"@,
        Color::LightGray => "lightgray"@,
        Color::DarkGray => "darkgray"@,
        Color::LightBlue => "lightblue"@,
        Color::LightGreen => "lightgreen"@,
        Color::LightCyan => "lightcyan"@,
        Color::LightRed => "red"@,
        Color::Pink => "pink"@,
        Color::Yellow => "yellow"@,
        Color::White => "white"@,
    }
}

/// The make-up of a colour on a VGA screen: whether it has its red, green
/// and blue components, and whether it is the bright variant.
pub open spec fn color_components(c: Color) -> (bool, bool, bool, bool) {
    match c {
        Color::Black => (false, false, false, false),
        Color::Blue => (false, false, true, false),
        Color::Green => (false, true, false, false),
        Color::Cyan => (false, true, true, false),
        Color::Red => (true, false, false, false),
        Color::Magenta => (true, false, true, false),
        Color::Brown => (true, true, false, false),
        Color::LightGray => (true, true, true, false),
        Color::DarkGray => (false, false, false, true),
        Color::LightBlue => (false, false, true, true),
        Color::LightGreen => (false, true, false, true),
        Color::LightCyan => (false, true, true, true),
        Color::LightRed => (true, false, false, true),
        Color::Pink => (true, false, true, true),
        Color::Yellow => (true, true, false, true),
        Color::White => (true, true, true, true),
    }
}

/// The VGA palette numbers a colour by its components: bit 0 is blue, bit 1
/// green, bit 2 red and bit 3 brightness. Every number below 16 is a
/// colour, no other number is, and different numbers are different colours.
pub proof fn lemma_palette_encoding(n: u8, k: u8)
    ensures
        n < 16 <==> color_spec(n) is Some,
        n < 16 ==> color_components(color_spec(n).unwrap()) == (
            (n / 4) % 2 == 1,
            (n / 2) % 2 == 1,
            n % 2 == 1,
            (n / 8) % 2 == 1,
        ),
        n < 16 && k < 16 && n != k ==> color_spec(n) != color_spec(k),
{
}

impl Color {
    /// The colour with palette number `n`, or `None` above 15.
    pub fn from_u8(n: u8) -> (c: Option<Color>)
        ensures
            c == color_spec(n),
    {
        match n {
            0 => Some(Color::Black),
            1 => Some(Color::Blue),
            2 => Some(Color::Green),
            3 => Some(Color::Cyan),
            4 => Some(Color::Red),
            5 => Some(Color::Magenta),
            6 => Some(Color::Brown),
            7 => Some(Color::LightGray),
            8 => Some(Color::DarkGray),
            9 => Some(Color::LightBlue),
            10 => Some(Color::LightGreen),
            11 => Some(Color::LightCyan),
            12 => Some(Color::LightRed),
            13 => Some(Color::Pink),
            14 => Some(Color::Yellow),
            15 => Some(Color::White),
            _ => None,
        }
    }

    /// The name of the colour as the renderer takes it.
    pub fn name(&self) -> (s: &'static str)
        ensures
            s@ == color_name(*self),
    {
        match self {
            Color::Black => "black",
            Color::Blue => "blue",
            Color::Green => "green",
            Color::Cyan => "cyan",
            Color::Red => "red",
            Color::Magenta => "magenta",
            Color::Brown => "brown",
            Color::LightGray => "lightgray",
            Color::DarkGray => "darkgray",
            Color::LightBlue => "lightblue",
            Color::LightGreen => "lightgreen",
            Color::LightCyan => "lightcyan",
            Color::LightRed => "red",
            Color::Pink => "pink",
            Color::Yellow => "yellow",
            Color::White => "white",
        }
    }
}

/// One character cell of the screen.
#[derive(Debug, Clone, Copy, PartialEq, Eq, Structural)]
pub struct ScreenChar {
    pub ascii_character: u8,
    pub background: Color,
    pub foreground: Color,
}

/// The background colour of an attribute byte: its high four bits.
pub open spec fn background_of(color_code: u8) -> Color {
    color_spec(bits_of(color_code, 4, 8)).unwrap()
}

/// The foreground colour of an attribute byte: its low four bits.
pub open spec fn foreground_of(color_code: u8) -> Color {
    color_spec(bits_of(color_code, 0, 4)).unwrap()
}

/// The character cell that a 16-bit screen word encodes: the ASCII code in
/// the low byte, the attribute in the high byte.
pub open spec fn screen_char_of(item: u16) -> ScreenChar {
    ScreenChar {
        ascii_character: item as u8,
        background: background_of((item >> 8u16) as u8),
        foreground: foreground_of((item >> 8u16) as u8),
    }
}

proof fn lemma_nibbles_are_colors(c: u8)
    ensures
        color_spec(bits_of(c, 4, 8)) is Some,
        color_spec(bits_of(c, 0, 4)) is Some,
{
    assert(((c >> 4usize) & (0xffu8 >> 4usize)) < 16) by (bit_vector);
    assert(((c >> 0usize) & (0xffu8 >> 4usize)) < 16) by (bit_vector);
}

/// A screen word holds the character in its low byte and the attribute in
/// its high byte: the foreground colour is palette number `attribute % 16`,
/// the background colour palette number `attribute / 16`.
pub proof fn lemma_screen_word(item: u16)
    ensures
        screen_char_of(item).ascii_character == item % 256,
        color_spec(((item / 256) % 16) as u8) == Some(screen_char_of(item).foreground),
        color_spec((item / 4096) as u8) == Some(screen_char_of(item).background),
{
    let a = (item >> 8u16) as u8;
    assert((item as u8) as u16 == item % 256) by (bit_vector);
    assert(((item >> 8u16) as u8) as u16 == item / 256) by (bit_vector);
    assert(((a >> 4usize) & (0xffu8 >> 4usize)) == a / 16) by (bit_vector);
    assert(((a >> 0usize) & (0xffu8 >> 4usize)) == a % 16) by (bit_vector);
    lemma_nibbles_are_colors(a);
}

/// The two colours of an attribute byte.
fn decode_color(color_code: u8) -> (r: (Color, Color))
    ensures
        r == (background_of(color_code), foreground_of(color_code)),
{
    proof {
        lemma_nibbles_are_colors(color_code);
    }
    let background = Color::from_u8(get_bits_u8(color_code, 4, 8)).unwrap();
    let foreground = Color::from_u8(get_bits_u8(color_code, 0, 4)).unwrap();
    (background, foreground)
}

impl ScreenChar {
    /// Sets the character code of the cell.
    pub fn set_ascii(&mut self, character: u8)
        ensures
            *final(self) == (ScreenChar { ascii_character: character, ..*old(self) }),
    {
        self.ascii_character = character;
    }

    /// Sets both colours of the cell from an attribute byte.
    pub fn set_color(&mut self, color_code: u8)
        ensures
            *final(self) == (ScreenChar {
                background: background_of(color_code),
                foreground: foreground_of(color_code),
                ..*old(self)
            }),
    {
        let (background, foreground) = decode_color(color_code);
        self.background = background;
        self.foreground = foreground;
    }
}

impl ScreenChar {
    /// The character cell that a 16-bit screen word encodes: the ASCII code
    /// in the low byte, the background colour in the high four bits of the
    /// high byte and the foreground colour in its low four bits.
    pub fn from(item: u16) -> (s: ScreenChar)
        ensures
            s == screen_char_of(item),
    {
        let color_code = (#[verifier::truncate] ((item >> 8u16) as u8));
        let (background, foreground) = decode_color(color_code);
        ScreenChar { ascii_character: (#[verifier::truncate] (item as u8)), background, foreground }
    }
}

/// A screen that takes writes to its text memory.
pub trait VgaTextMode {
    /// A byte write to the text memory at offset `addr`.
    fn write_u8(&mut self, addr: usize, byte: u8);

    /// A character-cell write to the text memory at offset `addr`.
    fn write_u16(&mut self, addr: usize, screen_char: u16);
}

/// The (row, column) of the character cell at text memory offset `addr`.
pub open spec fn child_position(addr: usize) -> (int, int) {
    (addr as int / 160, (addr as int / 2) % 80)
}

/// The (row, column) of the character cell at text memory offset `addr`,
/// each cast to `i32`: a row past `i32::MAX` is truncated by the cast.
pub fn get_child_position(addr: usize) -> (p: (i32, i32))
    ensures
        p.0 == (addr / 160) as i32,
        p.1 as int == child_position(addr).1,
        addr as int / 160 <= i32::MAX ==> p.0 as int == child_position(addr).0,
{
    let row = #[verifier::truncate] ((addr / (COL * SINGLE_CHAR_BYTE)) as i32);
    let col = ((addr / SINGLE_CHAR_BYTE) % COL) as i32;
    (row, col)
}

/// The contents of the text screen, one cell per character, row by row.
pub struct VgaTextBuffer {
    buffer: Vec<ScreenChar>,
}

/// The cell that a blank screen holds everywhere.
pub open spec fn blank_char() -> ScreenChar {
    ScreenChar { ascii_character: 32, background: Color::Black, foreground: Color::Black }
}

/// The screen after a character-cell write at text memory offset `addr`:
/// the cell `addr / 2` takes the decoded word; a write past the last cell
/// changes nothing.
pub open spec fn vga_write_u16(cells: Seq<ScreenChar>, addr: usize, screen_char: u16) -> Seq<ScreenChar> {
    if addr as int / 2 < cells.len() {
        cells.update(addr as int / 2, screen_char_of(screen_char))
    } else {
        cells
    }
}

impl View for VgaTextBuffer {
    type V = Seq<ScreenChar>;

    closed spec fn view(&self) -> Seq<ScreenChar> {
        self.buffer@
    }
}

impl VgaTextBuffer {
    /// A blank screen: spaces, black on black.
    pub fn new() -> (b: VgaTextBuffer)
        ensures
            b@ == Seq::new((ROW * COL) as nat, |i: int| blank_char()),
    {
        let blank = ScreenChar { ascii_character: 32, background: Color::Black, foreground: Color::Black };
        let mut buffer: Vec<ScreenChar> = Vec::new();
        let mut i: usize = 0;
        while i < ROW * COL
            invariant
                i <= ROW * COL,
                blank == blank_char(),
                buffer@ == Seq::new(i as nat, |j: int| blank_char()),
            decreases ROW * COL - i,
        {
            buffer.push(blank);
            i = i + 1;
            assert(buffer@ =~= Seq::new(i as nat, |j: int| blank_char()));
        }
        VgaTextBuffer { buffer }
    }

    /// The cell at `row`, `col`.
    pub fn char_at(&self, row: usize, col: usize) -> (c: ScreenChar)
        requires
            row < ROW,
            col < COL,
            self@.len() == ROW * COL,
        ensures
            c == self@[row * COL + col],
    {
        self.buffer[row * COL + col]
    }
}

impl VgaTextMode for VgaTextBuffer {
    /// Byte writes leave the screen as it is.
    fn write_u8(&mut self, _addr: usize, _byte: u8)
        ensures
            final(self)@ == old(self)@,
    {
    }

    fn write_u16(&mut self, addr: usize, screen_char: u16)
        ensures
            final(self)@ == vga_write_u16(old(self)@, addr, screen_char),
    {
        let cell = addr / SINGLE_CHAR_BYTE;
        if cell < self.buffer.len() {
            self.buffer[cell] = ScreenChar::from(screen_char);
        }
    }
}

/// A character word written at the text memory offset of a cell is what
/// that cell then holds; the other cells keep theirs.
pub proof fn lemma_vga_write_then_read(cells: Seq<ScreenChar>, row: int, col: int, word: u16, other: int)
    requires
        cells.len() == ROW * COL,
        0 <= row < ROW,
        0 <= col < COL,
        0 <= other < ROW * COL,
        other != row * COL + col,
    ensures
        vga_write_u16(cells, (SINGLE_CHAR_BYTE * (row * COL + col)) as usize, word)[row * COL + col]
            == screen_char_of(word),
        vga_write_u16(cells, (SINGLE_CHAR_BYTE * (row * COL + col)) as usize, word)[other] == cells[other],
{
    assert((SINGLE_CHAR_BYTE * (row * COL + col)) as usize as int / 2 == row * COL + col) by (nonlinear_arith)
        requires
            0 <= row < ROW,
            0 <= col < COL,
    ;
}

} // verus!
