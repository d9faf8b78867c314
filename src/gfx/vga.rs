//! Display data: the 16-entry palette, packed attribute bytes, text cells,
//! palette-indexed pixels, and the fixed-size windows that hold them.
use vstd::prelude::*;

verus! {

pub const SCREEN_HEIGHT: usize = 25;

pub const SCREEN_WIDTH: usize = 80;

/// Number of cells in one text window.
pub const SCREEN_CELLS: usize = SCREEN_WIDTH * SCREEN_HEIGHT;

pub const GFX_SCREEN_HEIGHT: usize = 200;

pub const GFX_SCREEN_WIDTH: usize = 320;

/// Number of pixels in the graphics window.
pub const GFX_SCREEN_PIXELS: usize = GFX_SCREEN_WIDTH * GFX_SCREEN_HEIGHT;

/// The fixed 16-entry text-mode palette, in palette-index order.
#[derive(Clone, Copy, PartialEq, Eq, Structural, Debug)]
pub enum Color {
    Black,
    Blue,
    Green,
    Cyan,
    Red,
    Magenta,
    Brown,
    LightGray,
    DarkGray,
    LightBlue,
    LightGreen,
    LightCyan,
    LightRed,
    Pink,
    Yellow,
    White,
}

impl Color {
    /// Palette index of a color.
    pub open spec fn index(self) -> nat {
        match self {
            Color::Black => 0,
            Color::Blue => 1,
            Color::Green => 2,
            Color::Cyan => 3,
            Color::Red => 4,
            Color::Magenta => 5,
            Color::Brown => 6,
            Color::LightGray => 7,
            Color::DarkGray => 8,
            Color::LightBlue => 9,
            Color::LightGreen => 10,
            Color::LightCyan => 11,
            Color::LightRed => 12,
            Color::Pink => 13,
            Color::Yellow => 14,
            Color::White => 15,
        }
    }

    /// The color whose palette index is `n` modulo 16.
    pub open spec fn of_index(n: int) -> Color {
        let m = n % 16;
        if m == 0 {
            Color::Black
        } else if m == 1 {
            Color::Blue
        } else if m == 2 {
            Color::Green
        } else if m == 3 {
            Color::Cyan
        } else if m == 4 {
            Color::Red
        } else if m == 5 {
            Color::Magenta
        } else if m == 6 {
            Color::Brown
        } else if m == 7 {
            Color::LightGray
        } else if m == 8 {
            Color::DarkGray
        } else if m == 9 {
            Color::LightBlue
        } else if m == 10 {
            Color::LightGreen
        } else if m == 11 {
            Color::LightCyan
        } else if m == 12 {
            Color::LightRed
        } else if m == 13 {
            Color::Pink
        } else if m == 14 {
            Color::Yellow
        } else {
            Color::White
        }
    }

    pub fn as_u8(self) -> (r: u8)
        ensures
            r == self.index(),
    {
        match self {
            Color::Black => 0,
            Color::Blue => 1,
            Color::Green => 2,
            Color::Cyan => 3,
            Color::Red => 4,
            Color::Magenta => 5,
            Color::Brown => 6,
            Color::LightGray => 7,
            Color::DarkGray => 8,
            Color::LightBlue => 9,
            Color::LightGreen => 10,
            Color::LightCyan => 11,
            Color::LightRed => 12,
            Color::Pink => 13,
            Color::Yellow => 14,
            Color::White => 15,
        }
    }

    /// The color at palette index `value % 16`.
    pub fn from_u8(value: u8) -> (r: Color)
        ensures
            r == Color::of_index(value as int),
            r.index() == value % 16,
    {
        let mod_val = value % 16;
        match mod_val {
            0 => Color::Black,
            1 => Color::Blue,
            2 => Color::Green,
            3 => Color::Cyan,
            4 => Color::Red,
            5 => Color::Magenta,
            6 => Color::Brown,
            7 => Color::LightGray,
            8 => Color::DarkGray,
            9 => Color::LightBlue,
            10 => Color::LightGreen,
            11 => Color::LightCyan,
            12 => Color::LightRed,
            13 => Color::Pink,
            14 => Color::Yellow,
            _ => Color::White,
        }
    }
}

/// A packed attribute byte: foreground index in bits 0-3, background index
/// in bits 4-7.
#[derive(Clone, Copy, PartialEq, Eq, Structural, Debug)]
pub struct ColorCode(pub u8);

/// The attribute byte for a foreground and a background palette index.
pub open spec fn attribute_of(fg: nat, bg: nat) -> nat {
    bg * 16 + fg
}

impl ColorCode {
    /// Foreground palette index (low nibble).
    pub open spec fn fg(self) -> nat {
        (self.0 % 16) as nat
    }

    /// Background palette index (high nibble).
    pub open spec fn bg(self) -> nat {
        (self.0 / 16) as nat
    }

    pub fn from_u8(data: u8) -> (r: ColorCode)
        ensures
            r.0 == data,
    {
        ColorCode(data)
    }

    pub fn from_colors(fg: Color, bg: Color) -> (r: ColorCode)
        ensures
            r.0 == attribute_of(fg.index(), bg.index()),
            r.fg() == fg.index(),
            r.bg() == bg.index(),
    {
        let f = fg.as_u8();
        let b = bg.as_u8();
        assert((b << 4u8) | (f & 0xfu8) == b * 16 + f) by (bit_vector)
            requires
                f < 16,
                b < 16,
        ;
        ColorCode((b << 4u8) | (f & 0xf))
    }

    pub fn as_u8(&self) -> (r: u8)
        ensures
            r == self.0,
    {
        self.0
    }

    pub fn bg_as_u8(&self) -> (r: u8)
        ensures
            r == self.bg(),
    {
        let v = self.0;
        assert((v & 0xf0u8) >> 4u8 == v / 16) by (bit_vector);
        (v & 0xF0) >> 4
    }

    pub fn fg_as_u8(&self) -> (r: u8)
        ensures
            r == self.fg(),
    {
        let v = self.0;
        assert(v & 0x0fu8 == v % 16) by (bit_vector);
        v & 0x0F
    }

    pub fn bg_as_color(&self) -> (r: Color)
        ensures
            r == Color::of_index(self.bg() as int),
            r.index() == self.bg(),
    {
        Color::from_u8(self.bg_as_u8())
    }

    pub fn fg_as_color(&self) -> (r: Color)
        ensures
            r == Color::of_index(self.fg() as int),
            r.index() == self.fg(),
    {
        Color::from_u8(self.fg_as_u8())
    }

    /// Replaces the foreground with palette index `fg % 16`; the background
    /// is kept.
    pub fn set_fg_from_u8(&mut self, fg: u8)
        ensures
            final(self).0 == attribute_of((fg % 16) as nat, old(self).bg()),
            final(self).fg() == fg % 16,
            final(self).bg() == old(self).bg(),
    {
        let b = self.bg_as_u8();
        assert((b << 4u8) | (fg & 0xfu8) == b * 16 + fg % 16) by (bit_vector)
            requires
                b < 16,
        ;
        self.0 = (b << 4) | (fg & 0x0F);
    }

    /// Replaces the background with palette index `bg % 16`; the foreground
    /// is kept.
    pub fn set_bg_from_u8(&mut self, bg: u8)
        ensures
            final(self).0 == attribute_of(old(self).fg(), (bg % 16) as nat),
            final(self).fg() == old(self).fg(),
            final(self).bg() == bg % 16,
    {
        let f = self.fg_as_u8();
        assert(((bg & 0xfu8) << 4u8) | f == (bg % 16) * 16 + f) by (bit_vector)
            requires
                f < 16,
        ;
        self.0 = ((bg & 0x0F) << 4) | f;
    }

    pub fn set_bg_from_color(&mut self, bg: Color)
        ensures
            final(self).fg() == old(self).fg(),
            final(self).bg() == bg.index(),
    {
        self.set_bg_from_u8(bg.as_u8())
    }

    pub fn set_fg_from_color(&mut self, fg: Color)
        ensures
            final(self).fg() == fg.index(),
            final(self).bg() == old(self).bg(),
    {
        self.set_fg_from_u8(fg.as_u8())
    }
}

/// Packing a foreground and a background color into an attribute byte and
/// reading both back yields the same pair.
pub proof fn lemma_attribute_round_trip(fg: Color, bg: Color)
    ensures
        ({
            let a = ColorCode(attribute_of(fg.index(), bg.index()) as u8);
            &&& Color::of_index(a.fg() as int) == fg
            &&& Color::of_index(a.bg() as int) == bg
        }),
{
    let f = fg.index() as int;
    let b = bg.index() as int;
    assert(0 <= b * 16 + f < 256);
    assert((b * 16 + f) % 16 == f) by (nonlinear_arith)
        requires
            0 <= f < 16,
            0 <= b < 16,
    ;
    assert((b * 16 + f) / 16 == b) by (nonlinear_arith)
        requires
            0 <= f < 16,
            0 <= b < 16,
    ;
}

/// One text cell: a glyph from the single-byte character set and its
/// attribute byte.
#[derive(Clone, Copy, PartialEq, Eq, Structural, Debug)]
pub struct Char {
    pub code_point: u8,
    pub color: ColorCode,
}

impl Char {
    pub fn new(ascii_char: u8, color: ColorCode) -> (r: Char)
        ensures
            r == (Char { code_point: ascii_char, color }),
    {
        Char { code_point: ascii_char, color: color }
    }

    pub fn blank(color: ColorCode) -> (r: Char)
        ensures
            r == (Char { code_point: 0x20, color }),
    {
        Char::new(0x20, color)
    }
}

/// The video modes the display can be switched to.
#[allow(non_camel_case_types)]
#[derive(Clone, Copy, PartialEq, Eq, Structural, Debug)]
pub enum VgaMode {
    TEXT_80x25,
    GFX_320x200,
}

impl VgaMode {
    /// The BIOS mode number of a video mode.
    pub open spec fn number(self) -> u8 {
        match self {
            VgaMode::TEXT_80x25 => 0x03,
            VgaMode::GFX_320x200 => 0x13,
        }
    }

    pub fn as_u8(self) -> (r: u8)
        ensures
            r == self.number(),
    {
        match self {
            VgaMode::TEXT_80x25 => 0x03,
            VgaMode::GFX_320x200 => 0x13,
        }
    }
}

/// One pixel of the graphics window: an index into the 256-entry palette.
#[derive(Clone, Copy, PartialEq, Eq, Structural, Debug)]
pub struct Pixel(pub u8);

impl Pixel {
    pub fn as_u8(self) -> (r: u8)
        ensures
            r == self.0,
    {
        self.0
    }

    pub fn from_u8(c: u8) -> (r: Pixel)
        ensures
            r.0 == c,
    {
        Pixel(c)
    }

    pub fn from_color(c: Color) -> (r: Pixel)
        ensures
            r.0 == c.index(),
    {
        Pixel::from_u8(c.as_u8())
    }

    pub fn new(c: u8) -> (r: Pixel)
        ensures
            r.0 == c,
    {
        Pixel(c)
    }
}

/// Index of the cell at column `x`, row `y` in a row-major text window.
pub open spec fn cell_index(x: int, y: int) -> int {
    y * SCREEN_WIDTH + x
}

/// Index of the pixel at column `x`, row `y` in the row-major graphics window.
pub open spec fn pixel_index(x: int, y: int) -> int {
    y * GFX_SCREEN_WIDTH + x
}

/// A window's cells with every row moved up by one; the bottom row stays.
pub open spec fn shifted_up(s: Seq<Char>) -> Seq<Char> {
    Seq::new(
        s.len(),
        |i: int|
            if i + SCREEN_WIDTH < s.len() {
                s[i + SCREEN_WIDTH]
            } else {
                s[i]
            },
    )
}

/// An 80x25 text window, one `Char` per cell, stored row by row.
pub struct ScreenBuffer {
    data: [Char; SCREEN_CELLS],
}

impl View for ScreenBuffer {
    type V = Seq<Char>;

    closed spec fn view(&self) -> Seq<Char> {
        self.data@
    }
}

/// Every text window holds exactly 80x25 cells.
pub broadcast proof fn lemma_screen_len(b: &ScreenBuffer)
    ensures
        #[trigger] b@.len() == SCREEN_CELLS,
{
}

impl ScreenBuffer {
    /// A window whose every cell is `c`.
    pub fn filled(c: Char) -> (r: ScreenBuffer)
        ensures
            r@ == Seq::new(SCREEN_CELLS as nat, |i: int| c),
    {
        let r = ScreenBuffer { data: [c; SCREEN_CELLS] };
        assert(r@ =~= Seq::new(SCREEN_CELLS as nat, |i: int| c));
        r
    }

    pub fn set_char(&mut self, x: usize, y: usize, c: Char)
        requires
            x < SCREEN_WIDTH,
            y < SCREEN_HEIGHT,
        ensures
            final(self)@ == old(self)@.update(cell_index(x as int, y as int), c),
    {
        self.data[y * SCREEN_WIDTH + x] = c;
    }

    pub fn get_char(&self, x: usize, y: usize) -> (r: Char)
        requires
            x < SCREEN_WIDTH,
            y < SCREEN_HEIGHT,
        ensures
            r == self@[cell_index(x as int, y as int)],
    {
        self.data[y * SCREEN_WIDTH + x]
    }

    pub fn get_bg_as_color(&self, x: usize, y: usize) -> (r: Color)
        requires
            x < SCREEN_WIDTH,
            y < SCREEN_HEIGHT,
        ensures
            r == Color::of_index(self@[cell_index(x as int, y as int)].color.bg() as int),
    {
        self.get_char(x, y).color.bg_as_color()
    }

    pub fn get_fg_as_color(&self, x: usize, y: usize) -> (r: Color)
        requires
            x < SCREEN_WIDTH,
            y < SCREEN_HEIGHT,
        ensures
            r == Color::of_index(self@[cell_index(x as int, y as int)].color.fg() as int),
    {
        self.get_char(x, y).color.fg_as_color()
    }

    pub fn get_bg_as_u8(&self, x: usize, y: usize) -> (r: u8)
        requires
            x < SCREEN_WIDTH,
            y < SCREEN_HEIGHT,
        ensures
            r == self@[cell_index(x as int, y as int)].color.bg(),
    {
        self.get_char(x, y).color.bg_as_u8()
    }

    pub fn get_fg_as_u8(&self, x: usize, y: usize) -> (r: u8)
        requires
            x < SCREEN_WIDTH,
            y < SCREEN_HEIGHT,
        ensures
            r == self@[cell_index(x as int, y as int)].color.fg(),
    {
        self.get_char(x, y).color.fg_as_u8()
    }

    pub fn get_ascii_char(&self, x: usize, y: usize) -> (r: u8)
        requires
            x < SCREEN_WIDTH,
            y < SCREEN_HEIGHT,
        ensures
            r == self@[cell_index(x as int, y as int)].code_point,
    {
        self.get_char(x, y).code_point
    }

    /// Moves rows 1 to 24 up by one row; the top row is lost and the bottom
    /// row keeps its cells.
    pub fn shift_rows_up(&mut self)
        ensures
            final(self)@ == shifted_up(old(self)@),
    {
        let ghost before = self@;
        let mut i: usize = 0;
        while i < SCREEN_CELLS - SCREEN_WIDTH
            invariant
                i <= SCREEN_CELLS - SCREEN_WIDTH,
                self@.len() == SCREEN_CELLS,
                before.len() == SCREEN_CELLS,
                forall|j: int| 0 <= j < i ==> self@[j] == before[j + SCREEN_WIDTH],
                forall|j: int| i <= j < SCREEN_CELLS ==> self@[j] == before[j],
            decreases SCREEN_CELLS - SCREEN_WIDTH - i,
        {
            self.data[i] = self.data[i + SCREEN_WIDTH];
            i += 1;
        }
        assert(self@ =~= shifted_up(before));
    }

    /// Copies every cell of this window into `dst`.
    pub fn copy_to(&self, dst: &mut ScreenBuffer)
        ensures
            final(dst)@ == self@,
    {
        dst.data = self.data;
    }
}

/// The 320x200 graphics window, one palette index per pixel, row by row.
pub struct GraphicsBuffer {
    pixels: [Pixel; GFX_SCREEN_PIXELS],
}

impl View for GraphicsBuffer {
    type V = Seq<Pixel>;

    closed spec fn view(&self) -> Seq<Pixel> {
        self.pixels@
    }
}

impl GraphicsBuffer {
    /// A graphics window whose every pixel is `pixel`.
    pub fn new(pixel: Pixel) -> (r: GraphicsBuffer)
        ensures
            r@ == Seq::new(GFX_SCREEN_PIXELS as nat, |i: int| pixel),
    {
        let r = GraphicsBuffer { pixels: [pixel; GFX_SCREEN_PIXELS] };
        assert(r@ =~= Seq::new(GFX_SCREEN_PIXELS as nat, |i: int| pixel));
        r
    }

    pub fn set_pixel(&mut self, x: usize, y: usize, pixel: Pixel)
        requires
            x < GFX_SCREEN_WIDTH,
            y < GFX_SCREEN_HEIGHT,
        ensures
            final(self)@ == old(self)@.update(pixel_index(x as int, y as int), pixel),
    {
        self.pixels[y * GFX_SCREEN_WIDTH + x] = pixel;
    }

    pub fn get_pixel(&self, x: usize, y: usize) -> (r: Pixel)
        requires
            x < GFX_SCREEN_WIDTH,
            y < GFX_SCREEN_HEIGHT,
        ensures
            r == self@[pixel_index(x as int, y as int)],
    {
        self.pixels[y * GFX_SCREEN_WIDTH + x]
    }

    /// Sets every pixel of the window to `pixel`.
    pub fn fill(&mut self, pixel: Pixel)
        ensures
            final(self)@ == Seq::new(GFX_SCREEN_PIXELS as nat, |i: int| pixel),
    {
        let mut i: usize = 0;
        while i < GFX_SCREEN_PIXELS
            invariant
                self@.len() == GFX_SCREEN_PIXELS,
                forall|j: int| 0 <= j < i ==> self@[j] == pixel,
            decreases GFX_SCREEN_PIXELS - i,
        {
            self.pixels[i] = pixel;
            i += 1;
        }
        assert(self@ =~= Seq::new(GFX_SCREEN_PIXELS as nat, |i: int| pixel));
    }
}

} // verus!
