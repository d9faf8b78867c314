//! Drawing into the staging text window and presenting it with the
//! compositor's fixed three-step copy rotation.
pub mod drawables;
pub mod vga;
pub mod widgets;

use vstd::prelude::*;
use vstd::string::StringSliceAdditionalSpecFns;
use crate::gfx::vga::{
    attribute_of, cell_index, lemma_screen_len, Char, Color, ColorCode, ScreenBuffer,
    SCREEN_HEIGHT, SCREEN_WIDTH,
};

verus! {

broadcast use lemma_screen_len;

/// The four text windows the compositor works with.
pub struct Display {
    /// The text plane the hardware shows.
    pub visible: ScreenBuffer,
    /// The low part of graphics memory, used to hold the visible plane during a swap.
    pub scratch: ScreenBuffer,
    /// Staging region A: where drawing happens; shown by the next swap.
    pub staging_a: ScreenBuffer,
    /// Staging region B: receives the previously visible frame on each swap.
    pub staging_b: ScreenBuffer,
}

impl Display {
    /// A display whose four windows are all filled with `c`.
    pub fn new(c: Char) -> (r: Display)
        ensures
            r.visible@ == Seq::new(SCREEN_WIDTH as nat * SCREEN_HEIGHT as nat, |i: int| c),
            r.scratch@ == r.visible@,
            r.staging_a@ == r.visible@,
            r.staging_b@ == r.visible@,
    {
        Display {
            visible: ScreenBuffer::filled(c),
            scratch: ScreenBuffer::filled(c),
            staging_a: ScreenBuffer::filled(c),
            staging_b: ScreenBuffer::filled(c),
        }
    }
}

/// The cell drawn for glyph `chr` in colors (foreground, background).
pub open spec fn cell_of(chr: u8, colors: (Color, Color)) -> Char {
    Char { code_point: chr, color: ColorCode(attribute_of(colors.0.index(), colors.1.index()) as u8) }
}

/// Presents staging region A: the visible plane goes to the scratch window,
/// staging region A becomes visible, and the scratch window (the previously
/// visible frame) goes to staging region B.
pub fn swap(d: &mut Display)
    ensures
        final(d).scratch@ == old(d).visible@,
        final(d).visible@ == old(d).staging_a@,
        final(d).staging_b@ == old(d).visible@,
        final(d).staging_a@ == old(d).staging_a@,
{
    d.visible.copy_to(&mut d.scratch);
    d.staging_a.copy_to(&mut d.visible);
    d.scratch.copy_to(&mut d.staging_b);
}

/// Writes glyph `chr` in colors `fg` on `bg` at (`x`, `y`) of staging region A.
pub fn set_cell(d: &mut Display, x: usize, y: usize, chr: u8, fg: Color, bg: Color)
    requires
        x < SCREEN_WIDTH,
        y < SCREEN_HEIGHT,
    ensures
        final(d).staging_a@ == old(d).staging_a@.update(cell_index(x as int, y as int), cell_of(chr, (fg, bg))),
        final(d).visible@ == old(d).visible@,
        final(d).scratch@ == old(d).scratch@,
        final(d).staging_b@ == old(d).staging_b@,
{
    d.staging_a.set_char(x, y, Char::new(chr, ColorCode::from_colors(fg, bg)));
}

/// Paints a blank cell in `fg` on `bg` at (`x`, `y`) of staging region A.
pub fn set_cell_color(d: &mut Display, x: usize, y: usize, fg: Color, bg: Color)
    requires
        x < SCREEN_WIDTH,
        y < SCREEN_HEIGHT,
    ensures
        final(d).staging_a@ == old(d).staging_a@.update(cell_index(x as int, y as int), cell_of(0x20, (fg, bg))),
        final(d).visible@ == old(d).visible@,
        final(d).scratch@ == old(d).scratch@,
        final(d).staging_b@ == old(d).staging_b@,
{
    set_cell(d, x, y, 0x20, fg, bg);
}

/// Background color of the cell at (`x`, `y`) of staging region A.
pub fn get_bg(d: &Display, x: usize, y: usize) -> (r: Color)
    requires
        x < SCREEN_WIDTH,
        y < SCREEN_HEIGHT,
    ensures
        r == Color::of_index(d.staging_a@[cell_index(x as int, y as int)].color.bg() as int),
{
    d.staging_a.get_bg_as_color(x, y)
}

/// Fills staging region A with blank cells, white on `color`.
pub fn clear(d: &mut Display, color: Color)
    ensures
        final(d).staging_a@ == Seq::new(
            SCREEN_WIDTH as nat * SCREEN_HEIGHT as nat,
            |i: int| cell_of(0x20, (Color::White, color)),
        ),
        final(d).visible@ == old(d).visible@,
        final(d).scratch@ == old(d).scratch@,
        final(d).staging_b@ == old(d).staging_b@,
{
    d.staging_a = ScreenBuffer::filled(Char::blank(ColorCode::from_colors(Color::White, color)));
}

/// Same as `set_cell`.
pub fn draw(d: &mut Display, x: usize, y: usize, chr: u8, fg: Color, bg: Color)
    requires
        x < SCREEN_WIDTH,
        y < SCREEN_HEIGHT,
    ensures
        final(d).staging_a@ == old(d).staging_a@.update(cell_index(x as int, y as int), cell_of(chr, (fg, bg))),
        final(d).visible@ == old(d).visible@,
        final(d).scratch@ == old(d).scratch@,
        final(d).staging_b@ == old(d).staging_b@,
{
    set_cell(d, x, y, chr, fg, bg)
}

/// Colors (foreground, background) after the color escape byte `b`:
/// 0x00-0x0F selects the background, 0x10-0x1F the foreground, by the low
/// nibble.
pub open spec fn apply_escape(b: u8, colors: (Color, Color)) -> (Color, Color) {
    if b <= 0x0f {
        (colors.0, Color::of_index(b as int))
    } else if b <= 0x1f {
        (Color::of_index(b as int % 16), colors.1)
    } else {
        colors
    }
}

/// Column, row and colors in effect after walking `text` from (`x`, `y`)
/// with `colors`: a newline returns to column `x` on the next row, a color
/// escape changes the colors, any other byte advances one column.
pub open spec fn cursor_after(x: int, y: int, colors: (Color, Color), text: Seq<u8>) -> (
    int,
    int,
    (Color, Color),
)
    decreases text.len(),
{
    if text.len() == 0 {
        (x, y, colors)
    } else {
        let prev = cursor_after(x, y, colors, text.drop_last());
        let b = text.last();
        if b == 0x0a {
            (x, prev.1 + 1, prev.2)
        } else if b <= 0x1f {
            (prev.0, prev.1, apply_escape(b, prev.2))
        } else {
            (prev.0 + 1, prev.1, prev.2)
        }
    }
}

/// Every glyph of `text`, drawn from (`x`, `y`), lands inside the window.
pub open spec fn fits_window(x: int, y: int, colors: (Color, Color), text: Seq<u8>) -> bool {
    forall|k: int|
        0 <= k < text.len() && text[k] > 0x1f ==> {
            let c = #[trigger] cursor_after(x, y, colors, text.take(k));
            0 <= c.0 < SCREEN_WIDTH && 0 <= c.1 < SCREEN_HEIGHT
        }
}

/// The cells of `buf` after `text` is drawn into it from (`x`, `y`) with
/// `colors`: each glyph is written at the cursor in the colors in effect.
pub open spec fn drawn(buf: Seq<Char>, x: int, y: int, colors: (Color, Color), text: Seq<u8>) -> Seq<
    Char,
>
    decreases text.len(),
{
    if text.len() == 0 {
        buf
    } else {
        let prev = drawn(buf, x, y, colors, text.drop_last());
        let c = cursor_after(x, y, colors, text.drop_last());
        let b = text.last();
        if b <= 0x1f {
            prev
        } else {
            prev.update(cell_index(c.0, c.1), cell_of(b, c.2))
        }
    }
}

fn is_color_escape(chr: u8) -> (r: bool)
    ensures
        r == (chr <= 0x1f),
{
    chr <= 0x1f
}

fn escape_code_to_color_tuple(chr: u8, active_colors: (Color, Color)) -> (r: (Color, Color))
    ensures
        r == apply_escape(chr, active_colors),
{
    let mut mut_colors = active_colors;
    if chr <= 0x0f {
        mut_colors.1 = Color::from_u8(chr & 0x0f);
    }
    if chr >= 0x10 && chr <= 0x1f {
        mut_colors.0 = Color::from_u8(chr & 0x0f);
    }
    assert(chr & 0x0fu8 == chr % 16) by (bit_vector);
    mut_colors
}

/// Draws `text` into staging region A from (`x`, `y`), starting in
/// `color` = (foreground, background); see `drawn` and `cursor_after`.
pub fn draw_string(d: &mut Display, x: usize, y: usize, text: &str, color: (Color, Color))
    requires
        fits_window(x as int, y as int, color, text.spec_bytes()),
    ensures
        final(d).staging_a@ == drawn(old(d).staging_a@, x as int, y as int, color, text.spec_bytes()),
        final(d).visible@ == old(d).visible@,
        final(d).scratch@ == old(d).scratch@,
        final(d).staging_b@ == old(d).staging_b@,
{
    let bytes = text.as_bytes();
    let ghost all = bytes@;
    let mut mut_y: usize = y;
    let mut mut_x: usize = x;
    let mut mut_color = color;
    let mut i: usize = 0;
    while i < bytes.len()
        invariant
            bytes@ == all,
            all == text.spec_bytes(),
            0 <= i <= all.len(),
            fits_window(x as int, y as int, color, all),
            ({
                let c = cursor_after(x as int, y as int, color, all.take(i as int));
                &&& mut_x == c.0
                &&& (mut_y == c.1 || (mut_y == usize::MAX && c.1 >= usize::MAX))
                &&& mut_color == c.2
            }),
            d.staging_a@ == drawn(old(d).staging_a@, x as int, y as int, color, all.take(i as int)),
            d.visible@ == old(d).visible@,
            d.scratch@ == old(d).scratch@,
            d.staging_b@ == old(d).staging_b@,
        decreases all.len() - i,
    {
        let chr = bytes[i];
        proof {
            assert(all.take(i + 1).drop_last() =~= all.take(i as int));
            assert(all.take(i + 1).last() == chr);
        }
        if chr == 0x0a {
            // Past the last row nothing more can be drawn, so the row stops counting there.
            if mut_y < usize::MAX {
                mut_y += 1;
            }
            mut_x = x;
        } else if is_color_escape(chr) {
            mut_color = escape_code_to_color_tuple(chr, mut_color);
        } else {
            proof {
                assert(all[i as int] > 0x1f);
                let c = cursor_after(x as int, y as int, color, all.take(i as int));
                assert(0 <= c.0 < SCREEN_WIDTH && 0 <= c.1 < SCREEN_HEIGHT);
            }
            draw(d, mut_x, mut_y, chr, mut_color.0, mut_color.1);
            mut_x += 1;
        }
        i += 1;
    }
    proof {
        assert(all.take(all.len() as int) =~= all);
    }
}

/// Whether every glyph of `text`, drawn from (`x`, `y`), lands inside the
/// window: the condition `draw_string` requires.
pub fn string_fits(x: usize, y: usize, text: &str, color: (Color, Color)) -> (r: bool)
    ensures
        r == fits_window(x as int, y as int, color, text.spec_bytes()),
{
    let bytes = text.as_bytes();
    let ghost all = bytes@;
    let mut mut_y: usize = y;
    let mut mut_x: usize = x;
    let mut mut_color = color;
    let mut i: usize = 0;
    while i < bytes.len()
        invariant
            bytes@ == all,
            all == text.spec_bytes(),
            0 <= i <= all.len(),
            forall|k: int|
                0 <= k < i && all[k] > 0x1f ==> {
                    let c = #[trigger] cursor_after(x as int, y as int, color, all.take(k));
                    0 <= c.0 < SCREEN_WIDTH && 0 <= c.1 < SCREEN_HEIGHT
                },
            ({
                let c = cursor_after(x as int, y as int, color, all.take(i as int));
                &&& mut_x == c.0
                &&& (mut_y == c.1 || (mut_y == usize::MAX && c.1 >= usize::MAX))
                &&& mut_color == c.2
            }),
        decreases all.len() - i,
    {
        let chr = bytes[i];
        proof {
            assert(all.take(i + 1).drop_last() =~= all.take(i as int));
            assert(all.take(i + 1).last() == chr);
        }
        if chr == 0x0a {
            if mut_y < usize::MAX {
                mut_y += 1;
            }
            mut_x = x;
        } else if is_color_escape(chr) {
            mut_color = escape_code_to_color_tuple(chr, mut_color);
        } else {
            if mut_x >= SCREEN_WIDTH || mut_y >= SCREEN_HEIGHT {
                proof {
                    assert(all[i as int] > 0x1f);
                    let c = cursor_after(x as int, y as int, color, all.take(i as int));
                    assert(!(0 <= c.0 < SCREEN_WIDTH && 0 <= c.1 < SCREEN_HEIGHT));
                }
                return false;
            }
            mut_x += 1;
        }
        i += 1;
    }
    true
}

/// Newlines in `s`.
pub open spec fn newlines(s: Seq<u8>) -> int
    decreases s.len(),
{
    if s.len() == 0 {
        0
    } else {
        newlines(s.drop_last()) + if s.last() == 0x0a {
            1int
        } else {
            0int
        }
    }
}

/// Bytes of `s` after its last newline.
pub open spec fn column_offset(s: Seq<u8>) -> int
    decreases s.len(),
{
    if s.len() == 0 {
        0
    } else if s.last() == 0x0a {
        0
    } else {
        column_offset(s.drop_last()) + 1
    }
}

/// Without color escapes, `draw_string` puts each character one column
/// right of the previous one, starting at (`x`, `y`), and a newline moves
/// to column `x` of the next row: the byte at position `k` is drawn at
/// column `x` plus the bytes since the last newline before it, on row `y`
/// plus the newlines before it, in the starting colors.
pub proof fn lemma_plain_text_layout(
    x: int,
    y: int,
    colors: (Color, Color),
    text: Seq<u8>,
    k: int,
)
    requires
        forall|j: int| 0 <= j < text.len() ==> text[j] == 0x0a || text[j] > 0x1f,
        0 <= k <= text.len(),
    ensures
        cursor_after(x, y, colors, text.take(k)) == (
            x + column_offset(text.take(k)),
            y + newlines(text.take(k)),
            colors,
        ),
    decreases k,
{
    if k > 0 {
        lemma_plain_text_layout(x, y, colors, text, k - 1);
        assert(text.take(k).drop_last() =~= text.take(k - 1));
    }
}

/// While every glyph fits, drawing never changes the number of cells.
proof fn lemma_drawn_len(
    buf: Seq<Char>,
    x: int,
    y: int,
    colors: (Color, Color),
    text: Seq<u8>,
    j: int,
)
    requires
        fits_window(x, y, colors, text),
        buf.len() == SCREEN_WIDTH * SCREEN_HEIGHT,
        0 <= j <= text.len(),
    ensures
        drawn(buf, x, y, colors, text.take(j)).len() == buf.len(),
    decreases j,
{
    if j > 0 {
        lemma_drawn_len(buf, x, y, colors, text, j - 1);
        assert(text.take(j).drop_last() =~= text.take(j - 1));
        assert(text.take(j).last() == text[j - 1]);
        let c = cursor_after(x, y, colors, text.take(j - 1));
        if text[j - 1] > 0x1f {
            assert(0 <= c.0 < SCREEN_WIDTH && 0 <= c.1 < SCREEN_HEIGHT);
        }
    }
}

/// The cursor never moves left of its starting column.
proof fn lemma_cursor_from_x(x: int, y: int, colors: (Color, Color), text: Seq<u8>, j: int)
    requires
        0 <= j <= text.len(),
    ensures
        x <= cursor_after(x, y, colors, text.take(j)).0,
    decreases j,
{
    if j > 0 {
        lemma_cursor_from_x(x, y, colors, text, j - 1);
        assert(text.take(j).drop_last() =~= text.take(j - 1));
    }
}

/// While every glyph fits, the cursor column stays within one past the
/// last column.
proof fn lemma_cursor_bounds(x: int, y: int, colors: (Color, Color), text: Seq<u8>, j: int)
    requires
        0 <= x < SCREEN_WIDTH,
        fits_window(x, y, colors, text),
        0 <= j <= text.len(),
    ensures
        cursor_after(x, y, colors, text.take(j)).0 <= SCREEN_WIDTH,
    decreases j,
{
    if j > 0 {
        lemma_cursor_bounds(x, y, colors, text, j - 1);
        assert(text.take(j).drop_last() =~= text.take(j - 1));
        assert(text.take(j).last() == text[j - 1]);
        let c = cursor_after(x, y, colors, text.take(j - 1));
        if text[j - 1] > 0x1f {
            assert(0 <= c.0 < SCREEN_WIDTH);
        }
    }
}

/// While every glyph fits, the cell under the cursor only moves forward.
proof fn lemma_cursor_monotone(
    x: int,
    y: int,
    colors: (Color, Color),
    text: Seq<u8>,
    k: int,
    j: int,
)
    requires
        0 <= x < SCREEN_WIDTH,
        fits_window(x, y, colors, text),
        0 <= k <= j <= text.len(),
    ensures
        ({
            let a = cursor_after(x, y, colors, text.take(k));
            let b = cursor_after(x, y, colors, text.take(j));
            cell_index(a.0, a.1) <= cell_index(b.0, b.1)
        }),
    decreases j - k,
{
    if j > k {
        lemma_cursor_monotone(x, y, colors, text, k, j - 1);
        lemma_cursor_bounds(x, y, colors, text, j - 1);
        assert(text.take(j).drop_last() =~= text.take(j - 1));
    }
}

/// A glyph, once drawn, is not overwritten by the rest of the text.
proof fn lemma_glyph_kept(
    buf: Seq<Char>,
    x: int,
    y: int,
    colors: (Color, Color),
    text: Seq<u8>,
    k: int,
    j: int,
)
    requires
        0 <= x < SCREEN_WIDTH,
        fits_window(x, y, colors, text),
        buf.len() == SCREEN_WIDTH * SCREEN_HEIGHT,
        0 <= k < j <= text.len(),
        text[k] > 0x1f,
    ensures
        ({
            let c = cursor_after(x, y, colors, text.take(k));
            drawn(buf, x, y, colors, text.take(j))[cell_index(c.0, c.1)] == cell_of(text[k], c.2)
        }),
    decreases j - k,
{
    let c = cursor_after(x, y, colors, text.take(k));
    assert(0 <= c.0 < SCREEN_WIDTH && 0 <= c.1 < SCREEN_HEIGHT);
    lemma_drawn_len(buf, x, y, colors, text, k);
    assert(text.take(k + 1).drop_last() =~= text.take(k));
    assert(text.take(k + 1).last() == text[k]);
    let next = cursor_after(x, y, colors, text.take(k + 1));
    assert(cell_index(next.0, next.1) == cell_index(c.0, c.1) + 1);
    if j > k + 1 {
        lemma_glyph_kept(buf, x, y, colors, text, k, j - 1);
        lemma_drawn_len(buf, x, y, colors, text, j - 1);
        assert(text.take(j).drop_last() =~= text.take(j - 1));
        assert(text.take(j).last() == text[j - 1]);
        lemma_cursor_monotone(x, y, colors, text, k + 1, j - 1);
        let w = cursor_after(x, y, colors, text.take(j - 1));
        if text[j - 1] > 0x1f {
            assert(0 <= w.0 < SCREEN_WIDTH && 0 <= w.1 < SCREEN_HEIGHT);
            assert(cell_index(w.0, w.1) != cell_index(c.0, c.1));
        }
    }
}

/// Text without color escapes is drawn character by character at
/// sequential columns from (`x`, `y`), a newline moving to column `x` of
/// the next row: after `draw_string`, the cell at column `x` plus the bytes
/// since the last newline before position `k`, on row `y` plus the newlines
/// before it, holds the byte at `k` in the starting colors.
pub proof fn lemma_plain_text_drawn(
    buf: Seq<Char>,
    x: int,
    y: int,
    colors: (Color, Color),
    text: Seq<u8>,
    k: int,
)
    requires
        0 <= x,
        0 <= y,
        buf.len() == SCREEN_WIDTH * SCREEN_HEIGHT,
        forall|j: int| 0 <= j < text.len() ==> text[j] == 0x0a || text[j] > 0x1f,
        fits_window(x, y, colors, text),
        0 <= k < text.len(),
        text[k] != 0x0a,
    ensures
        drawn(buf, x, y, colors, text)[cell_index(
            x + column_offset(text.take(k)),
            y + newlines(text.take(k)),
        )] == cell_of(text[k], colors),
{
    lemma_plain_text_layout(x, y, colors, text, k);
    lemma_cursor_from_x(x, y, colors, text, k);
    let c = cursor_after(x, y, colors, text.take(k));
    assert(text[k] > 0x1f);
    assert(0 <= c.0 < SCREEN_WIDTH);
    lemma_glyph_kept(buf, x, y, colors, text, k, text.len() as int);
    assert(text.take(text.len() as int) =~= text);
}

/// Fills the `w` x `h` rectangle at (`x`, `y`) of staging region A with
/// blank cells on `color`.
pub fn draw_rect(d: &mut Display, x: usize, y: usize, w: usize, h: usize, color: Color)
    requires
        x + w <= SCREEN_WIDTH,
        y + h <= SCREEN_HEIGHT,
    ensures
        forall|col: int, row: int|
            0 <= col < SCREEN_WIDTH && 0 <= row < SCREEN_HEIGHT ==> #[trigger] final(d).staging_a@[cell_index(col, row)] == if x <= col < x + w && y <= row < y + h {
                cell_of(0x20, (Color::Black, color))
            } else {
                old(d).staging_a@[cell_index(col, row)]
            },
        final(d).visible@ == old(d).visible@,
        final(d).scratch@ == old(d).scratch@,
        final(d).staging_b@ == old(d).staging_b@,
{
    let ghost before = d.staging_a@;
    let mut row: usize = y;
    while row < y + h
        invariant
            y <= row <= y + h,
            x + w <= SCREEN_WIDTH,
            y + h <= SCREEN_HEIGHT,
            before == old(d).staging_a@,
            forall|col: int, r: int|
                0 <= col < SCREEN_WIDTH && 0 <= r < SCREEN_HEIGHT ==> #[trigger] d.staging_a@[cell_index(col, r)] == if x <= col < x + w && y <= r < row {
                    cell_of(0x20, (Color::Black, color))
                } else {
                    before[cell_index(col, r)]
                },
            d.visible@ == old(d).visible@,
            d.scratch@ == old(d).scratch@,
            d.staging_b@ == old(d).staging_b@,
        decreases y + h - row,
    {
        let mut col: usize = x;
        while col < x + w
            invariant
                y <= row < y + h,
                x <= col <= x + w,
                x + w <= SCREEN_WIDTH,
                y + h <= SCREEN_HEIGHT,
                before == old(d).staging_a@,
                forall|c: int, r: int|
                    0 <= c < SCREEN_WIDTH && 0 <= r < SCREEN_HEIGHT ==> #[trigger] d.staging_a@[cell_index(c, r)] == if x <= c < x + w && (y <= r < row || (r == row && c < col)) {
                        cell_of(0x20, (Color::Black, color))
                    } else {
                        before[cell_index(c, r)]
                    },
                d.visible@ == old(d).visible@,
                d.scratch@ == old(d).scratch@,
                d.staging_b@ == old(d).staging_b@,
            decreases x + w - col,
        {
            draw(d, col, row, 0x20, Color::Black, color);
            proof {
                assert forall|c: int, r: int|
                    0 <= c < SCREEN_WIDTH && 0 <= r < SCREEN_HEIGHT implies #[trigger] cell_index(c, r) == cell_index(col as int, row as int) <==> (c == col && r == row) by {
                    if cell_index(c, r) == cell_index(col as int, row as int) {
                        assert(r * 80 + c == row * 80 + col);
                        if r < row {
                            assert(r * 80 + 80 <= row * 80) by (nonlinear_arith)
                                requires r < row;
                        } else if r > row {
                            assert(row * 80 + 80 <= r * 80) by (nonlinear_arith)
                                requires row < r;
                        }
                    }
                }
            }
            col += 1;
        }
        row += 1;
    }
}

/// Draws strings at a fixed position in fixed starting colors.
pub struct VgaWriter {
    x: usize,
    y: usize,
    color: (Color, Color),
}

impl VgaWriter {
    pub closed spec fn x(&self) -> usize {
        self.x
    }

    pub closed spec fn y(&self) -> usize {
        self.y
    }

    pub closed spec fn color(&self) -> (Color, Color) {
        self.color
    }

    pub fn new(x: usize, y: usize, color: (Color, Color)) -> (r: VgaWriter)
        ensures
            r.x() == x,
            r.y() == y,
            r.color() == color,
    {
        VgaWriter { x, y, color }
    }

    /// Draws `text` at the writer's position, as `draw_string` does.
    pub fn print_str(&self, d: &mut Display, text: &str)
        requires
            fits_window(self.x() as int, self.y() as int, self.color(), text.spec_bytes()),
        ensures
            final(d).staging_a@ == drawn(
                old(d).staging_a@,
                self.x() as int,
                self.y() as int,
                self.color(),
                text.spec_bytes(),
            ),
            final(d).visible@ == old(d).visible@,
            final(d).scratch@ == old(d).scratch@,
            final(d).staging_b@ == old(d).staging_b@,
    {
        draw_string(d, self.x, self.y, text, self.color);
    }
}

/// `text` preceded by the color escape byte `code`.
pub fn prefixed(code: u8, text: &str) -> (r: Vec<u8>)
    ensures
        r@ == seq![code] + text.spec_bytes(),
{
    let bytes = text.as_bytes();
    let mut out: Vec<u8> = Vec::new();
    out.push(code);
    let mut i: usize = 0;
    while i < bytes.len()
        invariant
            bytes@ == text.spec_bytes(),
            i <= bytes@.len(),
            out@ == seq![code] + bytes@.take(i as int),
        decreases bytes@.len() - i,
    {
        out.push(bytes[i]);
        i += 1;
        proof {
            assert(bytes@.take(i as int) =~= bytes@.take(i - 1).push(bytes@[i - 1]));
        }
    }
    proof {
        assert(bytes@.take(bytes@.len() as int) =~= bytes@);
    }
    out
}

/// Text drawn on a black background: its bytes start with the escape byte
/// 0x00.
pub struct Black(&'static str);

impl Black {
    pub closed spec fn text(&self) -> &'static str {
        self.0
    }

    pub fn new(s: &'static str) -> (r: Black)
        ensures
            r.text() == s,
    {
        Black(s)
    }

    /// The escape byte followed by the text.
    pub fn to_bytes(&self) -> (r: Vec<u8>)
        ensures
            r@ == seq![0x00u8] + self.text().spec_bytes(),
    {
        prefixed(0x00, self.0)
    }
}

/// Text drawn on a blue background: its bytes start with the escape byte
/// 0x01.
pub struct Blue(&'static str);

impl Blue {
    pub closed spec fn text(&self) -> &'static str {
        self.0
    }

    pub fn new(s: &'static str) -> (r: Blue)
        ensures
            r.text() == s,
    {
        Blue(s)
    }

    /// The escape byte followed by the text.
    pub fn to_bytes(&self) -> (r: Vec<u8>)
        ensures
            r@ == seq![0x01u8] + self.text().spec_bytes(),
    {
        prefixed(0x01, self.0)
    }
}

/// Text drawn on a green background: its bytes start with the escape byte
/// 0x02.
pub struct Green(&'static str);

impl Green {
    pub closed spec fn text(&self) -> &'static str {
        self.0
    }

    pub fn new(s: &'static str) -> (r: Green)
        ensures
            r.text() == s,
    {
        Green(s)
    }

    /// The escape byte followed by the text.
    pub fn to_bytes(&self) -> (r: Vec<u8>)
        ensures
            r@ == seq![0x02u8] + self.text().spec_bytes(),
    {
        prefixed(0x02, self.0)
    }
}

/// Text drawn on a cyan background: its bytes start with the escape byte
/// 0x03.
pub struct Cyan(&'static str);

impl Cyan {
    pub closed spec fn text(&self) -> &'static str {
        self.0
    }

    pub fn new(s: &'static str) -> (r: Cyan)
        ensures
            r.text() == s,
    {
        Cyan(s)
    }

    /// The escape byte followed by the text.
    pub fn to_bytes(&self) -> (r: Vec<u8>)
        ensures
            r@ == seq![0x03u8] + self.text().spec_bytes(),
    {
        prefixed(0x03, self.0)
    }
}

} // verus!
