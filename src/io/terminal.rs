//! A scrolling text terminal writing into staging region B: bytes go on the
//! bottom row, and a newline scrolls the window up by one row.
use vstd::prelude::*;
use vstd::string::StringSliceAdditionalSpecFns;
use crate::gfx::{swap, Display};
use crate::gfx::vga::{
    cell_index, lemma_screen_len, shifted_up, Char, ColorCode, SCREEN_HEIGHT, SCREEN_WIDTH,
};

verus! {

broadcast use lemma_screen_len;

/// The row the terminal writes on.
pub const TERMINAL_ROW: usize = SCREEN_HEIGHT - 1;

/// Cells after the terminal row is cleared to `c`.
pub open spec fn with_last_row(s: Seq<Char>, c: Char) -> Seq<Char> {
    Seq::new(
        s.len(),
        |i: int|
            if cell_index(0, TERMINAL_ROW as int) <= i {
                c
            } else {
                s[i]
            },
    )
}

/// Cells after a newline: every row moves up and the bottom row is blank.
pub open spec fn new_line(s: Seq<Char>, color: ColorCode) -> Seq<Char> {
    with_last_row(shifted_up(s), Char { code_point: 0x20, color })
}

/// Column and cells after one byte other than a tab: a newline, or any byte
/// once the row is full, starts a new line (the byte itself is dropped);
/// another byte is written at the column, which advances.
pub open spec fn put_byte(col: nat, s: Seq<Char>, color: ColorCode, b: u8) -> (nat, Seq<Char>) {
    if b == 0x0a || col >= SCREEN_WIDTH {
        (0, new_line(s, color))
    } else {
        (col + 1, s.update(cell_index(col as int, TERMINAL_ROW as int), Char { code_point: b, color }))
    }
}

/// Column and cells after `n` spaces.
pub open spec fn put_spaces(col: nat, s: Seq<Char>, color: ColorCode, n: nat) -> (nat, Seq<Char>)
    decreases n,
{
    if n == 0 {
        (col, s)
    } else {
        let prev = put_spaces(col, s, color, (n - 1) as nat);
        put_byte(prev.0, prev.1, color, 0x20)
    }
}

/// Column and cells after one byte: a tab, while the row is not full, is
/// five spaces.
pub open spec fn print_byte(col: nat, s: Seq<Char>, color: ColorCode, b: u8) -> (nat, Seq<Char>) {
    if b == 0x09 && col < SCREEN_WIDTH {
        put_spaces(col, s, color, 5)
    } else {
        put_byte(col, s, color, b)
    }
}

/// Column and cells after the bytes of `text`, one by one.
pub open spec fn print_bytes(col: nat, s: Seq<Char>, color: ColorCode, text: Seq<u8>) -> (
    nat,
    Seq<Char>,
)
    decreases text.len(),
{
    if text.len() == 0 {
        (col, s)
    } else {
        let prev = print_bytes(col, s, color, text.drop_last());
        print_byte(prev.0, prev.1, color, text.last())
    }
}

/// The terminal's cursor column on the bottom row, and its colors.
pub struct Terminal {
    col: usize,
    color: ColorCode,
}

impl Terminal {
    #[verifier::type_invariant]
    spec fn col_in_range(&self) -> bool {
        self.col <= SCREEN_WIDTH
    }

    pub closed spec fn column(&self) -> nat {
        self.col as nat
    }

    pub closed spec fn color(&self) -> ColorCode {
        self.color
    }

    /// A terminal at the start of the bottom row, writing in `color`.
    pub fn new(color: ColorCode) -> (r: Terminal)
        ensures
            r.column() == 0,
            r.color() == color,
    {
        Terminal { col: 0, color: color }
    }

    /// Fills `row` of staging region B with blank cells in the terminal's colors.
    fn clearrow(&self, d: &mut Display, row: usize)
        requires
            row == TERMINAL_ROW,
        ensures
            final(d).staging_b@ == with_last_row(old(d).staging_b@, Char { code_point: 0x20, color: self.color() }),
            final(d).visible@ == old(d).visible@,
            final(d).scratch@ == old(d).scratch@,
            final(d).staging_a@ == old(d).staging_a@,
    {
        let ghost before = d.staging_b@;
        let blank = Char::blank(self.color);
        let mut col: usize = 0;
        while col < SCREEN_WIDTH
            invariant
                col <= SCREEN_WIDTH,
                row == TERMINAL_ROW,
                blank == (Char { code_point: 0x20, color: self.color() }),
                before == old(d).staging_b@,
                forall|i: int|
                    0 <= i < cell_index(0, row as int) ==> d.staging_b@[i] == before[i],
                forall|i: int|
                    cell_index(0, row as int) <= i < cell_index(col as int, row as int) ==> d.staging_b@[i] == blank,
                forall|i: int|
                    cell_index(col as int, row as int) <= i < SCREEN_WIDTH * SCREEN_HEIGHT ==> d.staging_b@[i] == before[i],
                d.visible@ == old(d).visible@,
                d.scratch@ == old(d).scratch@,
                d.staging_a@ == old(d).staging_a@,
            decreases SCREEN_WIDTH - col,
        {
            d.staging_b.set_char(col, row, blank);
            col += 1;
        }
        assert(d.staging_b@ =~= with_last_row(before, blank));
    }

    /// Scrolls staging region B up by one row, blanks the bottom row and
    /// returns to its first column.
    pub fn newline(&mut self, d: &mut Display)
        ensures
            final(d).staging_b@ == new_line(old(d).staging_b@, old(self).color()),
            final(self).column() == 0,
            final(self).color() == old(self).color(),
            final(d).visible@ == old(d).visible@,
            final(d).scratch@ == old(d).scratch@,
            final(d).staging_a@ == old(d).staging_a@,
    {
        d.staging_b.shift_rows_up();
        self.clearrow(d, TERMINAL_ROW);
        self.col = 0;
    }

    /// One byte other than a tab.
    fn put_u8(&mut self, d: &mut Display, b: u8)
        ensures
            (final(self).column(), final(d).staging_b@) == put_byte(
                old(self).column(),
                old(d).staging_b@,
                old(self).color(),
                b,
            ),
            final(self).color() == old(self).color(),
            final(d).visible@ == old(d).visible@,
            final(d).scratch@ == old(d).scratch@,
            final(d).staging_a@ == old(d).staging_a@,
    {
        proof {
            use_type_invariant(&*self);
        }
        if b == 0x0a || self.col >= SCREEN_WIDTH {
            self.newline(d);
        } else {
            d.staging_b.set_char(self.col, TERMINAL_ROW, Char::new(b, self.color));
            self.col += 1;
        }
    }

    /// Five spaces.
    pub fn tab(&mut self, d: &mut Display)
        ensures
            (final(self).column(), final(d).staging_b@) == put_spaces(
                old(self).column(),
                old(d).staging_b@,
                old(self).color(),
                5,
            ),
            final(self).color() == old(self).color(),
            final(d).visible@ == old(d).visible@,
            final(d).scratch@ == old(d).scratch@,
            final(d).staging_a@ == old(d).staging_a@,
    {
        let mut n: usize = 0;
        while n < 5
            invariant
                n <= 5,
                (self.column(), d.staging_b@) == put_spaces(
                    old(self).column(),
                    old(d).staging_b@,
                    old(self).color(),
                    n as nat,
                ),
                self.color() == old(self).color(),
                d.visible@ == old(d).visible@,
                d.scratch@ == old(d).scratch@,
                d.staging_a@ == old(d).staging_a@,
            decreases 5 - n,
        {
            self.put_u8(d, 0x20);
            n += 1;
        }
    }

    /// Writes one byte: see `print_byte`.
    pub fn print_u8(&mut self, d: &mut Display, b: u8)
        ensures
            (final(self).column(), final(d).staging_b@) == print_byte(
                old(self).column(),
                old(d).staging_b@,
                old(self).color(),
                b,
            ),
            final(self).color() == old(self).color(),
            final(d).visible@ == old(d).visible@,
            final(d).scratch@ == old(d).scratch@,
            final(d).staging_a@ == old(d).staging_a@,
    {
        if b == 0x09 && self.col < SCREEN_WIDTH {
            self.tab(d);
        } else {
            self.put_u8(d, b);
        }
    }

    /// Writes the bytes of `s` into staging region B, then swaps. The swap
    /// hands staging region B the previously visible frame, so what was
    /// written there is replaced; the column is where the bytes left it.
    pub fn print_str(&mut self, d: &mut Display, s: &str)
        ensures
            final(self).column() == print_bytes(
                old(self).column(),
                old(d).staging_b@,
                old(self).color(),
                s.spec_bytes(),
            ).0,
            final(self).color() == old(self).color(),
            final(d).scratch@ == old(d).visible@,
            final(d).visible@ == old(d).staging_a@,
            final(d).staging_b@ == old(d).visible@,
            final(d).staging_a@ == old(d).staging_a@,
    {
        let bytes = s.as_bytes();
        let mut i: usize = 0;
        while i < bytes.len()
            invariant
                bytes@ == s.spec_bytes(),
                i <= bytes@.len(),
                (self.column(), d.staging_b@) == print_bytes(
                    old(self).column(),
                    old(d).staging_b@,
                    old(self).color(),
                    bytes@.take(i as int),
                ),
                self.color() == old(self).color(),
                d.visible@ == old(d).visible@,
                d.scratch@ == old(d).scratch@,
                d.staging_a@ == old(d).staging_a@,
            decreases bytes@.len() - i,
        {
            proof {
                assert(bytes@.take(i + 1).drop_last() =~= bytes@.take(i as int));
            }
            self.print_u8(d, bytes[i]);
            i += 1;
        }
        proof {
            assert(bytes@.take(bytes@.len() as int) =~= bytes@);
        }
        swap(d);
    }
}

/// The cell at (`x`, `y`) of the terminal's window, staging region B.
pub fn get_char(d: &Display, x: usize, y: usize) -> (r: Char)
    requires
        x < SCREEN_WIDTH,
        y < SCREEN_HEIGHT,
    ensures
        r == d.staging_b@[cell_index(x as int, y as int)],
{
    d.staging_b.get_char(x, y)
}

/// Handle to the terminal as standard output.
pub struct StandardOut {
    _private: (),
}

impl StandardOut {
    pub fn get() -> StandardOut {
        StandardOut { _private: () }
    }
}

} // verus!
