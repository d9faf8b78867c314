//! Widget state kept apart from drawing: a scrollable list of text lines.
use vstd::prelude::*;
use crate::maths::{clamp_us, clamped};
use crate::gfx::vga::Color;

verus! {

/// A list of text lines shown in a window of `max_lines` lines, with a
/// scroll position and optional line numbers.
pub struct TextArea {
    x: usize,
    y: usize,
    idx: usize,
    max_lines: usize,
    max_cols: usize,
    text: Vec<String>,
    color: (Color, Color),
    use_line_no: bool,
}

impl TextArea {
    /// The lines held, in order.
    pub closed spec fn lines(&self) -> Seq<String> {
        self.text@
    }

    /// The scroll position.
    pub closed spec fn index(&self) -> nat {
        self.idx as nat
    }

    pub closed spec fn max_lines(&self) -> nat {
        self.max_lines as nat
    }

    pub closed spec fn shows_line_numbers(&self) -> bool {
        self.use_line_no
    }

    pub closed spec fn x(&self) -> usize {
        self.x
    }

    pub closed spec fn y(&self) -> usize {
        self.y
    }

    pub closed spec fn max_cols(&self) -> usize {
        self.max_cols
    }

    pub closed spec fn color(&self) -> (Color, Color) {
        self.color
    }

    /// Everything but the lines, the scroll position and the line-number
    /// switch is the same in `self` and `other`.
    pub open spec fn same_frame(&self, other: &TextArea) -> bool {
        &&& self.x() == other.x()
        &&& self.y() == other.y()
        &&& self.max_lines() == other.max_lines()
        &&& self.max_cols() == other.max_cols()
        &&& self.color() == other.color()
    }

    /// An empty text area at (`x`, `y`), scrolled to the top, with line
    /// numbers shown.
    pub fn new(x: usize, y: usize, max_lines: usize, max_cols: usize, color: (Color, Color)) -> (r:
        TextArea)
        ensures
            r.lines() == Seq::<String>::empty(),
            r.index() == 0,
            r.max_lines() == max_lines,
            r.shows_line_numbers(),
            r.x() == x,
            r.y() == y,
            r.max_cols() == max_cols,
            r.color() == color,
    {
        TextArea {
            x: x,
            y: y,
            idx: 0,
            max_lines: max_lines,
            max_cols: max_cols,
            text: Vec::new(),
            color: color,
            use_line_no: true,
        }
    }

    /// Scrolls to `idx`, limited to `max_lines`.
    pub fn set_index(&mut self, idx: usize)
        ensures
            final(self).index() == clamped(idx as int, 0, old(self).max_lines() as int),
            final(self).lines() == old(self).lines(),
            final(self).same_frame(&*old(self)),
            final(self).shows_line_numbers() == old(self).shows_line_numbers(),
    {
        self.idx = clamp_us(idx, 0, self.max_lines);
    }

    /// Removes the line at position `idx`.
    pub fn remove_index(&mut self, idx: usize)
        requires
            idx < old(self).lines().len(),
        ensures
            final(self).lines() == old(self).lines().remove(idx as int),
            final(self).index() == old(self).index(),
            final(self).same_frame(&*old(self)),
            final(self).shows_line_numbers() == old(self).shows_line_numbers(),
    {
        self.text.remove(idx);
    }

    /// Adds `line` after the last line.
    pub fn append_line(&mut self, line: String)
        ensures
            final(self).lines() == old(self).lines().push(line),
            final(self).index() == old(self).index(),
            final(self).same_frame(&*old(self)),
            final(self).shows_line_numbers() == old(self).shows_line_numbers(),
    {
        self.text.push(line);
    }

    /// Moves the scroll position by `dx` lines, limited to `max_lines`. The
    /// position is computed modulo 2^N for an N-bit `usize`, so scrolling up
    /// past the first line wraps round and lands on `max_lines`.
    pub fn scroll(&mut self, dx: isize)
        ensures
            final(self).index() == clamped(
                (old(self).index() + dx) % (usize::MAX as int + 1),
                0,
                old(self).max_lines() as int,
            ),
            final(self).lines() == old(self).lines(),
            final(self).same_frame(&*old(self)),
            final(self).shows_line_numbers() == old(self).shows_line_numbers(),
    {
        let target: usize = if dx >= 0 {
            self.idx.wrapping_add(dx as usize)
        } else {
            let magnitude: usize = ((-(dx + 1)) as usize) + 1;
            self.idx.wrapping_sub(magnitude)
        };
        self.set_index(target);
    }

    /// Number of lines held.
    pub fn size(&mut self) -> (r: usize)
        ensures
            r == old(self).lines().len(),
            final(self).lines() == old(self).lines(),
            final(self).index() == old(self).index(),
            final(self).same_frame(&*old(self)),
            final(self).shows_line_numbers() == old(self).shows_line_numbers(),
    {
        self.text.len()
    }

    pub fn enable_line_nos(&mut self)
        ensures
            final(self).shows_line_numbers(),
            final(self).lines() == old(self).lines(),
            final(self).index() == old(self).index(),
            final(self).same_frame(&*old(self)),
    {
        self.use_line_no = true;
    }

    pub fn disable_line_nos(&mut self)
        ensures
            !final(self).shows_line_numbers(),
            final(self).lines() == old(self).lines(),
            final(self).index() == old(self).index(),
            final(self).same_frame(&*old(self)),
    {
        self.use_line_no = false;
    }

    /// The lines a drawing shows, as a half-open range of positions: the
    /// last `max_lines` lines, or all of them when fewer are held.
    pub fn visible_range(&self) -> (r: (usize, usize))
        ensures
            r.1 == self.lines().len(),
            r.0 == if self.lines().len() > self.max_lines() {
                self.lines().len() - self.max_lines()
            } else {
                0
            },
    {
        let len = self.text.len();
        if len > self.max_lines {
            (len - self.max_lines, len)
        } else {
            (0, len)
        }
    }

    /// The line at position `i`.
    pub fn line(&self, i: usize) -> (r: &String)
        requires
            i < self.lines().len(),
        ensures
            *r == self.lines()[i as int],
    {
        &self.text[i]
    }

    pub fn line_numbers_enabled(&self) -> (r: bool)
        ensures
            r == self.shows_line_numbers(),
    {
        self.use_line_no
    }
}

} // verus!
