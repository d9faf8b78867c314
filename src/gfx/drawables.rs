//! The interface of things that draw themselves.
use vstd::prelude::*;
use crate::gfx::Display;

verus! {

/// Something that can draw itself into a display.
pub trait Drawable {
    fn draw_self(&self, d: &mut Display);
}

} // verus!
