//! The capability interface every screen widget offers: sizing and the
//! dirty flag that gates repainting.

use vstd::prelude::*;
use crate::size::Size;

verus! {

/// A widget that can be resized and repainted. The concrete widgets carry
/// the exact contracts on their own methods; this interface only names the
/// shape shared by all of them, and each draws one row of text per visible
/// row when asked.
pub trait UIComponent {
    /// Replaces the widget's size.
    fn set_size(&mut self, size: Size);

    /// Sets or clears the dirty flag.
    fn mark_redraw(&mut self, redraw: bool);

    /// Whether the widget's visible content is stale.
    fn needs_redraw(&self) -> bool;

    /// Replaces the size and forces a repaint.
    fn resize(&mut self, size: Size);

    /// The rows of text to paint, top to bottom.
    fn draw(&mut self) -> Vec<String>;
}

} // verus!
