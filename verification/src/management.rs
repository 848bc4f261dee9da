//! Interface of the auxiliary windows the presentation layer may open. The
//! presentation layer lives outside this crate and supplies the
//! implementations, so the interface promises nothing Verus could check; it
//! only fixes the shape every window must offer.

use vstd::prelude::*;

verus! {

/// An auxiliary window with a visibility flag and an optional title bar.
pub trait ExtraWindow {
    /// Renders the window; rendering may flip visibility when the user closes
    /// the window.
    fn show(&mut self);

    /// Sets whether the window is visible.
    fn set_visibility(&mut self, visibility: bool);

    /// Sets whether the window shows a title bar.
    fn set_title_bar(&mut self, title_bar: bool);

    /// Reports whether the window is visible.
    fn check_visibility(&self) -> bool;
}

} // verus!
