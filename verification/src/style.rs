//! What a theme is made of before colours are resolved, and how a theme is
//! built.

use vstd::prelude::*;

verus! {

/// A style as a theme file writes it: the names of its two colours.
///
/// A name is either a key of the theme's colour table or a colour in its own
/// right; which one is decided when the theme is read.
#[derive(Clone, Debug, PartialEq, Eq, PartialOrd, Ord)]
pub struct Style {
    /// The foreground colour's name.
    pub fg: Option<String>,
    /// The background colour's name.
    pub bg: Option<String>,
}

impl Default for Style {
    /// The style without colours.
    fn default() -> (style: Style)
        ensures
            style.fg is None,
            style.bg is None,
    {
        Style { fg: None, bg: None }
    }
}

/// A theme that is built from a context, such as a set of colours.
///
/// The derive in [`crate::builder`] writes the implementation for a struct.
pub trait ThemeBuilder: Sized {
    /// What the theme is built from.
    type Context;

    /// Builds the theme from `context`.
    fn build(context: &Self::Context) -> Self;
}

} // verus!
