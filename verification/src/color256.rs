//! The 256-color palette.
//!
//! `ESC [ 38;5;n m` selects the foreground and `ESC [ 48;5;n m` the
//! background; `ESC [ 38;5;n1;48;5;n2 m` selects both.

use vstd::prelude::*;
use crate::printer::{c256_open, wrapped, ColorPrinter};

verus! {

/// Styling of a string in two colors of the 256-color palette.
pub trait ColorPrinter256 {
    /// The text in the given foreground and background. An index is not
    /// checked against the palette: it is written as it is.
    fn print_c256(&self, foreground: usize, background: usize) -> String;
}

impl ColorPrinter256 for String {
    fn print_c256(&self, foreground: usize, background: usize) -> (out: String)
        ensures
            out@ == wrapped(c256_open(foreground as nat, background as nat), self@),
    {
        ColorPrinter::print_c256(self.as_str(), foreground, background)
    }
}

} // verus!
