//! Terminal text styling with ANSI/SGR escape sequences.
//!
//! A message is wrapped in a "set attributes" control sequence and a
//! "reset" control sequence, so that a terminal renders it in the chosen
//! colors. Three color spaces are covered: the 16 named colors, the
//! 256-entry palette and 24-bit RGB.

pub mod color;
pub mod color16;
pub mod color256;
pub mod decimal;
pub mod printer;
pub mod style;
