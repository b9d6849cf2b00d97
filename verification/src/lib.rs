//! A verified driver for the 25 x 80 VGA text-mode display.
//!
//! The driver renders ASCII bytes into a grid of character cells, each cell a
//! pair of a character byte and an attribute byte that packs a foreground and
//! a background colour. Every operation is total: a screen is always in a
//! valid state, and each method says exactly which state it leaves behind.
//!
//! The display never scrolls. Below the last row the cursor goes back to the
//! first row, whether a newline or a character in the last column sent it
//! there, and writing goes on over what the top of the screen held.

pub mod color;
pub mod model;
pub mod screen;
pub mod laws;
pub mod greeting;
