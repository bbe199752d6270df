//! A large, segment-style terminal clock and stopwatch: the display text, its
//! symbols and glyphs, the layout on the terminal grid, the frame that is drawn,
//! and the states of the refresh loop.

pub mod text;
pub mod duration;
pub mod symbols;
pub mod layout;
pub mod glyphs;
pub mod color;
pub mod render;
pub mod clock;
pub mod run_loop;
pub mod frame;
