//! A text-mode terminal screen: a grid of styled cells driven by VT escape
//! sequences, with bounded scrollback, and a renderer that turns what changed
//! into drawing commands for a 320x320 panel.
//!
//! - `color`, `grid`, `font`: colours, cells and rows, font metrics.
//! - `model`: the screen itself, its invariant, the scrollback and the view
//!   into it.
//! - `control`: what printing, C0 controls and CSI sequences do to a screen.
//! - `parser`: the `vte` parser in front of the screen.
//! - `render`, `boxdraw`, `draw`: the paint cycle and its drawing commands.
//! - `lemmas`: what holds of every screen.
//!
//! Every function is verified against its contract. Taken on trust are the
//! contracts of the few functions that call into `vte` and `profont`; each
//! says so where it stands.

pub mod boxdraw;
pub mod color;
pub mod control;
pub mod draw;
pub mod font;
pub mod grid;
pub mod lemmas;
pub mod model;
pub mod parser;
pub mod render;

pub use boxdraw::{draw_box_char, draw_shade};
pub use color::{Color, Rgb565};
pub use draw::DrawCommand;
pub use font::{Font, DEFAULT_FONT, FONT_COUNT, SCREEN_HEIGHT, SCREEN_WIDTH};
pub use grid::{Attrs, Cell, ScreenLine};
pub use model::{ScreenModel, MAX_SCROLLBACK};
pub use parser::{Screen, VtEvent};
