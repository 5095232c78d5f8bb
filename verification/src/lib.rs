//! Candlestick chart rendering engine.
//!
//! Given a time series of open/high/low/close/volume records plus optional
//! positional markers, the library computes a geometric layout and composes a
//! display list of drawing primitives for a logarithmic-scale price chart with
//! a volume overlay, grid lines, markers, and a summary statistics table.
//! Rasterizing the display list and all transport I/O happen outside the
//! library.

pub mod color;
pub mod model;
pub mod layout;
pub mod marker;
pub mod normalize;
pub mod render;
pub mod scale;
pub mod scene;
pub mod series;
pub mod summary;
