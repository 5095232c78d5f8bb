//! The display list: the drawing primitives the renderers compose.
//!
//! A rendered chart is an ordered list of primitives in back-to-front order;
//! later primitives occlude earlier ones where they overlap. Rasterizing the
//! list happens outside the library. Axis tick primitives carry their raw
//! domain values (a timestamp, a log-price) so the boundary can format them
//! for display.

use vstd::prelude::*;
use crate::color::Rgb;

verus! {

/// One drawing primitive, in pixel coordinates (y grows downward).
#[derive(Clone, Debug)]
pub enum Primitive {
    /// A straight line segment.
    Line { x0: i64, y0: i64, x1: i64, y1: i64, color: Rgb },
    /// An axis-aligned filled rectangle between two opposite corners, with
    /// an opacity in percent.
    Rect { x0: i64, y0: i64, x1: i64, y1: i64, color: Rgb, alpha_pct: u8 },
    /// A filled triangle; the first point is the apex.
    Triangle { x0: i64, y0: i64, x1: i64, y1: i64, x2: i64, y2: i64, color: Rgb },
    /// A text label anchored at a point.
    Text { x: i64, y: i64, font_size: u32, color: Rgb, content: String },
    /// A time-axis tick: the boundary formats `time` (epoch milliseconds)
    /// into a calendar label drawn at the anchor point.
    TimeTick { x: i64, y: i64, time: i64 },
    /// A price-axis tick: the boundary converts `log_price` (micro-nats)
    /// back to a price and formats it, drawn at the anchor point.
    PriceTick { x: i64, y: i64, log_price: i64 },
}

} // verus!
