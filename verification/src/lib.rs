//! A verified weather-card rendering core.
//!
//! The library measures mixed-script text from glyph bounding boxes, decides
//! layout geometry for a small set of fixed templates, alpha-composites
//! translucent panels and icon bitmaps onto an RGBA canvas, and validates
//! that measured content fits its allotted space before anything is drawn,
//! failing with a typed error instead of aborting.
//!
//! Font rasterization, image decoding and encoding, and all I/O are left to
//! the caller: the core consumes plain values (glyph boxes, pixel buffers,
//! weather records) and hands back a composited canvas and a list of text
//! draw commands.

pub mod banner;
pub mod canvas;
pub mod color;
pub mod corner;
pub mod fit;
pub mod glyphs;
pub mod layout;
pub mod light;
pub mod textfmt;
pub mod weather_info;

pub use banner::{draw_bottom, draw_chinese_banner};
pub use canvas::Canvas;
pub use color::Rgba;
pub use corner::draw_corner;
pub use fit::{check_value, check_width, DrawError, Fixed};
pub use glyphs::{measure, GlyphBox};
pub use layout::{LayoutTemplate, TextDraw};
pub use light::draw_light;
pub use weather_info::WeatherInfo;
