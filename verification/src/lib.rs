//! Bitmap font atlas: glyph geometry, atlas layout and the BMFont text descriptor.

pub mod bbox;
pub mod compositor;
pub mod decimal;
pub mod error;
pub mod font;
pub mod glyph;
pub mod glyphs;
pub mod render_settings;
pub mod rendered_glyph;
