//! Primitive value types for text shaping: four-byte tags that name font
//! tables, scripts, languages and features, and text-flow directions.

mod direction;
mod tag;

pub use direction::Direction;
pub use tag::Tag;
