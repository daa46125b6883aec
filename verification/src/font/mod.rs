pub mod parser;
pub mod text;

pub use parser::{Font, FontError, FontView, Glyph};
