//! Values and query rules of the shaping side.

pub mod assembly;
pub mod constant;
pub mod direction;
pub mod face;
pub mod kerning;
pub mod position;
pub mod stretch;

pub use assembly::{HBGlyphAssembly, HBGlyphAssemblyBuilder, HBGlyphPart};
pub use constant::HBMathConstant;
pub use direction::HBDirection;
pub use face::ShapeRequest;
pub use kerning::HBMathKern;
pub use position::{HBGlyphPosition, HBGlyphPositions};
pub use stretch::{HBGlyphVariant, HBGlyphVariantIter, StretchQuery};
