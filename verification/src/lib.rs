//! PostgreSQL range values: a pair of bounds over an ordered element type,
//! its interval notation, and its binary wire form.

pub mod codec;
pub mod convert;
pub mod elements;
pub mod flags;
pub mod laws;
pub mod range;
pub mod scalars;
pub mod text;
pub mod types;

pub use codec::{DecodeError, ElementDecodeError, IsNull, WireElement};
pub use flags::RangeFlags;
pub use range::PgRange;
pub use types::{range_compatible, ElementKind, ElementType, TypeInfo, TypeKind};
