//! ABI-exact SIMD vector and matrix primitives.
//!
//! The types here mirror the lane layout of a GPU shading language's built-in
//! vector and matrix types: two-, three- and four-lane float vectors, integer
//! vectors used as bit-pattern carriers, and column-major 3x3 and 4x4
//! matrices. Every float lane is held as the `u32` bit pattern of an
//! IEEE-754 binary32 value — exactly the lane content that an exchange with
//! GPU code carries — and the numeric kernels — elementwise arithmetic, dot
//! product, length, fast normalization through a refined reciprocal square
//! root, and bitwise selection and absolute value — are specified exactly
//! over those patterns.
//!
//! The byte-for-byte layout of the target ABI (16-byte groups, alignment,
//! padding slots) is documented per type as the convention being modeled:
//! these struct definitions carry the lane content and the padding slots,
//! but do not themselves pin a byte layout.

pub mod scalar;
pub mod types;
pub mod vector_types;

pub use crate::types::Float3x3;
pub use crate::types::Float4x4;

pub use crate::vector_types::Float2;
pub use crate::vector_types::Float3;
pub use crate::vector_types::Float4;
pub use crate::vector_types::Int3;
pub use crate::vector_types::Int4;
