//! Verified core of a small graphics-math library: the column-major index
//! layout of a 4x4 matrix, packed hex color channel extraction, and the
//! swizzle (component reordering) machinery shared by the vector types.
//!
//! The scalar arithmetic of the library is IEEE-754 single precision and is
//! carried out by a thin unverified shell; everything discrete — where each
//! value lands in the 16-element matrix storage, which byte of a packed hex
//! word feeds which color channel, and which source component each swizzle
//! letter selects — is specified and proved here.

pub mod builders;
pub mod hex;
pub mod layout;
pub mod swizzle;
