//! Index, sign and block structure of spatial (Plücker) vector algebra.
//!
//! Spatial motion and force vectors have six components: three rotational
//! ones followed by three translational ones. A spatial transform is a 6×6
//! matrix stored row-major in 36 slots, a rotation a 3×3 matrix in 9 slots,
//! and a translation a 3-vector. This crate fixes, and proves, where every
//! component of these quantities sits and which signed products of
//! components make up each operation; evaluating those products is left to
//! the caller's scalar type.
//!
//! - `basis`: the principal axes and the entries of elementary rotations.
//! - `layout`: how rotations and translations are embedded in a spatial
//!   transform and read back from it.
//! - `bilinear`: rows of signed products and their exact value.
//! - `algebra`: the rows of the dot product, of carrying motions and forces
//!   through a transform, of the two spatial cross products and of the 3×3
//!   and 6×6 matrix products.
//! - `laws` and `inverse`: what holds of these operations in exact
//!   arithmetic.
pub mod algebra;
pub mod basis;
pub mod bilinear;
pub mod inverse;
pub mod laws;
pub mod layout;

pub use basis::Basis;
