//! Two- and three-dimensional point types whose components are IEEE-754
//! double-precision values, carried as their 64-bit encodings so that the
//! component-wise arithmetic can be specified and verified.

pub mod fbits;
pub mod point2d;
pub mod point3d;

pub use point2d::Point2D;
pub use point3d::Point3D;
