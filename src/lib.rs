//! Geometry primitives in three-dimensional space: points, vectors, planes,
//! lines, circles, intervals, polylines and boxes, all sharing one validity
//! protocol over an exact fixed-point scalar with explicit sentinels.

pub mod bounding_box;
pub mod circle;
pub mod interval;
pub mod line;
pub mod oriented_box;
pub mod plane;
pub mod point;
pub mod polyline;
pub mod scalar;
pub mod validity;
pub mod vector;

pub use bounding_box::BoundingBox;
pub use circle::Circle;
pub use interval::Interval;
pub use line::Line;
pub use oriented_box::Box;
pub use plane::Plane;
pub use point::Point3d;
pub use polyline::PolyLine;
pub use scalar::Scalar;
pub use validity::IsValid;
pub use vector::Vector3d;
