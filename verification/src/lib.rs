//! Exact 3D linear algebra over the integers: column vectors of three and four
//! components and a column-major 4x4 matrix, with the transforms that build a
//! model/view chain.
//!
//! Every component is an `i64`. Every operation returns the exact mathematical
//! result, and asks of its caller only that this result can be represented.

pub mod exact;
pub mod laws;
pub mod mat4;
pub mod model;
pub mod vec3;
pub mod vec4;

pub use mat4::Mat4;
pub use vec3::Vec3;
pub use vec4::Vec4;
