//! Core of a software raytracer, split so that every decision the renderer
//! makes is stated and checked: exact color arithmetic on 8-bit channels,
//! deterministic nearest-hit selection over the total order on ray-distance
//! bit patterns, the hard-shadow rule, and the writes into an RGBA
//! framebuffer. The surrounding program evaluates the floating-point vector
//! algebra and hands this crate plain values.

pub mod camera;
pub mod math;
pub mod render;
pub mod world;

pub use camera::Camera;
pub use math::Quat;
pub use math::Vec3;
pub use world::Color;
pub use world::Object;
pub use world::Transform;
pub use world::World;
