//! A Whitted-style ray tracer: geometric primitives, ray intersection,
//! recursive shading with shadows, reflection and refraction, and a camera
//! that renders a scene into a pixel canvas.
//!
//! All scalar arithmetic is fixed-point (see [`fx`]), so every numeric step
//! has an exact, machine-checked contract.

pub mod camera;
pub mod canvas;
pub mod color;
pub mod fx;
pub mod geometry;
pub mod intersection;
pub mod intersections;
pub mod light;
pub mod material;
pub mod matrix;
pub mod object;
pub mod ppm;
pub mod ray;
pub mod rng;
pub mod scene;
pub mod sphere;
pub mod texture;
pub mod transform;
pub mod trig;
pub mod tuple;
