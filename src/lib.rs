//! Integer core of a Monte Carlo sphere ray tracer: the 8-bit colour model,
//! the depth-capped light-path accumulation, gamma quantisation of pixel
//! samples, and the raster layout and PPM text of the rendered image.
//!
//! Everything here is exact integer arithmetic and is verified. The
//! floating-point geometry (vectors, rays, spheres, camera, scattering
//! directions) lives with the application that drives the renderer.

pub mod color;
pub mod image;
pub mod integrator;
pub mod material;
pub mod sampling;
pub mod scene;
pub mod text;
