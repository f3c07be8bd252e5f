//! Scene data and frame-level decisions of a GPU ray tracer.
//!
//! Floating-point values never take part in arithmetic here: they are carried
//! as their IEEE-754 bit patterns (`F32Bits`), which is exactly what the GPU
//! buffers receive.

pub mod bits;
pub mod cube;
pub mod sphere;
pub mod raytracing;
pub mod camera;
pub mod event_loop;
pub mod renderer;
