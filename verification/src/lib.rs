//! Verified core of a GPU renderer for animated quadratic-curve paths.
//!
//! The crate holds the decisions of the renderer and none of its GPU calls:
//! which buffers a shape needs and when they are replaced, what is uploaded
//! in a frame, in which order the passes run, how an animation moves from one
//! shape to another. Coordinates, colours, matrices and GPU handles are the
//! caller's; they pass through as type parameters.
//!
//! - [`latch`]: a value that remembers whether it was written.
//! - [`path`]: outlines as sequences of control points; generators and
//!   resampling.
//! - [`buffers`]: buffer sizes and the rule for replacing a buffer.
//! - [`shape`]: a shape and the record of its buffers.
//! - [`easing`] and [`animation`]: blending from one shape to another over
//!   time.
//! - [`scene`]: the shapes that are drawn and the animation that plays.
//! - [`renderer`], [`pipeline`] and [`bindgroup`]: the work of a frame, and
//!   the descriptions from which pipelines and layouts are built.
//! - [`camera`]: the input state of the camera.

pub mod animation;
pub mod bindgroup;
pub mod buffers;
pub mod camera;
pub mod easing;
pub mod latch;
pub mod path;
pub mod pipeline;
pub mod renderer;
pub mod scene;
pub mod shape;
