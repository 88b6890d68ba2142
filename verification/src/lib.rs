//! A display-test animation library: a line position that advances one
//! logical pixel per qualifying frame, wrapping on the canvas, together
//! with the draw commands each frame emits.

pub mod animation;
pub mod geometry;
pub mod lemmas;
