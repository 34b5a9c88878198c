//! Escape-time rendering of the Mandelbrot set: the integer-valued parts of the
//! per-pixel pipeline (pixel normalisation, the escape decision, the colour
//! rule) and the driver that fills the canvas, each with its contract.
pub mod canvas;
pub mod escape;
pub mod palette;
pub mod plane;
pub mod render;
