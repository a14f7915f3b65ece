//! A fractal rendering core: the canvas grid, the bounded iteration that decides escape or
//! convergence, the colour ramp and the pixel buffers with their render passes.
//!
//! Everything here works on whole numbers. Real-valued quantities (plane coordinates, the
//! viewport, the tuning knobs of a colour model) pass through as values of the caller's own
//! types, and the arithmetic on them is supplied by the caller as functions.

pub mod domain;
pub mod fractals;
pub mod frustal;
pub mod polynomial;
pub mod pixel;

pub use crate::domain::{Aspect, Domain, DomainIterator};
pub use crate::fractals::{
    Colorization, Fractal, Iterations, IterationsMaybe, Newton, Options, OptionsError, Root, Seed,
    Variant,
};
pub use crate::frustal::Frustal;
pub use crate::pixel::Pixel;
pub use crate::polynomial::{Polynomial, Term};
