//! Core of a one-dimensional diffusion simulator.
//!
//! The engine turns a textual initial condition into a sampled scalar
//! field, advances that field through discrete time steps by convolving
//! it with a heat kernel, and keeps the ordered history of every
//! computed step for later inspection.
//!
//! Numerical work on real numbers (expression evaluation, quadrature,
//! spline interpolation) is carried out by the surrounding application
//! on its own scalar type; the types here are generic over that scalar.
//! This crate owns the discrete structure around the numerics: the
//! append-only simulation history and its time indices, the validated
//! settings bundle, the grammar of the textual inputs, and the
//! classification of an initial condition as a formula or a point list.

pub mod border;
pub mod errors;
pub mod history;
pub mod kernel;
pub mod kind;
pub mod points;
pub mod settings;
pub mod text;
