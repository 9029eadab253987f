//! Decision core of a ray-triangle contact kernel.
//!
//! The surrounding geometry code works on IEEE-754 single-precision scalars,
//! which the verifier does not model. Every branch such a kernel takes,
//! though, is a strict comparison of two scalars, and the ordering of
//! single-precision values is fully determined by their raw bit patterns.
//! This crate therefore models a scalar by its 32-bit pattern: `ieee`
//! defines the single-precision ordering on bit patterns and proves an
//! executable comparison against it, and `kernel` builds on that ordering
//! the branch decisions of the Moller-Trumbore ray-triangle test and of
//! max-component normalization.

pub mod ieee;
pub mod kernel;

