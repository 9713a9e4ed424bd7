//! A verified core for ordered unit enumerations.
//!
//! A unit enumeration is a closed, ordered set of named cases. This crate
//! provides the pieces needed to give such a set a dense, zero-based
//! positional representation:
//!
//! - a shape validator that accepts only declarations able to support
//!   positional indexing, and reports located errors for the rest;
//! - a generator that turns a validated declaration into the constants the
//!   runtime relies on (the case count and the ordered case list);
//! - the [`EnumSelect`](algebra::EnumSelect) trait: the index algebra that
//!   every generated type inherits, with checked, wrapping and saturating
//!   navigation over the declaration order.

pub mod algebra;
pub mod generate;
pub mod model;
pub mod sample;
pub mod validate;

pub use algebra::EnumSelect;
