//! A growable array: an ordered container with indexed reads, append,
//! overwrite and positional removal, whose capacity doubles when it runs full.
//!
//! Every operation is specified over the sequence of elements that the
//! container holds (its view) and over its capacity.

pub mod array_list;
pub mod error;
pub mod laws;
pub mod model;

pub use array_list::ArrayList;
pub use error::ErrorKind;
