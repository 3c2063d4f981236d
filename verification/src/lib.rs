//! A recursive value-processing engine for annotated event data, and the
//! path getter that resolves dotted paths against the same data.
//!
//! The engine walks a tree of annotated values and shows every node to the
//! hooks of a processor, with the path, the field policy and the expected
//! kinds of the place. The getter looks a scalar up under a dotted path. The
//! contract of each function is stated over a mathematical model of the data.
//! The few functions whose contract is taken on trust are those that call the
//! standard library or another crate; each says so in its documentation.

pub mod text;
pub mod value_type;
pub mod attrs;
pub mod number;
pub mod meta;
pub mod annotated;
pub mod value;
pub mod processor;
pub mod protocol;
pub mod getter;
