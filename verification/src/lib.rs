//! A last-in-first-out stack of `i32` values kept in a singly linked chain of
//! heap nodes, with every operation specified over the sequence of elements
//! it holds.

pub mod laws;
pub mod model;
pub mod stack;

pub use stack::List;
