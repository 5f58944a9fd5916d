//! A scripted walk through the borrow scopes of one text buffer.
//!
//! The buffer is read through two shared references, extended through one
//! exclusive reference, and read again through two new shared references.
//! Each step contributes one line of a five-line transcript; the library
//! computes the transcript and leaves printing to its caller.

pub mod lines;
pub mod exercise;
pub mod laws;
