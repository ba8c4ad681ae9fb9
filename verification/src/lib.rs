//! An owned, growable byte buffer, mutated in place through an exclusive
//! reference and handed between owners by move.
//!
//! `buffer` holds the buffer type and its two operations: in-place growth
//! and construction-and-transfer. `render` builds the one line of text that
//! reports the two buffer lengths.

pub mod buffer;
pub mod render;
