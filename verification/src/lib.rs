//! Small, fully specified building blocks for working with values, sequences
//! and text: rendering finite sequences as delimited lists, walking text by
//! character, classifying tokens, and duplicating values.

pub mod adapters;
pub mod iteration;
pub mod listing;
pub mod printable;
pub mod record;
pub mod text;
pub mod values;
