//! Choosing a syntax-highlighting language for a file, and laying the
//! highlighter's output out by line.

pub mod patterns;
pub mod languages;
pub mod dynamic;
pub mod highlight;
