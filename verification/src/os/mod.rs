//! What the operating system is asked to do: open a file, copy text.

pub mod platform;
