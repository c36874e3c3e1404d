//! A powerline-style shell prompt: the previous command's exit status and
//! duration, the working directory and a compact summary of the enclosing
//! git repository, rendered as a chain of coloured segments.

pub mod duration;
pub mod git;
pub mod palette;
pub mod path;
pub mod prompt;
pub mod render;
pub mod resolver;
pub mod segment;
pub mod text;
