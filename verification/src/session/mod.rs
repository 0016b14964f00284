//! Decisions only the compositor session can make.

pub mod pointer;
pub mod workspace;
