//! Library behind a one-line shell-prompt status: the current working
//! directory, the state of the enclosing version-control repository (branch,
//! dirty flag, divergence from the configured upstream) and an optional
//! remote-session identity, composed into a single rendered line.

pub mod identity;
pub mod laws;
pub mod pathshow;
pub mod precmd;
pub mod repo;
pub mod status;
