//! Engine of an interactive browser for the local branches of a git repository.

pub mod app;
pub mod cmd;
pub mod component;
pub mod error;
pub mod git;
pub mod mode;
pub mod selection;
pub mod session;
pub mod text;
pub mod util;
