//! A personal configuration manager: links tracked files into a home
//! directory, installs a shell startup hook and drives a fixed set of
//! developer tools. Every decision is made here over plain values; the
//! filesystem, the environment and subprocesses are handled by the caller.

pub mod text;
pub mod error;
pub mod shell;
pub mod env;
pub mod hook;
pub mod link;
pub mod tools;
