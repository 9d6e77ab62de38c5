//! Command construction for a competitive-programming helper.
//!
//! The library turns typed user intent (contest id, problem id, optional
//! file name, tolerance exponent, problem count) together with a resolved
//! environment configuration into fully specified external-process
//! invocations: a program name plus an ordered argument list. It never
//! launches a process itself; the caller executes what it returns.

pub mod config;
pub mod invocation;
pub mod make;
pub mod submit;
pub mod text;
