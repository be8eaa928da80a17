//! A source-to-source instrumentation pass for cross-checking.
//!
//! Given a program represented as an owned tree of declarations, the pass
//! rewrites annotated declarations so that, at run time, the program reports
//! a numeric tag plus a computed value to an external verification channel.
//! Two independently built executions of the "same" program can then be
//! compared call-for-call and value-for-value.
//!
//! The crate is organised leaves first:
//! - [`hash`]: the deterministic string-to-identifier hash;
//! - [`config`]: resolving one annotation's argument list into a configuration;
//! - [`fault`]: the errors that abort a transformation;
//! - [`tree`]: the owned declaration tree the pass rewrites;
//! - [`inject`]: synthesising the instrumented function body;
//! - [`walk`]: the recursive tree walker that drives the whole pass;
//! - [`laws`]: the guarantees of the pass, stated and proved once and for all.

pub mod config;
pub mod fault;
pub mod hash;
pub mod inject;
pub mod laws;
pub mod tree;
pub mod walk;
