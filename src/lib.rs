//! Clipboard rewriting with ordered regular-expression recipes.
//!
//! `engine` applies recipes to text (first change wins); `pattern` holds
//! the compiled regular expressions; `coordinator` and `sampler` hold the
//! decisions of the foreground event loop and of the background input
//! sampler, so that a thin driver can run them against a real terminal
//! and clipboard.

pub mod pattern;
pub mod engine;
pub mod coordinator;
pub mod sampler;
