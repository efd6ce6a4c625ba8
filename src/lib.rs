//! A build driver for WASI targets: it drives the compiler, classifies the
//! modules it produced and decides how each one is post-processed.
pub mod acquire;
pub mod artifacts;
pub mod cache;
pub mod cli;
pub mod codec;
pub mod config;
pub mod error;
pub mod paths;
pub mod pipeline;
pub mod text;
pub mod tool_path;
