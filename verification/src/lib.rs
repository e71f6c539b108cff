//! Build-support utilities for crates that bind a Python interpreter.
//!
//! Two independent pieces live here: a small chainable error type with a
//! multi-line causal report (see [`errors`]), and the pure logic behind a
//! build script's interpreter-configuration handling: choosing which source
//! the configuration is loaded from and rendering the directive lines that
//! the build tool consumes.

pub mod config;
pub mod decimal;
pub mod errors;

pub use config::{
    ConfigSource, InterpreterConfig, PythonImplementation, PythonVersion,
    add_extension_module_link_args, select_source, use_pyo3_cfgs,
};
pub use errors::{Context, Error, ErrorReport};
