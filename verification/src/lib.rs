//! A configurable rewrite pass that strips module-import statements from a
//! parsed script/module tree when the imported module's specifier matches a
//! configurable pattern.
//!
//! The crate is organised as:
//! - [`matcher`]: the pattern predicate over specifier strings;
//! - [`tree`]: the tree model the pass works on, with its abstract view;
//! - [`transform`]: the tree-visiting removal pass and its clean-up steps;
//! - [`config`]: decoding a generic JSON value into a pass configuration;
//! - [`laws`]: proved properties of the pass as a whole.

pub mod config;
pub mod laws;
pub mod matcher;
pub mod transform;
pub mod tree;


