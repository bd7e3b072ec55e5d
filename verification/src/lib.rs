//! Rewrites the source paths of import declarations that name stylesheet-like
//! files, so that a bundler further down the line can tell them apart: an
//! import of `"a.css"` that binds at least one name becomes an import of
//! `"a.css?css_modules"`.

pub mod ast;
pub mod config;
pub mod laws;
pub mod path;
pub mod rules;
pub mod transform;
pub mod visitor;

pub use ast::{ImportDecl, Module, Node, SourceLiteral};
pub use config::{resolve, CssSuffixConfig, PluginConfig};
pub use transform::process_transform;
pub use visitor::TransformVisitor;
