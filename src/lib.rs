//! Semantic analysis of a parsed schema: type alias resolution and
//! datasource validation, with every failure collected as a diagnostic.
pub mod ast;
pub mod datasource_loader;
pub mod db;
pub mod diagnostics;
pub mod providers;
pub mod types;

pub use datasource_loader::DatasourceLoader;
