//! Turns the dependency list embedded in a compiled artifact into a software
//! bill of materials: the root package becomes the document's subject, build
//! dependencies become tools, and runtime dependencies become components.

pub mod package;
pub mod document;
pub mod error;
pub mod purl;
pub mod identity;
pub mod assemble;
pub mod cli;

pub use assemble::{assemble, render_sbom, run, to_component, to_components, to_tool, to_tools};
pub use cli::{input_path, log_verbosity, Verbosity};
pub use document::{Classification, ComponentRecord, SbomDocument, Scope, ToolDescriptor};
pub use error::SbomError;
pub use package::{find_root, DependencyKind, Origin, Package};
pub use purl::to_purl;
