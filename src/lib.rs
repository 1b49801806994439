//! Import library generation for the Python DLL on Windows targets.
//!
//! The library decides which definition file a requested Python build needs,
//! which `dlltool` flavor serves a compile target and with which arguments it
//! runs. It also reads symbol listings and writes module definition files.
//! Touching the file system and running the tool are left to the caller.

pub mod error;
pub mod generator;
pub mod symbols;
pub mod text;
pub mod toolchain;

pub use error::GenerationError;
pub use generator::{GenerationPlan, ImportLibraryGenerator, PythonImplementation};
pub use symbols::{parse, serialize, ExportRecord};
pub use text::split_ascii_whitespace;
pub use toolchain::{msvc_target_of, DllToolCommand, ToolCommand, ToolOverrides};
