//! The options of the two subcommands.
use vstd::prelude::*;

verus! {

/// Options shared by both subcommands.
pub struct Common {
    /// The interface-document sources: directories, documents, or encoded
    /// packages.
    pub wit_path: Vec<String>,
    /// The world to target (the default world when `None`).
    pub world: Option<String>,
    /// Enable every feature of the documents.
    pub all_features: bool,
    /// Comma- or space-separated feature names to enable.
    pub features: Vec<String>,
}

/// Options of the subcommand that builds a component.
pub struct Componentize {
    /// The Go executable (looked up on the search path when `None`).
    pub go: Option<String>,
    /// The output path (`main.wasm` in the working directory when `None`).
    pub output: Option<String>,
    /// The directory holding `go.mod` (the working directory when `None`).
    pub mod_path: Option<String>,
}

/// Options of the subcommand that generates bindings.
pub struct Bindings {
    /// The output directory (the working directory when `None`).
    pub output: Option<String>,
    /// Generate stub functions for exports.
    pub generate_stubs: bool,
    /// Format the generated code.
    pub format: bool,
    /// The Go module of a library package of bindings.
    pub mod_name: Option<String>,
}

/// A subcommand.
pub enum Command {
    Componentize(Componentize),
    Bindings(Bindings),
}

/// All the options of one invocation.
pub struct Options {
    pub common: Common,
    pub command: Command,
}

} // verus!
