//! Building WebAssembly components from Go programs: interface resolution,
//! compiler driving decisions, metadata embedding and component encoding.

pub mod text;
pub mod features;
pub mod paths;
pub mod version;
pub mod wit;
pub mod componentize;
pub mod builder;
pub mod bindings;
pub mod command;
