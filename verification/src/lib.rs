//! Inspect a project's manifest: find the nearest `package.json` above a
//! starting directory, detect the package manager from sibling lockfiles,
//! validate the manifest against its schema, and render a styled report.
pub mod detect;
pub mod json;
pub mod manifest;
pub mod present;
pub mod search;
