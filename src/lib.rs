//! Detection of installed code editors and installation of a telemetry
//! plugin into each of them.
//!
//! The library holds the decisions: which paths to probe, how a command-line
//! interface is resolved, what an installer invocation looks like, how its
//! outcome is judged, and how a settings document is patched. Probing the
//! filesystem and running processes is left to the caller, which hands the
//! results back as plain values.
pub mod jetbrains;
pub mod process;
pub mod resolve;
pub mod settings;
pub mod text;
pub mod vscode;
pub mod zed;

pub use jetbrains::JetBrainsFamily;
pub use process::{is_process_running, process_query, InstallError, Invocation, Platform, ProbeOutcome, RunOutcome, ShapeFailure};
pub use resolve::resolve_cli;
pub use settings::{patch_settings, settings_source};
pub use vscode::VsCodeFamily;
pub use zed::Zed;
