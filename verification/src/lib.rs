//! An interactive launcher for the scripts declared in a JavaScript project
//! manifest (`package.json`): it extracts the manifest's `scripts` object into
//! candidate rows, resolves the package manager from the lockfile that is
//! present, and prepares the `run` invocation for the chosen script.

pub mod package_manager;
pub mod scripts;
pub mod text;
