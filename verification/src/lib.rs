//! Core of a local self-updater/launcher: it decides whether the installed
//! application is behind the latest published release, plans the download and
//! the safe extraction of the release archive, and persists the version marker.
//! Network and filesystem effects are performed by the surrounding binary; this
//! library holds the verified decisions, parsing and path logic.

pub mod archive;
pub mod errors;
pub mod orchestrator;
pub mod resolver;
pub mod strutil;
pub mod version_state;
pub mod updater;
