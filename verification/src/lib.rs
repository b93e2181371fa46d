//! Locating the `typos-lsp` language server for the Zed editor.
//!
//! The library decides where the language-server binary is to be found: on the
//! worktree's `PATH`, at the path remembered from an earlier resolution, or in a
//! freshly downloaded release. It performs no I/O itself. A resolution is a
//! small machine that names the next thing it needs from the host (a lookup, a
//! file check, a download, ...) and is advanced with the host's answer.

pub mod cleanup;
pub mod error;
pub mod extension;
pub mod launch;
pub mod laws;
pub mod platform;
pub mod release;
pub mod resolution;
pub mod text;

pub use crate::cleanup::{Cleanup, DirectoryEntry};
pub use crate::error::ResolveError;
pub use crate::extension::TyposExtension;
pub use crate::launch::{Command, LspSettings};
pub use crate::platform::{Architecture, ArchiveKind, Os};
pub use crate::release::{GithubRelease, GithubReleaseAsset, Installation};
pub use crate::resolution::{Answer, InstallationStatus, Request, Resolution, TyposBinary};
