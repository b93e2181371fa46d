//! The platforms for which upstream publishes release archives, and the tokens
//! by which an archive's name tells them apart.

use vstd::prelude::*;

verus! {

/// An operating system the editor runs on.
#[derive(Clone, Copy, Debug, PartialEq, Eq, Structural)]
pub enum Os {
    Mac,
    Linux,
    Windows,
}

/// A processor architecture the editor runs on.
#[derive(Clone, Copy, Debug, PartialEq, Eq, Structural)]
pub enum Architecture {
    Aarch64,
    X86,
    X8664,
}

/// The container format of a release archive.
#[derive(Clone, Copy, Debug, PartialEq, Eq, Structural)]
pub enum ArchiveKind {
    /// A gzip-compressed tar archive.
    GzipTar,
    /// A zip archive.
    Zip,
}

/// The architecture part of a target triple. Upstream publishes no 32-bit x86
/// build, so `X86` shares the token of `X8664`.
pub open spec fn architecture_token(architecture: Architecture) -> Seq<char> {
    match architecture {
        Architecture::Aarch64 => "aarch64"@,
        Architecture::X86 | Architecture::X8664 => "x86_64"@,
    }
}

/// The vendor and system part of a target triple.
pub open spec fn os_token(os: Os) -> Seq<char> {
    match os {
        Os::Mac => "apple-darwin"@,
        Os::Linux => "unknown-linux-gnu"@,
        Os::Windows => "pc-windows-msvc"@,
    }
}

/// The format in which upstream packs the release for an operating system.
pub open spec fn archive_kind(os: Os) -> ArchiveKind {
    match os {
        Os::Windows => ArchiveKind::Zip,
        Os::Mac | Os::Linux => ArchiveKind::GzipTar,
    }
}

/// The file extension of an archive of the given format.
pub open spec fn archive_extension(kind: ArchiveKind) -> Seq<char> {
    match kind {
        ArchiveKind::Zip => "zip"@,
        ArchiveKind::GzipTar => "tar.gz"@,
    }
}

impl Architecture {
    /// The architecture part of a target triple, as text.
    pub fn token(&self) -> (token: &'static str)
        ensures
            token@ == architecture_token(*self),
    {
        match self {
            Architecture::Aarch64 => "aarch64",
            Architecture::X86 | Architecture::X8664 => "x86_64",
        }
    }
}

impl Os {
    /// The vendor and system part of a target triple, as text.
    pub fn token(&self) -> (token: &'static str)
        ensures
            token@ == os_token(*self),
    {
        match self {
            Os::Mac => "apple-darwin",
            Os::Linux => "unknown-linux-gnu",
            Os::Windows => "pc-windows-msvc",
        }
    }

    /// The format of the release archive for this operating system.
    pub fn archive_kind(&self) -> (kind: ArchiveKind)
        ensures
            kind == archive_kind(*self),
    {
        match self {
            Os::Windows => ArchiveKind::Zip,
            Os::Mac | Os::Linux => ArchiveKind::GzipTar,
        }
    }
}

impl ArchiveKind {
    /// The file extension of an archive of this format, without a leading dot.
    pub fn extension(&self) -> (extension: &'static str)
        ensures
            extension@ == archive_extension(*self),
    {
        match self {
            ArchiveKind::Zip => "zip",
            ArchiveKind::GzipTar => "tar.gz",
        }
    }
}

} // verus!
