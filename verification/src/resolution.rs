//! Resolving the language-server binary, one host interaction at a time.
//!
//! A [`Resolution`] names what it needs from the host next as a [`Request`];
//! the host's [`Answer`] advances it, until it holds an outcome. The order is:
//! the worktree's `PATH`, then the remembered path if a file is still there,
//! then the latest release, which is downloaded unless its binary is already
//! in place.

use vstd::prelude::*;
use vstd::string::*;
use crate::cleanup::{cleanup_of, entry_views, Cleanup, CleanupView, DirectoryEntry, EntryView};
use crate::error::{ResolveError, ResolveErrorView};
use crate::extension::TyposExtension;
use crate::platform::{Architecture, ArchiveKind, Os};
use crate::release::{
    plan_installation, planned, GithubRelease, Installation, InstallationView, ReleaseView,
};

verus! {

/// What the editor is told while an installation is under way.
#[derive(Clone, Copy, Debug, PartialEq, Eq, Structural)]
pub enum InstallationStatus {
    CheckingForUpdate,
    Downloading,
}

/// A resolved language server: the executable and the arguments to start it
/// with.
#[derive(Clone, Debug, PartialEq, Eq)]
pub struct TyposBinary {
    pub path: String,
    pub args: Vec<String>,
}

/// The mathematical content of a [`TyposBinary`].
pub struct BinaryView {
    pub path: Seq<char>,
    pub args: Seq<Seq<char>>,
}

impl View for TyposBinary {
    type V = BinaryView;

    open spec fn view(&self) -> BinaryView {
        BinaryView { path: self.path@, args: Seq::new(self.args@.len(), |i: int| self.args@[i]@) }
    }
}

/// What a resolution asks of the host.
#[derive(Clone, Copy, Debug, PartialEq, Eq)]
pub enum Request<'a> {
    /// Look the executable up on the worktree's `PATH`.
    Which { name: &'a str },
    /// Tell whether a regular file exists at the path.
    IsFile { path: &'a str },
    /// Show the installation status in the editor.
    SetStatus { status: InstallationStatus },
    /// Query the release index for the latest release of the repository.
    LatestRelease { repository: &'a str, require_assets: bool, pre_release: bool },
    /// Download the archive and unpack it into the directory.
    Download { url: &'a str, directory: &'a str, archive: ArchiveKind },
    /// List the entries of the directory.
    ListDirectory { path: &'a str },
    /// Remove the entries at these positions of the listing, each with all
    /// that it holds; an entry that cannot be removed is left in place.
    RemoveEntries { entries: &'a [usize] },
}

/// The mathematical content of a [`Request`].
pub enum RequestView {
    Which { name: Seq<char> },
    IsFile { path: Seq<char> },
    SetStatus { status: InstallationStatus },
    LatestRelease { repository: Seq<char>, require_assets: bool, pre_release: bool },
    Download { url: Seq<char>, directory: Seq<char>, archive: ArchiveKind },
    ListDirectory { path: Seq<char> },
    RemoveEntries { entries: Seq<usize> },
}

impl<'a> View for Request<'a> {
    type V = RequestView;

    open spec fn view(&self) -> RequestView {
        match *self {
            Request::Which { name } => RequestView::Which { name: name@ },
            Request::IsFile { path } => RequestView::IsFile { path: path@ },
            Request::SetStatus { status } => RequestView::SetStatus { status },
            Request::LatestRelease { repository, require_assets, pre_release } => {
                RequestView::LatestRelease { repository: repository@, require_assets, pre_release }
            },
            Request::Download { url, directory, archive } => RequestView::Download {
                url: url@,
                directory: directory@,
                archive,
            },
            Request::ListDirectory { path } => RequestView::ListDirectory { path: path@ },
            Request::RemoveEntries { entries } => RequestView::RemoveEntries { entries: entries@ },
        }
    }
}

/// What the host found when it served a request.
#[derive(Debug, PartialEq, Eq)]
pub enum Answer {
    /// The path of the executable on `PATH`, if there is one.
    Which(Option<String>),
    /// Whether a regular file exists at the path asked about.
    IsFile(bool),
    /// The status was shown.
    StatusSet,
    /// The latest release, or why the index could not be queried.
    LatestRelease(Result<GithubRelease, String>),
    /// The archive was downloaded and unpacked, or why it was not.
    Downloaded(Result<(), String>),
    /// The entries of the directory, or why it could not be listed.
    Listing(Result<Vec<DirectoryEntry>, String>),
    /// The removals were attempted.
    Removed,
}

/// The mathematical content of an [`Answer`].
pub enum AnswerView {
    Which(Option<Seq<char>>),
    IsFile(bool),
    StatusSet,
    LatestRelease(Result<ReleaseView, Seq<char>>),
    Downloaded(Result<(), Seq<char>>),
    Listing(Result<Seq<EntryView>, Seq<char>>),
    Removed,
}

impl View for Answer {
    type V = AnswerView;

    open spec fn view(&self) -> AnswerView {
        match *self {
            Answer::Which(path) => AnswerView::Which(
                match path {
                    Some(path) => Some(path@),
                    None => None,
                },
            ),
            Answer::IsFile(present) => AnswerView::IsFile(present),
            Answer::StatusSet => AnswerView::StatusSet,
            Answer::LatestRelease(release) => AnswerView::LatestRelease(
                match release {
                    Ok(release) => Ok(release@),
                    Err(message) => Err(message@),
                },
            ),
            Answer::Downloaded(done) => AnswerView::Downloaded(
                match done {
                    Ok(_) => Ok(()),
                    Err(message) => Err(message@),
                },
            ),
            Answer::Listing(listing) => AnswerView::Listing(
                match listing {
                    Ok(entries) => Ok(entry_views(entries@)),
                    Err(message) => Err(message@),
                },
            ),
            Answer::Removed => AnswerView::Removed,
        }
    }
}

/// The view of the outcome of a resolution.
pub open spec fn outcome_view(outcome: Result<TyposBinary, ResolveError>) -> Result<
    BinaryView,
    ResolveErrorView,
> {
    match outcome {
        Ok(binary) => Ok(binary@),
        Err(error) => Err(error@),
    }
}

enum Stage {
    PathLookup,
    CacheCheck { path: String },
    AnnounceCheck,
    ReleaseQuery,
    InstallCheck { installation: Installation },
    AnnounceDownload { installation: Installation },
    Download { installation: Installation },
    Listing { installation: Installation },
    Removal { installation: Installation, cleanup: Cleanup },
    Finished { outcome: Result<TyposBinary, ResolveError> },
}

/// How far a resolution has come: what it waits for, and what it has learned
/// that it will need later.
pub enum StageView {
    /// Waiting for the `PATH` lookup.
    PathLookup,
    /// Waiting to hear whether a file is still at the remembered path.
    CacheCheck { path: Seq<char> },
    /// Waiting for the editor to show that an update check is under way.
    AnnounceCheck,
    /// Waiting for the latest release.
    ReleaseQuery,
    /// Waiting to hear whether the release's binary is already in place.
    InstallCheck { installation: InstallationView },
    /// Waiting for the editor to show that a download is under way.
    AnnounceDownload { installation: InstallationView },
    /// Waiting for the download.
    Download { installation: InstallationView },
    /// Waiting for the listing of the working directory.
    Listing { installation: InstallationView },
    /// Waiting for the other versions to be removed.
    Removal { installation: InstallationView, cleanup: CleanupView },
    /// Done.
    Finished { outcome: Result<BinaryView, ResolveErrorView> },
}

impl View for Stage {
    type V = StageView;

    closed spec fn view(&self) -> StageView {
        match *self {
            Stage::PathLookup => StageView::PathLookup,
            Stage::CacheCheck { path } => StageView::CacheCheck { path: path@ },
            Stage::AnnounceCheck => StageView::AnnounceCheck,
            Stage::ReleaseQuery => StageView::ReleaseQuery,
            Stage::InstallCheck { installation } => StageView::InstallCheck {
                installation: installation@,
            },
            Stage::AnnounceDownload { installation } => StageView::AnnounceDownload {
                installation: installation@,
            },
            Stage::Download { installation } => StageView::Download { installation: installation@ },
            Stage::Listing { installation } => StageView::Listing { installation: installation@ },
            Stage::Removal { installation, cleanup } => StageView::Removal {
                installation: installation@,
                cleanup: cleanup@,
            },
            Stage::Finished { outcome } => StageView::Finished { outcome: outcome_view(outcome) },
        }
    }
}

/// One resolution of the language-server binary for a platform.
pub struct Resolution {
    os: Os,
    architecture: Architecture,
    stage: Stage,
}

/// The mathematical content of a [`Resolution`].
pub struct ResolutionView {
    pub os: Os,
    pub architecture: Architecture,
    pub stage: StageView,
}

impl View for Resolution {
    type V = ResolutionView;

    closed spec fn view(&self) -> ResolutionView {
        ResolutionView { os: self.os, architecture: self.architecture, stage: self.stage@ }
    }
}

/// The name of the executable that is looked up on `PATH`.
pub open spec fn server_binary_name() -> Seq<char> {
    "typos-lsp"@
}

/// The repository whose releases are installed.
pub open spec fn release_repository() -> Seq<char> {
    "tekumara/typos-lsp"@
}

/// The directory that holds one directory per installed version.
pub open spec fn working_directory() -> Seq<char> {
    "."@
}

/// A binary that is started without arguments.
pub open spec fn launched(path: Seq<char>) -> BinaryView {
    BinaryView { path, args: Seq::empty() }
}

/// The stage of a resolution that has found the binary at `path`.
pub open spec fn resolved(path: Seq<char>) -> StageView {
    StageView::Finished { outcome: Ok(launched(path)) }
}

/// The stage of a resolution that has failed.
pub open spec fn failed(error: ResolveErrorView) -> StageView {
    StageView::Finished { outcome: Err(error) }
}

/// The start of a resolution for a platform.
pub open spec fn initial(os: Os, architecture: Architecture) -> ResolutionView {
    ResolutionView { os, architecture, stage: StageView::PathLookup }
}

/// What a resolution at the given stage asks of the host; nothing once it is
/// finished.
pub open spec fn request_of(stage: StageView) -> Option<RequestView> {
    match stage {
        StageView::PathLookup => Some(RequestView::Which { name: server_binary_name() }),
        StageView::CacheCheck { path } => Some(RequestView::IsFile { path }),
        StageView::AnnounceCheck => Some(
            RequestView::SetStatus { status: InstallationStatus::CheckingForUpdate },
        ),
        StageView::ReleaseQuery => Some(
            RequestView::LatestRelease {
                repository: release_repository(),
                require_assets: true,
                pre_release: false,
            },
        ),
        StageView::InstallCheck { installation } => Some(
            RequestView::IsFile { path: installation.binary_path },
        ),
        StageView::AnnounceDownload { installation } => Some(
            RequestView::SetStatus { status: InstallationStatus::Downloading },
        ),
        StageView::Download { installation } => Some(
            RequestView::Download {
                url: installation.download_url,
                directory: installation.version_dir,
                archive: installation.archive,
            },
        ),
        StageView::Listing { installation } => Some(
            RequestView::ListDirectory { path: working_directory() },
        ),
        StageView::Removal { installation, cleanup } => Some(
            RequestView::RemoveEntries { entries: cleanup.stale },
        ),
        StageView::Finished { outcome } => None,
    }
}

/// The remembered path and the stage after the host's answer.
///
/// An answer of another kind than the one the stage waits for changes
/// nothing. The remembered path changes only where a resolution ends with the
/// binary of a release: found in place, or downloaded and the other versions
/// removed.
pub open spec fn step_stage(
    cache: Option<Seq<char>>,
    os: Os,
    architecture: Architecture,
    stage: StageView,
    answer: AnswerView,
) -> (Option<Seq<char>>, StageView) {
    match stage {
        StageView::PathLookup => match answer {
            AnswerView::Which(Some(path)) => (cache, resolved(path)),
            AnswerView::Which(None) => match cache {
                Some(path) => (cache, StageView::CacheCheck { path }),
                None => (cache, StageView::AnnounceCheck),
            },
            _ => (cache, stage),
        },
        StageView::CacheCheck { path } => match answer {
            AnswerView::IsFile(true) => (cache, resolved(path)),
            AnswerView::IsFile(false) => (cache, StageView::AnnounceCheck),
            _ => (cache, stage),
        },
        StageView::AnnounceCheck => match answer {
            AnswerView::StatusSet => (cache, StageView::ReleaseQuery),
            _ => (cache, stage),
        },
        StageView::ReleaseQuery => match answer {
            AnswerView::LatestRelease(Err(message)) => (
                cache,
                failed(ResolveErrorView::ReleaseQuery(message)),
            ),
            AnswerView::LatestRelease(Ok(release)) => match planned(release, os, architecture) {
                Ok(installation) => (cache, StageView::InstallCheck { installation }),
                Err(error) => (cache, failed(error)),
            },
            _ => (cache, stage),
        },
        StageView::InstallCheck { installation } => match answer {
            AnswerView::IsFile(true) => (
                Some(installation.binary_path),
                resolved(installation.binary_path),
            ),
            AnswerView::IsFile(false) => (cache, StageView::AnnounceDownload { installation }),
            _ => (cache, stage),
        },
        StageView::AnnounceDownload { installation } => match answer {
            AnswerView::StatusSet => (cache, StageView::Download { installation }),
            _ => (cache, stage),
        },
        StageView::Download { installation } => match answer {
            AnswerView::Downloaded(Ok(_)) => (cache, StageView::Listing { installation }),
            AnswerView::Downloaded(Err(message)) => (
                cache,
                failed(ResolveErrorView::Download(message)),
            ),
            _ => (cache, stage),
        },
        StageView::Listing { installation } => match answer {
            AnswerView::Listing(Ok(entries)) => (
                cache,
                StageView::Removal {
                    installation,
                    cleanup: cleanup_of(entries, installation.version_dir),
                },
            ),
            AnswerView::Listing(Err(message)) => (
                cache,
                failed(ResolveErrorView::ListDirectory(message)),
            ),
            _ => (cache, stage),
        },
        StageView::Removal { installation, cleanup } => match answer {
            AnswerView::Removed => match cleanup.failure {
                Some(message) => (cache, failed(ResolveErrorView::DirectoryEntry(message))),
                None => (Some(installation.binary_path), resolved(installation.binary_path)),
            },
            _ => (cache, stage),
        },
        StageView::Finished { outcome } => (cache, stage),
    }
}

/// The remembered path and the resolution after the host's answer.
pub open spec fn step(cache: Option<Seq<char>>, resolution: ResolutionView, answer: AnswerView) -> (
    Option<Seq<char>>,
    ResolutionView,
) {
    let (cache, stage) = step_stage(
        cache,
        resolution.os,
        resolution.architecture,
        resolution.stage,
        answer,
    );
    (cache, ResolutionView { os: resolution.os, architecture: resolution.architecture, stage })
}

fn found(path: String) -> (stage: Stage)
    ensures
        stage@ == resolved(path@),
{
    let binary = TyposBinary { path, args: Vec::new() };
    assert(binary@.args =~= Seq::empty());
    Stage::Finished { outcome: Ok(binary) }
}

impl Resolution {
    /// Starts a resolution for the platform the editor runs on.
    pub fn begin(os: Os, architecture: Architecture) -> (resolution: Self)
        ensures
            resolution@ == initial(os, architecture),
    {
        Resolution { os, architecture, stage: Stage::PathLookup }
    }

    /// What the resolution needs from the host next, or `None` once it is
    /// finished.
    pub fn request(&self) -> (request: Option<Request<'_>>)
        ensures
            match request_of(self@.stage) {
                Some(expected) => request matches Some(request) && request@ == expected,
                None => request is None,
            },
    {
        match &self.stage {
            Stage::PathLookup => Some(Request::Which { name: "typos-lsp" }),
            Stage::CacheCheck { path } => Some(Request::IsFile { path: path.as_str() }),
            Stage::AnnounceCheck => Some(
                Request::SetStatus { status: InstallationStatus::CheckingForUpdate },
            ),
            Stage::ReleaseQuery => Some(
                Request::LatestRelease {
                    repository: "tekumara/typos-lsp",
                    require_assets: true,
                    pre_release: false,
                },
            ),
            Stage::InstallCheck { installation } => Some(
                Request::IsFile { path: installation.binary_path.as_str() },
            ),
            Stage::AnnounceDownload { .. } => Some(
                Request::SetStatus { status: InstallationStatus::Downloading },
            ),
            Stage::Download { installation } => Some(
                Request::Download {
                    url: installation.download_url.as_str(),
                    directory: installation.version_dir.as_str(),
                    archive: installation.archive,
                },
            ),
            Stage::Listing { .. } => Some(Request::ListDirectory { path: "." }),
            Stage::Removal { cleanup, .. } => Some(
                Request::RemoveEntries { entries: cleanup.stale.as_slice() },
            ),
            Stage::Finished { .. } => None,
        }
    }

    /// Whether the resolution holds its outcome.
    pub fn is_finished(&self) -> (finished: bool)
        ensures
            finished == (self@.stage is Finished),
    {
        match &self.stage {
            Stage::Finished { .. } => true,
            _ => false,
        }
    }

    /// The outcome of the resolution, or `None` while it is under way.
    pub fn outcome(self) -> (outcome: Option<Result<TyposBinary, ResolveError>>)
        ensures
            match self@.stage {
                StageView::Finished { outcome: expected } => outcome matches Some(outcome)
                    && outcome_view(outcome) == expected,
                _ => outcome is None,
            },
    {
        match self.stage {
            Stage::Finished { outcome } => Some(outcome),
            _ => None,
        }
    }
}

impl TyposExtension {
    /// Advances a resolution by the host's answer to its request.
    ///
    /// A binary on `PATH` is taken at once and is not remembered. Without one,
    /// the remembered path is taken if a file is still there. Otherwise the
    /// latest release is installed, unless its binary is already in place, and
    /// the binary's path is remembered.
    pub fn language_server_binary(&mut self, resolution: Resolution, answer: Answer) -> (next:
        Resolution)
        ensures
            (final(self)@, next@) == step(old(self)@, resolution@, answer@),
    {
        let Resolution { os, architecture, stage } = resolution;
        let stage = match (stage, answer) {
            (Stage::PathLookup, Answer::Which(Some(path))) => found(path),
            (Stage::PathLookup, Answer::Which(None)) => match &self.cached_binary_path {
                Some(path) => Stage::CacheCheck { path: path.clone() },
                None => Stage::AnnounceCheck,
            },
            (Stage::CacheCheck { path }, Answer::IsFile(true)) => found(path),
            (Stage::CacheCheck { .. }, Answer::IsFile(false)) => Stage::AnnounceCheck,
            (Stage::AnnounceCheck, Answer::StatusSet) => Stage::ReleaseQuery,
            (Stage::ReleaseQuery, Answer::LatestRelease(Err(message))) => Stage::Finished {
                outcome: Err(ResolveError::ReleaseQuery(message)),
            },
            (Stage::ReleaseQuery, Answer::LatestRelease(Ok(release))) => {
                match plan_installation(&release, &os, &architecture) {
                    Ok(installation) => Stage::InstallCheck { installation },
                    Err(error) => Stage::Finished { outcome: Err(error) },
                }
            },
            (Stage::InstallCheck { installation }, Answer::IsFile(true)) => {
                self.cached_binary_path = Some(installation.binary_path.clone());
                found(installation.binary_path)
            },
            (Stage::InstallCheck { installation }, Answer::IsFile(false)) => {
                Stage::AnnounceDownload { installation }
            },
            (Stage::AnnounceDownload { installation }, Answer::StatusSet) => Stage::Download {
                installation,
            },
            (Stage::Download { installation }, Answer::Downloaded(Ok(_))) => Stage::Listing {
                installation,
            },
            (Stage::Download { .. }, Answer::Downloaded(Err(message))) => Stage::Finished {
                outcome: Err(ResolveError::Download(message)),
            },
            (Stage::Listing { installation }, Answer::Listing(Ok(entries))) => {
                let cleanup = TyposExtension::clean_other_installations(
                    &installation.version_dir,
                    &entries,
                );
                Stage::Removal { installation, cleanup }
            },
            (Stage::Listing { .. }, Answer::Listing(Err(message))) => Stage::Finished {
                outcome: Err(ResolveError::ListDirectory(message)),
            },
            (Stage::Removal { installation, cleanup }, Answer::Removed) => match cleanup.failure {
                Some(message) => Stage::Finished {
                    outcome: Err(ResolveError::DirectoryEntry(message)),
                },
                None => {
                    self.cached_binary_path = Some(installation.binary_path.clone());
                    found(installation.binary_path)
                },
            },
            (stage, _) => stage,
        };
        Resolution { os, architecture, stage }
    }
}

} // verus!
