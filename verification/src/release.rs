//! Upstream releases: how their archives are named, and where the binary lies
//! once one is unpacked.

use vstd::prelude::*;
use vstd::string::*;
use crate::error::{ResolveError, ResolveErrorView};
use crate::extension::TyposExtension;
use crate::platform::{
    architecture_token, archive_extension, archive_kind, os_token, Architecture, ArchiveKind, Os,
};
use crate::text::{join, joined};

verus! {

/// One downloadable file of a release.
#[derive(Clone, Debug, PartialEq, Eq)]
pub struct GithubReleaseAsset {
    pub name: String,
    pub download_url: String,
}

/// A release as the release index reports it.
#[derive(Clone, Debug, PartialEq, Eq)]
pub struct GithubRelease {
    pub version: String,
    pub assets: Vec<GithubReleaseAsset>,
}

/// The mathematical content of a [`GithubReleaseAsset`].
pub struct AssetView {
    pub name: Seq<char>,
    pub download_url: Seq<char>,
}

/// The mathematical content of a [`GithubRelease`].
pub struct ReleaseView {
    pub version: Seq<char>,
    pub assets: Seq<AssetView>,
}

impl View for GithubReleaseAsset {
    type V = AssetView;

    open spec fn view(&self) -> AssetView {
        AssetView { name: self.name@, download_url: self.download_url@ }
    }
}

/// The views of the assets of a release, in order.
pub open spec fn asset_views(assets: Seq<GithubReleaseAsset>) -> Seq<AssetView> {
    Seq::new(assets.len(), |i: int| assets[i]@)
}

impl View for GithubRelease {
    type V = ReleaseView;

    open spec fn view(&self) -> ReleaseView {
        ReleaseView { version: self.version@, assets: asset_views(self.assets@) }
    }
}

/// The name of the archive that upstream publishes for a version and platform:
/// `typos-lsp-{version}-{architecture}-{os}.{extension}`.
pub open spec fn release_name(version: Seq<char>, os: Os, architecture: Architecture) -> Seq<
    char,
> {
    "typos-lsp-"@ + version + "-"@ + architecture_token(architecture) + "-"@ + os_token(os) + "."@
        + archive_extension(archive_kind(os))
}

/// Where the executable lies inside the unpacked archive. Windows archives
/// keep the layout of the build directory; the others hold the executable at
/// their root.
pub open spec fn path_within_archive(os: Os, architecture: Architecture) -> Seq<char> {
    match os {
        Os::Windows => "target/"@ + architecture_token(architecture) + "-"@ + os_token(os)
            + "/release/typos-lsp.exe"@,
        Os::Mac | Os::Linux => "typos-lsp"@,
    }
}

/// The name of the directory into which the archive of a version is unpacked.
pub open spec fn version_directory(version: Seq<char>) -> Seq<char> {
    "typos-lsp-"@ + version
}

/// The position of the first asset at or after `from` that is named `name`.
pub open spec fn first_named(assets: Seq<AssetView>, name: Seq<char>, from: int) -> Option<int>
    decreases assets.len() - from,
{
    if from < 0 || from >= assets.len() {
        None
    } else if assets[from].name == name {
        Some(from)
    } else {
        first_named(assets, name, from + 1)
    }
}

/// `first_named` finds an asset of the given name, none before it has that
/// name, and it finds nothing only where no asset from `from` on has it.
pub proof fn lemma_first_named(assets: Seq<AssetView>, name: Seq<char>, from: int)
    requires
        0 <= from,
    ensures
        match first_named(assets, name, from) {
            Some(position) => {
                &&& from <= position < assets.len()
                &&& assets[position].name == name
                &&& forall|j: int| from <= j < position ==> assets[j].name != name
            },
            None => forall|j: int| from <= j < assets.len() ==> assets[j].name != name,
        },
    decreases assets.len() - from,
{
    if from < assets.len() && assets[from].name != name {
        lemma_first_named(assets, name, from + 1);
    }
}

/// What is to be installed for a release: where to download from, where to
/// unpack, and where the binary then lies.
#[derive(Clone, Debug, PartialEq, Eq)]
pub struct Installation {
    pub download_url: String,
    pub version_dir: String,
    pub binary_path: String,
    pub archive: ArchiveKind,
}

/// The mathematical content of an [`Installation`].
pub struct InstallationView {
    pub download_url: Seq<char>,
    pub version_dir: Seq<char>,
    pub binary_path: Seq<char>,
    pub archive: ArchiveKind,
}

impl View for Installation {
    type V = InstallationView;

    open spec fn view(&self) -> InstallationView {
        InstallationView {
            download_url: self.download_url@,
            version_dir: self.version_dir@,
            binary_path: self.binary_path@,
            archive: self.archive,
        }
    }
}

/// The installation that a release calls for on a platform, or the error that
/// names the archive which the release lacks.
pub open spec fn planned(release: ReleaseView, os: Os, architecture: Architecture) -> Result<
    InstallationView,
    ResolveErrorView,
> {
    let name = release_name(release.version, os, architecture);
    match first_named(release.assets, name, 0) {
        None => Err(ResolveErrorView::AssetNotFound(name)),
        Some(position) => Ok(
            InstallationView {
                download_url: release.assets[position].download_url,
                version_dir: version_directory(release.version),
                binary_path: joined(
                    version_directory(release.version),
                    path_within_archive(os, architecture),
                ),
                archive: archive_kind(os),
            },
        ),
    }
}

impl TyposExtension {
    /// The name of the archive found among the assets of a release, depending
    /// on the version, platform and architecture.
    pub fn binary_release_name(version: &String, platform: &Os, architecture: &Architecture) -> (name:
        String)
        ensures
            name@ == release_name(version@, *platform, *architecture),
    {
        let mut name = String::from_str("typos-lsp-");
        name.append(version.as_str());
        name.append("-");
        name.append(architecture.token());
        name.append("-");
        name.append(platform.token());
        name.append(".");
        name.append(platform.archive_kind().extension());
        name
    }

    /// The path of the binary inside the archive.
    pub fn binary_path_within_archive(platform: &Os, architecture: &Architecture) -> (path: String)
        ensures
            path@ == path_within_archive(*platform, *architecture),
    {
        match platform {
            Os::Windows => {
                let mut path = String::from_str("target/");
                path.append(architecture.token());
                path.append("-");
                path.append(platform.token());
                path.append("/release/typos-lsp.exe");
                path
            },
            Os::Mac | Os::Linux => String::from_str("typos-lsp"),
        }
    }
}

/// The name of the directory into which the archive of `version` is unpacked.
pub fn version_directory_name(version: &String) -> (name: String)
    ensures
        name@ == version_directory(version@),
{
    let mut name = String::from_str("typos-lsp-");
    name.append(version.as_str());
    name
}

/// Finds the first asset of the given name.
pub fn find_asset<'a>(assets: &'a Vec<GithubReleaseAsset>, name: &String) -> (found: Option<
    &'a GithubReleaseAsset,
>)
    ensures
        match first_named(asset_views(assets@), name@, 0) {
            Some(position) => found == Some(&assets@[position]),
            None => found is None,
        },
{
    let ghost views = asset_views(assets@);
    let mut i: usize = 0;
    while i < assets.len()
        invariant
            i <= assets.len(),
            views == asset_views(assets@),
            first_named(views, name@, 0) == first_named(views, name@, i as int),
        decreases assets.len() - i,
    {
        if assets[i].name == *name {
            return Some(&assets[i]);
        }
        i += 1;
    }
    None
}

/// Plans the installation of a release on a platform: picks the asset by its
/// expected name and derives the directory and the binary's path from the
/// version.
pub fn plan_installation(release: &GithubRelease, platform: &Os, architecture: &Architecture) -> (plan:
    Result<Installation, ResolveError>)
    ensures
        match planned(release@, *platform, *architecture) {
            Ok(expected) => plan matches Ok(installation) && installation@ == expected,
            Err(expected) => plan matches Err(error) && error@ == expected,
        },
{
    let asset_name = TyposExtension::binary_release_name(&release.version, platform, architecture);
    match find_asset(&release.assets, &asset_name) {
        None => Err(ResolveError::AssetNotFound(asset_name)),
        Some(asset) => {
            proof {
                lemma_first_named(release@.assets, asset_name@, 0);
            }
            let version_dir = version_directory_name(&release.version);
            let within = TyposExtension::binary_path_within_archive(platform, architecture);
            let binary_path = join(version_dir.as_str(), within.as_str());
            Ok(
                Installation {
                    download_url: asset.download_url.clone(),
                    version_dir,
                    binary_path,
                    archive: platform.archive_kind(),
                },
            )
        },
    }
}

} // verus!
