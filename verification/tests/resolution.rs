use zed_typos::{
    Answer, Architecture, ArchiveKind, DirectoryEntry, GithubRelease, GithubReleaseAsset,
    InstallationStatus, Os, Request, Resolution, ResolveError, TyposBinary, TyposExtension,
};

fn release_v0_1_23() -> GithubRelease {
    GithubRelease {
        version: "v0.1.23".to_string(),
        assets: vec![
            GithubReleaseAsset {
                name: "typos-lsp-v0.1.23-aarch64-apple-darwin.tar.gz".to_string(),
                download_url: "https://example.test/mac-arm".to_string(),
            },
            GithubReleaseAsset {
                name: "typos-lsp-v0.1.23-x86_64-unknown-linux-gnu.tar.gz".to_string(),
                download_url: "https://example.test/linux".to_string(),
            },
            GithubReleaseAsset {
                name: "typos-lsp-v0.1.23-x86_64-pc-windows-msvc.zip".to_string(),
                download_url: "https://example.test/windows".to_string(),
            },
        ],
    }
}

fn binary(path: &str) -> TyposBinary {
    TyposBinary { path: path.to_string(), args: vec![] }
}

fn named(name: &str) -> DirectoryEntry {
    DirectoryEntry::Named(name.to_string())
}

/// Feeds the answers in order and returns the requests that were made, the
/// first included, and the resolution as it then stands.
fn drive(
    extension: &mut TyposExtension,
    os: Os,
    architecture: Architecture,
    answers: Vec<Answer>,
) -> (Vec<String>, Resolution) {
    let mut resolution = Resolution::begin(os, architecture);
    let mut requests = vec![format!("{:?}", resolution.request())];
    for answer in answers {
        resolution = extension.language_server_binary(resolution, answer);
        requests.push(format!("{:?}", resolution.request()));
    }
    (requests, resolution)
}

fn install_on_linux(extension: &mut TyposExtension) -> Resolution {
    let (_, resolution) = drive(
        extension,
        Os::Linux,
        Architecture::X8664,
        vec![
            Answer::Which(None),
            Answer::StatusSet,
            Answer::LatestRelease(Ok(release_v0_1_23())),
            Answer::IsFile(false),
            Answer::StatusSet,
            Answer::Downloaded(Ok(())),
            Answer::Listing(Ok(vec![named("typos-lsp-v0.1.22"), named("typos-lsp-v0.1.23")])),
            Answer::Removed,
        ],
    );
    resolution
}

#[test]
fn new_extension_remembers_nothing() {
    assert_eq!(TyposExtension::new().cached_binary_path(), None);
}

#[test]
fn resolution_starts_with_path_lookup() {
    let resolution = Resolution::begin(Os::Mac, Architecture::Aarch64);
    assert_eq!(resolution.request(), Some(Request::Which { name: "typos-lsp" }));
    assert!(!resolution.is_finished());
    assert_eq!(resolution.outcome(), None);
}

#[test]
fn binary_on_path_is_taken_at_once() {
    let mut extension = TyposExtension::new();
    let resolution = Resolution::begin(Os::Linux, Architecture::X8664);
    let resolution = extension
        .language_server_binary(resolution, Answer::Which(Some("/usr/bin/typos-lsp".to_string())));
    assert!(resolution.is_finished());
    assert_eq!(resolution.request(), None);
    assert_eq!(resolution.outcome(), Some(Ok(binary("/usr/bin/typos-lsp"))));
    assert_eq!(extension.cached_binary_path(), None);
}

#[test]
fn binary_on_path_wins_over_remembered_path() {
    let mut extension = TyposExtension::new();
    install_on_linux(&mut extension);
    assert_eq!(extension.cached_binary_path(), Some(&"typos-lsp-v0.1.23/typos-lsp".to_string()));
    let (requests, resolution) = drive(
        &mut extension,
        Os::Linux,
        Architecture::X8664,
        vec![Answer::Which(Some("/opt/bin/typos-lsp".to_string()))],
    );
    assert_eq!(requests.len(), 2);
    assert_eq!(resolution.outcome(), Some(Ok(binary("/opt/bin/typos-lsp"))));
    assert_eq!(extension.cached_binary_path(), Some(&"typos-lsp-v0.1.23/typos-lsp".to_string()));
}

#[test]
fn fresh_installation_on_linux() {
    let mut extension = TyposExtension::new();
    let mut resolution = Resolution::begin(Os::Linux, Architecture::X8664);
    assert_eq!(resolution.request(), Some(Request::Which { name: "typos-lsp" }));

    resolution = extension.language_server_binary(resolution, Answer::Which(None));
    assert_eq!(
        resolution.request(),
        Some(Request::SetStatus { status: InstallationStatus::CheckingForUpdate })
    );

    resolution = extension.language_server_binary(resolution, Answer::StatusSet);
    assert_eq!(
        resolution.request(),
        Some(Request::LatestRelease {
            repository: "tekumara/typos-lsp",
            require_assets: true,
            pre_release: false
        })
    );

    resolution =
        extension.language_server_binary(resolution, Answer::LatestRelease(Ok(release_v0_1_23())));
    assert_eq!(resolution.request(), Some(Request::IsFile { path: "typos-lsp-v0.1.23/typos-lsp" }));

    resolution = extension.language_server_binary(resolution, Answer::IsFile(false));
    assert_eq!(
        resolution.request(),
        Some(Request::SetStatus { status: InstallationStatus::Downloading })
    );

    resolution = extension.language_server_binary(resolution, Answer::StatusSet);
    assert_eq!(
        resolution.request(),
        Some(Request::Download {
            url: "https://example.test/linux",
            directory: "typos-lsp-v0.1.23",
            archive: ArchiveKind::GzipTar
        })
    );

    resolution = extension.language_server_binary(resolution, Answer::Downloaded(Ok(())));
    assert_eq!(resolution.request(), Some(Request::ListDirectory { path: "." }));
    assert_eq!(extension.cached_binary_path(), None);

    let listing = vec![
        named("typos-lsp-v0.1.21"),
        named("typos-lsp-v0.1.23"),
        DirectoryEntry::Unnamed,
        named("typos-lsp-v0.1.22"),
    ];
    resolution = extension.language_server_binary(resolution, Answer::Listing(Ok(listing)));
    let stale: [usize; 3] = [0, 2, 3];
    assert_eq!(resolution.request(), Some(Request::RemoveEntries { entries: &stale }));
    assert_eq!(extension.cached_binary_path(), None);

    resolution = extension.language_server_binary(resolution, Answer::Removed);
    assert!(resolution.is_finished());
    assert_eq!(resolution.request(), None);
    assert_eq!(resolution.outcome(), Some(Ok(binary("typos-lsp-v0.1.23/typos-lsp"))));
    assert_eq!(extension.cached_binary_path(), Some(&"typos-lsp-v0.1.23/typos-lsp".to_string()));
}

#[test]
fn fresh_installation_on_windows() {
    let mut extension = TyposExtension::new();
    let (requests, resolution) = drive(
        &mut extension,
        Os::Windows,
        Architecture::X86,
        vec![
            Answer::Which(None),
            Answer::StatusSet,
            Answer::LatestRelease(Ok(release_v0_1_23())),
            Answer::IsFile(false),
            Answer::StatusSet,
        ],
    );
    assert_eq!(
        resolution.request(),
        Some(Request::Download {
            url: "https://example.test/windows",
            directory: "typos-lsp-v0.1.23",
            archive: ArchiveKind::Zip
        })
    );
    assert_eq!(
        requests[3],
        format!(
            "{:?}",
            Some(Request::IsFile {
                path: "typos-lsp-v0.1.23/target/x86_64-pc-windows-msvc/release/typos-lsp.exe"
            })
        )
    );
}

#[test]
fn installed_binary_skips_the_download() {
    let mut extension = TyposExtension::new();
    let (requests, resolution) = drive(
        &mut extension,
        Os::Mac,
        Architecture::Aarch64,
        vec![
            Answer::Which(None),
            Answer::StatusSet,
            Answer::LatestRelease(Ok(release_v0_1_23())),
            Answer::IsFile(true),
        ],
    );
    assert!(requests.iter().all(|request| !request.contains("Download")));
    assert!(requests.iter().all(|request| !request.contains("RemoveEntries")));
    assert_eq!(resolution.outcome(), Some(Ok(binary("typos-lsp-v0.1.23/typos-lsp"))));
    assert_eq!(extension.cached_binary_path(), Some(&"typos-lsp-v0.1.23/typos-lsp".to_string()));
}

#[test]
fn second_resolution_is_served_from_memory() {
    let mut extension = TyposExtension::new();
    let first = install_on_linux(&mut extension).outcome();
    assert_eq!(first, Some(Ok(binary("typos-lsp-v0.1.23/typos-lsp"))));

    let (requests, second) = drive(
        &mut extension,
        Os::Linux,
        Architecture::X8664,
        vec![Answer::Which(None), Answer::IsFile(true)],
    );
    assert_eq!(
        requests,
        vec![
            format!("{:?}", Some(Request::Which { name: "typos-lsp" })),
            format!("{:?}", Some(Request::IsFile { path: "typos-lsp-v0.1.23/typos-lsp" })),
            "None".to_string(),
        ]
    );
    assert_eq!(second.outcome(), first);
    assert_eq!(extension.cached_binary_path(), Some(&"typos-lsp-v0.1.23/typos-lsp".to_string()));
}

#[test]
fn second_resolution_from_path_is_the_same() {
    let mut extension = TyposExtension::new();
    let on_path = || Answer::Which(Some("/usr/local/bin/typos-lsp".to_string()));
    let (_, first) = drive(&mut extension, Os::Mac, Architecture::X8664, vec![on_path()]);
    let (requests, second) = drive(&mut extension, Os::Mac, Architecture::X8664, vec![on_path()]);
    assert_eq!(requests.len(), 2);
    assert_eq!(requests[1], "None");
    assert_eq!(second.outcome(), first.outcome());
}

#[test]
fn deleted_file_is_not_reused() {
    let mut extension = TyposExtension::new();
    install_on_linux(&mut extension);

    let mut resolution = Resolution::begin(Os::Linux, Architecture::X8664);
    resolution = extension.language_server_binary(resolution, Answer::Which(None));
    assert_eq!(resolution.request(), Some(Request::IsFile { path: "typos-lsp-v0.1.23/typos-lsp" }));

    resolution = extension.language_server_binary(resolution, Answer::IsFile(false));
    assert!(!resolution.is_finished());
    assert_eq!(
        resolution.request(),
        Some(Request::SetStatus { status: InstallationStatus::CheckingForUpdate })
    );

    resolution = extension.language_server_binary(resolution, Answer::StatusSet);
    assert_eq!(
        resolution.request(),
        Some(Request::LatestRelease {
            repository: "tekumara/typos-lsp",
            require_assets: true,
            pre_release: false
        })
    );
}

#[test]
fn deleted_file_with_surviving_directory_skips_the_download() {
    let mut extension = TyposExtension::new();
    install_on_linux(&mut extension);
    let (requests, resolution) = drive(
        &mut extension,
        Os::Linux,
        Architecture::X8664,
        vec![
            Answer::Which(None),
            Answer::IsFile(false),
            Answer::StatusSet,
            Answer::LatestRelease(Ok(release_v0_1_23())),
            Answer::IsFile(true),
        ],
    );
    assert!(requests.iter().all(|request| !request.contains("Download")));
    assert_eq!(resolution.outcome(), Some(Ok(binary("typos-lsp-v0.1.23/typos-lsp"))));
}

#[test]
fn missing_asset_fails_before_any_download() {
    let mut extension = TyposExtension::new();
    let release = GithubRelease {
        version: "v0.1.23".to_string(),
        assets: vec![GithubReleaseAsset {
            name: "typos-lsp-v0.1.23-x86_64-pc-windows-msvc.zip".to_string(),
            download_url: "https://example.test/windows".to_string(),
        }],
    };
    let (requests, resolution) = drive(
        &mut extension,
        Os::Mac,
        Architecture::Aarch64,
        vec![Answer::Which(None), Answer::StatusSet, Answer::LatestRelease(Ok(release))],
    );
    assert_eq!(requests.len(), 4);
    assert_eq!(requests[3], "None");
    assert!(requests.iter().all(|request| !request.contains("Download")));
    let outcome = resolution.outcome();
    assert_eq!(
        outcome,
        Some(Err(ResolveError::AssetNotFound(
            "typos-lsp-v0.1.23-aarch64-apple-darwin.tar.gz".to_string()
        )))
    );
    assert_eq!(
        TyposExtension::language_server_command(outcome.unwrap()),
        Err("no asset found matching \"typos-lsp-v0.1.23-aarch64-apple-darwin.tar.gz\"".to_string())
    );
    assert_eq!(extension.cached_binary_path(), None);
}

#[test]
fn release_without_assets_fails() {
    let mut extension = TyposExtension::new();
    let release = GithubRelease { version: "v9".to_string(), assets: vec![] };
    let (_, resolution) = drive(
        &mut extension,
        Os::Linux,
        Architecture::Aarch64,
        vec![Answer::Which(None), Answer::StatusSet, Answer::LatestRelease(Ok(release))],
    );
    assert_eq!(
        resolution.outcome(),
        Some(Err(ResolveError::AssetNotFound(
            "typos-lsp-v9-aarch64-unknown-linux-gnu.tar.gz".to_string()
        )))
    );
}

#[test]
fn failed_release_query_ends_the_resolution() {
    let mut extension = TyposExtension::new();
    let (_, resolution) = drive(
        &mut extension,
        Os::Linux,
        Architecture::X8664,
        vec![
            Answer::Which(None),
            Answer::StatusSet,
            Answer::LatestRelease(Err("no network".to_string())),
        ],
    );
    assert_eq!(
        resolution.outcome(),
        Some(Err(ResolveError::ReleaseQuery("no network".to_string())))
    );
    assert_eq!(extension.cached_binary_path(), None);
}

#[test]
fn failed_download_ends_the_resolution() {
    let mut extension = TyposExtension::new();
    let (requests, resolution) = drive(
        &mut extension,
        Os::Linux,
        Architecture::X8664,
        vec![
            Answer::Which(None),
            Answer::StatusSet,
            Answer::LatestRelease(Ok(release_v0_1_23())),
            Answer::IsFile(false),
            Answer::StatusSet,
            Answer::Downloaded(Err("disk full".to_string())),
        ],
    );
    assert!(requests.iter().all(|request| !request.contains("ListDirectory")));
    assert!(requests.iter().all(|request| !request.contains("RemoveEntries")));
    assert_eq!(resolution.outcome(), Some(Err(ResolveError::Download("disk full".to_string()))));
    assert_eq!(extension.cached_binary_path(), None);
}

#[test]
fn failed_listing_ends_the_resolution() {
    let mut extension = TyposExtension::new();
    let (requests, resolution) = drive(
        &mut extension,
        Os::Linux,
        Architecture::X8664,
        vec![
            Answer::Which(None),
            Answer::StatusSet,
            Answer::LatestRelease(Ok(release_v0_1_23())),
            Answer::IsFile(false),
            Answer::StatusSet,
            Answer::Downloaded(Ok(())),
            Answer::Listing(Err("permission denied".to_string())),
        ],
    );
    assert!(requests.iter().all(|request| !request.contains("RemoveEntries")));
    assert_eq!(
        resolution.outcome(),
        Some(Err(ResolveError::ListDirectory("permission denied".to_string())))
    );
    assert_eq!(extension.cached_binary_path(), None);
}

#[test]
fn unreadable_entry_fails_after_the_earlier_removals() {
    let mut extension = TyposExtension::new();
    let (_, mut resolution) = drive(
        &mut extension,
        Os::Linux,
        Architecture::X8664,
        vec![
            Answer::Which(None),
            Answer::StatusSet,
            Answer::LatestRelease(Ok(release_v0_1_23())),
            Answer::IsFile(false),
            Answer::StatusSet,
            Answer::Downloaded(Ok(())),
            Answer::Listing(Ok(vec![
                named("typos-lsp-v0.1.22"),
                DirectoryEntry::Unreadable("stale handle".to_string()),
                named("typos-lsp-v0.1.21"),
            ])),
        ],
    );
    let stale: [usize; 1] = [0];
    assert_eq!(resolution.request(), Some(Request::RemoveEntries { entries: &stale }));
    resolution = extension.language_server_binary(resolution, Answer::Removed);
    assert_eq!(
        resolution.outcome(),
        Some(Err(ResolveError::DirectoryEntry("stale handle".to_string())))
    );
    assert_eq!(extension.cached_binary_path(), None);
}

#[test]
fn unexpected_answer_changes_nothing() {
    let mut extension = TyposExtension::new();
    let mut resolution = Resolution::begin(Os::Linux, Architecture::X8664);
    resolution = extension.language_server_binary(resolution, Answer::IsFile(true));
    assert_eq!(resolution.request(), Some(Request::Which { name: "typos-lsp" }));
    resolution = extension.language_server_binary(resolution, Answer::Removed);
    assert_eq!(resolution.request(), Some(Request::Which { name: "typos-lsp" }));
    resolution = extension.language_server_binary(resolution, Answer::Which(None));
    resolution = extension
        .language_server_binary(resolution, Answer::Which(Some("/usr/bin/typos-lsp".to_string())));
    assert_eq!(
        resolution.request(),
        Some(Request::SetStatus { status: InstallationStatus::CheckingForUpdate })
    );
    assert_eq!(extension.cached_binary_path(), None);
}

#[test]
fn finished_resolution_ignores_further_answers() {
    let mut extension = TyposExtension::new();
    let mut resolution = Resolution::begin(Os::Linux, Architecture::X8664);
    resolution = extension
        .language_server_binary(resolution, Answer::Which(Some("/usr/bin/typos-lsp".to_string())));
    resolution = extension.language_server_binary(resolution, Answer::IsFile(false));
    resolution = extension.language_server_binary(resolution, Answer::Which(None));
    assert_eq!(resolution.outcome(), Some(Ok(binary("/usr/bin/typos-lsp"))));
}

#[test]
fn newer_release_replaces_the_remembered_path() {
    let mut extension = TyposExtension::new();
    install_on_linux(&mut extension);
    let release = GithubRelease {
        version: "v0.2.0".to_string(),
        assets: vec![GithubReleaseAsset {
            name: "typos-lsp-v0.2.0-x86_64-unknown-linux-gnu.tar.gz".to_string(),
            download_url: "https://example.test/linux-0.2.0".to_string(),
        }],
    };
    let (_, resolution) = drive(
        &mut extension,
        Os::Linux,
        Architecture::X8664,
        vec![
            Answer::Which(None),
            Answer::IsFile(false),
            Answer::StatusSet,
            Answer::LatestRelease(Ok(release)),
            Answer::IsFile(false),
            Answer::StatusSet,
            Answer::Downloaded(Ok(())),
            Answer::Listing(Ok(vec![named("typos-lsp-v0.1.23"), named("typos-lsp-v0.2.0")])),
            Answer::Removed,
        ],
    );
    assert_eq!(resolution.outcome(), Some(Ok(binary("typos-lsp-v0.2.0/typos-lsp"))));
    assert_eq!(extension.cached_binary_path(), Some(&"typos-lsp-v0.2.0/typos-lsp".to_string()));
}
