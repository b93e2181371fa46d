use zed_typos::{Cleanup, DirectoryEntry, TyposExtension};

fn named(name: &str) -> DirectoryEntry {
    DirectoryEntry::Named(name.to_string())
}

#[test]
fn cleanup_selects_every_other_entry() {
    let entries = vec![
        named("typos-lsp-v0.1.22"),
        named("typos-lsp-v0.1.23"),
        named("typos-lsp-v0.1.21"),
        named("notes.txt"),
    ];
    let cleanup =
        TyposExtension::clean_other_installations(&"typos-lsp-v0.1.23".to_string(), &entries);
    assert_eq!(cleanup, Cleanup { stale: vec![0, 2, 3], failure: None });
}

#[test]
fn cleanup_leaves_exactly_the_installed_version() {
    let keep = "typos-lsp-v0.1.23".to_string();
    let entries = vec![named("typos-lsp-v0.1.20"), named("typos-lsp-v0.1.23"), named("typos-lsp-v0.1.22")];
    let cleanup = TyposExtension::clean_other_installations(&keep, &entries);
    assert_eq!(cleanup.failure, None);
    let remaining: Vec<&DirectoryEntry> = entries
        .iter()
        .enumerate()
        .filter(|(position, _)| !cleanup.stale.contains(position))
        .map(|(_, entry)| entry)
        .collect();
    assert_eq!(remaining, vec![&named("typos-lsp-v0.1.23")]);
}

#[test]
fn cleanup_of_empty_listing() {
    let cleanup = TyposExtension::clean_other_installations(&"typos-lsp-v1".to_string(), &Vec::new());
    assert_eq!(cleanup, Cleanup { stale: vec![], failure: None });
}

#[test]
fn cleanup_with_only_the_kept_directory() {
    let entries = vec![named("typos-lsp-v1")];
    let cleanup = TyposExtension::clean_other_installations(&"typos-lsp-v1".to_string(), &entries);
    assert_eq!(cleanup, Cleanup { stale: vec![], failure: None });
}

#[test]
fn cleanup_compares_whole_names() {
    let entries = vec![named("typos-lsp-v1."), named("typos-lsp-v1"), named("typos-lsp-v"), named("")];
    let cleanup = TyposExtension::clean_other_installations(&"typos-lsp-v1".to_string(), &entries);
    assert_eq!(cleanup, Cleanup { stale: vec![0, 2, 3], failure: None });
}

#[test]
fn cleanup_selects_entries_without_unicode_name() {
    let entries = vec![DirectoryEntry::Unnamed, named("typos-lsp-v1"), DirectoryEntry::Unnamed];
    let cleanup = TyposExtension::clean_other_installations(&"typos-lsp-v1".to_string(), &entries);
    assert_eq!(cleanup, Cleanup { stale: vec![0, 2], failure: None });
}

#[test]
fn cleanup_stops_at_unreadable_entry() {
    let entries = vec![
        named("typos-lsp-v0"),
        named("typos-lsp-v1"),
        DirectoryEntry::Unreadable("bad entry".to_string()),
        named("typos-lsp-v2"),
        DirectoryEntry::Unreadable("worse entry".to_string()),
    ];
    let cleanup = TyposExtension::clean_other_installations(&"typos-lsp-v1".to_string(), &entries);
    assert_eq!(cleanup, Cleanup { stale: vec![0], failure: Some("bad entry".to_string()) });
}

#[test]
fn cleanup_with_unreadable_first_entry() {
    let entries = vec![DirectoryEntry::Unreadable("bad".to_string()), named("old")];
    let cleanup = TyposExtension::clean_other_installations(&"typos-lsp-v1".to_string(), &entries);
    assert_eq!(cleanup, Cleanup { stale: vec![], failure: Some("bad".to_string()) });
}
