//! Which entries of the working directory go once a version is installed.

use vstd::prelude::*;
use vstd::string::*;
use crate::extension::TyposExtension;

verus! {

/// One entry of a directory listing.
#[derive(Clone, Debug, PartialEq, Eq)]
pub enum DirectoryEntry {
    /// An entry with the given name.
    Named(String),
    /// An entry whose name is not valid Unicode.
    Unnamed,
    /// An entry that could not be read; holds the host's message.
    Unreadable(String),
}

/// The mathematical content of a [`DirectoryEntry`].
pub enum EntryView {
    Named(Seq<char>),
    Unnamed,
    Unreadable(Seq<char>),
}

impl View for DirectoryEntry {
    type V = EntryView;

    open spec fn view(&self) -> EntryView {
        match *self {
            DirectoryEntry::Named(name) => EntryView::Named(name@),
            DirectoryEntry::Unnamed => EntryView::Unnamed,
            DirectoryEntry::Unreadable(message) => EntryView::Unreadable(message@),
        }
    }
}

/// The views of the entries of a listing, in order.
pub open spec fn entry_views(entries: Seq<DirectoryEntry>) -> Seq<EntryView> {
    Seq::new(entries.len(), |i: int| entries[i]@)
}

/// What is to be done with a listing: the positions of the entries to remove,
/// in ascending order, and the message of the entry at which reading failed.
#[derive(Clone, Debug, PartialEq, Eq)]
pub struct Cleanup {
    pub stale: Vec<usize>,
    pub failure: Option<String>,
}

/// The mathematical content of a [`Cleanup`].
pub struct CleanupView {
    pub stale: Seq<usize>,
    pub failure: Option<Seq<char>>,
}

impl View for Cleanup {
    type V = CleanupView;

    open spec fn view(&self) -> CleanupView {
        CleanupView {
            stale: self.stale@,
            failure: match self.failure {
                Some(message) => Some(message@),
                None => None,
            },
        }
    }
}

/// Whether an entry is to be removed when `keep` names the directory to keep:
/// every entry that was read and is not named `keep`.
pub open spec fn is_stale(entry: EntryView, keep: Seq<char>) -> bool {
    match entry {
        EntryView::Named(name) => name != keep,
        EntryView::Unnamed => true,
        EntryView::Unreadable(_) => false,
    }
}

/// The position of the first entry at or after `from` that could not be read,
/// or the length of the listing where all of them could.
pub open spec fn readable_until(entries: Seq<EntryView>, from: int) -> int
    decreases entries.len() - from,
{
    if from < 0 || from >= entries.len() {
        entries.len() as int
    } else if entries[from] is Unreadable {
        from
    } else {
        readable_until(entries, from + 1)
    }
}

/// The positions below `end` of the entries to remove, in ascending order.
pub open spec fn stale_below(entries: Seq<EntryView>, keep: Seq<char>, end: int) -> Seq<usize>
    decreases end,
{
    if end <= 0 {
        Seq::empty()
    } else if is_stale(entries[end - 1], keep) {
        stale_below(entries, keep, end - 1).push((end - 1) as usize)
    } else {
        stale_below(entries, keep, end - 1)
    }
}

/// The cleanup that a listing calls for. Entries are taken in order up to the
/// first that could not be read: those before it that are not named `keep` go,
/// and its message is the failure.
pub open spec fn cleanup_of(entries: Seq<EntryView>, keep: Seq<char>) -> CleanupView {
    let end = readable_until(entries, 0);
    CleanupView {
        stale: stale_below(entries, keep, end),
        failure: if end < entries.len() {
            Some(entries[end]->Unreadable_0)
        } else {
            None
        },
    }
}

impl TyposExtension {
    /// Selects every entry of the working directory that is to be removed so
    /// that only the directory named `version_to_keep` stays.
    pub fn clean_other_installations(
        version_to_keep: &String,
        entries: &Vec<DirectoryEntry>,
    ) -> (cleanup: Cleanup)
        ensures
            cleanup@ == cleanup_of(entry_views(entries@), version_to_keep@),
    {
        let ghost views = entry_views(entries@);
        let mut stale: Vec<usize> = Vec::new();
        let mut i: usize = 0;
        while i < entries.len()
            invariant
                i <= entries.len(),
                views == entry_views(entries@),
                readable_until(views, 0) == readable_until(views, i as int),
                stale@ == stale_below(views, version_to_keep@, i as int),
            decreases entries.len() - i,
        {
            match &entries[i] {
                DirectoryEntry::Unreadable(message) => {
                    return Cleanup { stale, failure: Some(message.clone()) };
                },
                DirectoryEntry::Unnamed => {
                    stale.push(i);
                },
                DirectoryEntry::Named(name) => {
                    if *name != *version_to_keep {
                        stale.push(i);
                    }
                },
            }
            i += 1;
        }
        Cleanup { stale, failure: None }
    }
}

} // verus!
