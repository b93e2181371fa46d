//! The ways in which locating the language server can fail.

use vstd::prelude::*;
use vstd::string::*;
use crate::text::{debug_format, debug_text};

verus! {

/// Why no language-server binary could be resolved.
#[derive(Clone, Debug, PartialEq, Eq)]
pub enum ResolveError {
    /// The release index could not be queried; holds the host's message.
    ReleaseQuery(String),
    /// The latest release has no asset of the expected name; holds that name.
    AssetNotFound(String),
    /// The archive could not be downloaded or unpacked; holds the host's message.
    Download(String),
    /// The working directory could not be listed; holds the host's message.
    ListDirectory(String),
    /// An entry of the working directory could not be read; holds the host's
    /// message.
    DirectoryEntry(String),
}

/// The mathematical content of a [`ResolveError`].
pub enum ResolveErrorView {
    ReleaseQuery(Seq<char>),
    AssetNotFound(Seq<char>),
    Download(Seq<char>),
    ListDirectory(Seq<char>),
    DirectoryEntry(Seq<char>),
}

impl View for ResolveError {
    type V = ResolveErrorView;

    open spec fn view(&self) -> ResolveErrorView {
        match *self {
            ResolveError::ReleaseQuery(message) => ResolveErrorView::ReleaseQuery(message@),
            ResolveError::AssetNotFound(expected) => ResolveErrorView::AssetNotFound(expected@),
            ResolveError::Download(message) => ResolveErrorView::Download(message@),
            ResolveError::ListDirectory(message) => ResolveErrorView::ListDirectory(message@),
            ResolveError::DirectoryEntry(message) => ResolveErrorView::DirectoryEntry(message@),
        }
    }
}

/// The message for a missing asset, given the expected name already quoted.
pub open spec fn asset_not_found_text(quoted: Seq<char>) -> Seq<char> {
    "no asset found matching "@ + quoted
}

/// The message by which an error is reported to the host.
pub open spec fn message_text(error: ResolveErrorView) -> Seq<char> {
    match error {
        ResolveErrorView::ReleaseQuery(message) => message,
        ResolveErrorView::AssetNotFound(expected) => asset_not_found_text(debug_text(expected)),
        ResolveErrorView::Download(message) => "failed to download file: "@ + message,
        ResolveErrorView::ListDirectory(message) => "failed to list working directory "@ + message,
        ResolveErrorView::DirectoryEntry(message) => "failed to load directory entry "@ + message,
    }
}

/// `prefix` followed by `rest`.
fn prefixed(prefix: &str, rest: &str) -> (text: String)
    ensures
        text@ == prefix@ + rest@,
{
    let mut text = String::from_str(prefix);
    text.append(rest);
    text
}

/// The message for a missing asset whose expected name, quoted, is `quoted`.
pub fn asset_not_found_message(quoted: &str) -> (message: String)
    ensures
        message@ == asset_not_found_text(quoted@),
{
    prefixed("no asset found matching ", quoted)
}

impl ResolveError {
    /// The message by which this error is reported to the host.
    pub fn message(&self) -> (message: String)
        ensures
            message@ == message_text(self@),
    {
        match self {
            ResolveError::ReleaseQuery(message) => message.clone(),
            ResolveError::AssetNotFound(expected) => {
                let quoted = debug_format(expected.as_str());
                asset_not_found_message(quoted.as_str())
            },
            ResolveError::Download(message) => prefixed(
                "failed to download file: ",
                message.as_str(),
            ),
            ResolveError::ListDirectory(message) => prefixed(
                "failed to list working directory ",
                message.as_str(),
            ),
            ResolveError::DirectoryEntry(message) => prefixed(
                "failed to load directory entry ",
                message.as_str(),
            ),
        }
    }
}

} // verus!
