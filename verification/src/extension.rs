//! The extension instance and the one thing it remembers between resolutions.

use vstd::prelude::*;

verus! {

/// One instance of the extension. It remembers the path of the binary that the
/// last successful installation check or download resolved to.
pub struct TyposExtension {
    pub(crate) cached_binary_path: Option<String>,
}

impl View for TyposExtension {
    type V = Option<Seq<char>>;

    /// The remembered binary path, if any.
    open(crate) spec fn view(&self) -> Option<Seq<char>> {
        match self.cached_binary_path {
            Some(path) => Some(path@),
            None => None,
        }
    }
}

impl TyposExtension {
    /// An instance that remembers nothing yet.
    pub fn new() -> (extension: Self)
        ensures
            extension@ is None,
    {
        TyposExtension { cached_binary_path: None }
    }

    /// The remembered binary path, if any.
    pub fn cached_binary_path(&self) -> (path: Option<&String>)
        ensures
            match path {
                Some(path) => self@ == Some(path@),
                None => self@ is None,
            },
    {
        self.cached_binary_path.as_ref()
    }
}

} // verus!
