//! Text helpers: joining relative paths, and quoting a string for a message.

use vstd::prelude::*;
use vstd::string::*;

verus! {

/// The path `base` extended by `path`, with `/` as the separator.
///
/// An absolute `path` replaces `base`. Otherwise `path` is appended, after a
/// separator unless `base` is empty or already ends in one.
pub open spec fn joined(base: Seq<char>, path: Seq<char>) -> Seq<char> {
    if path.len() > 0 && path[0] == '/' {
        path
    } else if base.len() == 0 || base.last() == '/' {
        base + path
    } else {
        base.push('/') + path
    }
}

/// Extends the path `base` by `path`.
pub fn join(base: &str, path: &str) -> (result: String)
    ensures
        result@ == joined(base@, path@),
{
    if path.unicode_len() > 0 && path.get_char(0) == '/' {
        return String::from_str(path);
    }
    let base_len: usize = base.unicode_len();
    let mut result = String::from_str(base);
    if base_len > 0 && base.get_char(base_len - 1) != '/' {
        proof {
            reveal_strlit("/");
            assert("/"@ =~= seq!['/']);
            assert(base@ + seq!['/'] =~= base@.push('/'));
        }
        result.append("/");
    }
    result.append(path);
    result
}

/// What `{:?}` prints for a string: the text between double quotes, with the
/// characters that cannot stand there as they are written as escapes.
pub uninterp spec fn debug_text(text: Seq<char>) -> Seq<char>;

/// Formats `text` with `{:?}`, the `Debug` form of `str` in the standard
/// library. The result is taken to depend on the characters of `text` alone;
/// nothing else is claimed of it.
#[verifier::external_body]
pub(crate) fn debug_format(text: &str) -> (quoted: String)
    ensures
        quoted@ == debug_text(text@),
{
    format!("{:?}", text)
}

} // verus!
