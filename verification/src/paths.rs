//! File system paths, as `std::path::Path` reads them.
use vstd::prelude::*;

verus! {

/// The parent of the path `p`, as `Path::parent` gives it, written out as
/// text; none for a root or an empty path.
pub uninterp spec fn path_parent_of(p: Seq<char>) -> Option<Seq<char>>;

/// The path `tail` joined onto `base`, as `Path::join` gives it on a target
/// whose paths are separated by `/`, written out as text: an absolute
/// `tail` (one that starts at the root `/`) replaces `base`; otherwise a
/// separator goes between them unless `base` is empty or already ends in
/// one.
pub open spec fn path_join_of(base: Seq<char>, tail: Seq<char>) -> Seq<char> {
    if tail.len() > 0 && tail[0] == '/' {
        tail
    } else if base.len() == 0 || base.last() == '/' {
        base + tail
    } else {
        base + "/"@ + tail
    }
}

/// Calls `std::path::Path::parent` on `p` and writes the parent out as
/// text. Its result is taken to be `path_parent_of(p)`: what the parent is
/// of a given path is left unsaid.
#[verifier::external_body]
pub(crate) fn path_parent(p: &str) -> (r: Option<String>)
    ensures
        match r {
            Some(q) => path_parent_of(p@) == Some(q@),
            None => path_parent_of(p@) is None,
        },
{
    match std::path::Path::new(p).parent() {
        Some(q) => Some(q.to_string_lossy().to_string()),
        None => None,
    }
}

/// Calls `std::path::Path::join` on `base` and `tail` and writes the result
/// out as text; the contract claims that the result is `path_join_of(base,
/// tail)`, the joining rule of `PathBuf::push` on targets with `/` paths.
#[verifier::external_body]
pub(crate) fn path_join(base: &str, tail: &str) -> (r: String)
    ensures
        r@ == path_join_of(base@, tail@),
{
    std::path::Path::new(base).join(tail).to_string_lossy().to_string()
}

} // verus!
