//! File-system paths as text: joining (with the rules of `PathBuf::push` on
//! Unix) and taking the parent directory.

use vstd::prelude::*;

verus! {

/// `base` joined with `name` as `PathBuf::push` does on Unix: an absolute
/// `name` replaces `base`; otherwise a `/` is inserted unless `base` is empty
/// or already ends with one.
pub open spec fn join_path(base: Seq<char>, name: Seq<char>) -> Seq<char> {
    if name.len() > 0 && name[0] == '/' {
        name
    } else if base.len() == 0 || base.last() == '/' {
        base + name
    } else {
        base.push('/') + name
    }
}

/// Joins `name` onto `base` (see `join_path`).
pub fn join(base: &str, name: &str) -> (joined: String)
    ensures
        joined@ == join_path(base@, name@),
{
    let name_len = name.unicode_len();
    if name_len > 0 && name.get_char(0) == '/' {
        return String::from_str(name);
    }
    let base_len = base.unicode_len();
    let mut joined = String::from_str(base);
    if base_len > 0 && base.get_char(base_len - 1) != '/' {
        crate::text::push_char(&mut joined, '/');
    }
    joined.append(name);
    joined
}

/// What `std::path::Path::parent` returns for a path, as text.
pub uninterp spec fn path_parent(path: Seq<char>) -> Option<Seq<char>>;

/// The parent directory of `path`, from `std::path::Path::parent`.
///
/// The parent of a UTF-8 path is a prefix of it and therefore UTF-8 too, so
/// the conversion back to text loses nothing; the contract names the result.
#[verifier::external_body]
pub(crate) fn parent_of(path: &str) -> (parent: Option<String>)
    ensures
        parent is None <==> path_parent(path@) is None,
        parent matches Some(p) ==> path_parent(path@) == Some(p@),
{
    match std::path::Path::new(path).parent() {
        Some(p) => match p.to_str() {
            Some(text) => Some(text.to_string()),
            None => None,
        },
        None => None,
    }
}

} // verus!
