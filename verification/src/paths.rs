//! Paths as text, in the syntax of Unix: components separated by `/`, a
//! leading `/` for the root. Joining is done here; what takes a path apart
//! into its components is left to `std::path` and to `common_path`.

use vstd::prelude::*;
use vstd::string::StringExecFns;
use vstd::string::StrSliceExecFns;

verus! {

/// Whether a path starts at the root.
pub open spec fn is_rooted(p: Seq<char>) -> bool {
    p.len() > 0 && p[0] == '/'
}

/// `rel` as seen from `base`: `rel` itself where it starts at the root,
/// else `base` and `rel` with one separator between them, which is left out
/// where `base` is empty or already ends in one.
pub open spec fn join_spec(base: Seq<char>, rel: Seq<char>) -> Seq<char> {
    if is_rooted(rel) {
        rel
    } else if base.len() == 0 || base.last() == '/' {
        base + rel
    } else {
        base + seq!['/'] + rel
    }
}

/// The directory that holds `p`, as `std::path::Path::parent` gives it;
/// `None` where `p` has no parent.
pub uninterp spec fn parent_of(p: Seq<char>) -> Option<Seq<char>>;

/// Whether `a` and `b` are equal as `std::path::Path` compares them, that
/// is component by component.
pub uninterp spec fn same_path(a: Seq<char>, b: Seq<char>) -> bool;

/// The longest path that is a prefix, by whole components, of every path
/// in `paths`, as `common_path::common_path_all` gives it; `None` where
/// there is none.
pub uninterp spec fn common_prefix(paths: Seq<Seq<char>>) -> Option<Seq<char>>;

/// The text of each path.
pub open spec fn texts(paths: Seq<String>) -> Seq<Seq<char>> {
    Seq::new(paths.len(), |i: int| paths[i]@)
}

/// Whether a path starts at the root.
pub fn is_absolute(p: &str) -> (r: bool)
    ensures
        r == is_rooted(p@),
{
    p.unicode_len() > 0 && p.get_char(0) == '/'
}

/// Joins `rel` to `base`.
pub fn join(base: &str, rel: &str) -> (r: String)
    ensures
        r@ == join_spec(base@, rel@),
{
    if is_absolute(rel) {
        return String::from_str(rel);
    }
    let base_len = base.unicode_len();
    let mut out = String::from_str(base);
    if base_len > 0 && base.get_char(base_len - 1) != '/' {
        proof {
            reveal_strlit("/");
        }
        out.append("/");
        assert(out@ =~= base@ + seq!['/']);
    }
    out.append(rel);
    out
}

/// Calls `std::path::Path::parent` on `p` and copies the result. Trusted:
/// the result is that function's, and a parent is shorter than the path it
/// was taken from, being that path without its last component.
#[verifier::external_body]
pub(crate) fn parent(p: &str) -> (r: Option<String>)
    ensures
        match r {
            Some(q) => parent_of(p@) == Some(q@) && q@.len() < p@.len(),
            None => parent_of(p@) is None,
        },
{
    match std::path::Path::new(p).parent() {
        Some(q) => Some(q.to_string_lossy().into_owned()),
        None => None,
    }
}

/// Compares two paths with `==` of `std::path::Path`. Trusted: the result
/// is that comparison's.
#[verifier::external_body]
pub(crate) fn equal(a: &str, b: &str) -> (r: bool)
    ensures
        r == same_path(a@, b@),
{
    std::path::Path::new(a) == std::path::Path::new(b)
}

/// Calls `common_path::common_path_all` on `paths`, in their order, and
/// copies the result. Trusted: the result is that function's.
#[verifier::external_body]
pub(crate) fn common(paths: &Vec<String>) -> (r: Option<String>)
    ensures
        match r {
            Some(q) => common_prefix(texts(paths@)) == Some(q@),
            None => common_prefix(texts(paths@)) is None,
        },
{
    match common_path::common_path_all(paths.iter().map(std::path::Path::new)) {
        Some(q) => Some(q.to_string_lossy().into_owned()),
        None => None,
    }
}

} // verus!
