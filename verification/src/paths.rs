//! Where repositories live on disk: full checkouts under the working root,
//! served bare copies as `<name>.git` under the bare root, and the textual
//! path manipulation the pipeline needs.
use vstd::prelude::*;
use vstd::string::StrSliceExecFns;
use vstd::string::StringExecFns;
use crate::text::{starts_with_seq, str_starts_with};

verus! {

/// The root under which full working checkouts live.
pub fn working_root() -> (r: &'static str)
    ensures
        r@ == "test_repos"@,
{
    "test_repos"
}

/// The root under which served bare copies live.
pub fn bare_root() -> (r: &'static str)
    ensures
        r@ == "bare_repos"@,
{
    "bare_repos"
}

/// The working checkout of the named repository.
pub fn working_repo_path(name: &str) -> (r: String)
    ensures
        r@ == "test_repos/"@ + name@,
{
    let mut p = String::from_str("test_repos/");
    p.append(name);
    p
}

/// The bare serving copy of the named repository.
pub fn bare_repo_target(name: &str) -> (r: String)
    ensures
        r@ == "bare_repos/"@ + name@ + ".git"@,
{
    let mut p = String::from_str("bare_repos/");
    p.append(name);
    p.append(".git");
    p
}

/// The version-control metadata directory under `path`.
pub fn git_meta_path(path: &str) -> (r: String)
    ensures
        r@ == path@ + "/.git"@,
{
    let mut p = String::from_str(path);
    p.append("/.git");
    p
}

/// `path` made relative to `root`: the part after the root and its
/// separator when `root` is a path-wise prefix, `path` itself otherwise.
pub open spec fn stripped_name(path: Seq<char>, root: Seq<char>) -> Seq<char> {
    if starts_with_seq(path, root) {
        let rest = path.skip(root.len() as int);
        if rest.len() > 0 && rest[0] == '/' {
            rest.skip(1)
        } else if root.len() > 0 && root[root.len() - 1] == '/' {
            rest
        } else if rest.len() == 0 {
            rest
        } else {
            path
        }
    } else {
        path
    }
}

/// Strips `root` (and the separator after it) off the front of `path`.
pub fn strip_root(path: &str, root: &str) -> (r: String)
    ensures
        r@ == stripped_name(path@, root@),
{
    let n = path.unicode_len();
    let m = root.unicode_len();
    if !str_starts_with(path, root) {
        return String::from_str(path);
    }
    let rest = path.substring_char(m, n);
    proof {
        assert(rest@ =~= path@.skip(m as int));
    }
    let k = rest.unicode_len();
    if k > 0 && rest.get_char(0) == '/' {
        let out = rest.substring_char(1, k);
        proof {
            assert(out@ =~= path@.skip(m as int).skip(1));
        }
        String::from_str(out)
    } else if m > 0 && root.get_char(m - 1) == '/' {
        String::from_str(rest)
    } else if k == 0 {
        String::from_str(rest)
    } else {
        String::from_str(path)
    }
}

} // verus!
