//! The mirror pipeline: authenticated clone, fast-forward pull, bare-copy
//! sync, branch and repository enumeration, and path-safety validation.
//! Every operation reopens the repository it works on by path and fails
//! fast; only the post-push bookkeeping and the post-pull re-sync are
//! downgraded to warnings.
use vstd::prelude::*;
use vstd::string::StrSliceExecFns;
use vstd::string::StringExecFns;
use crate::errors::GitServiceError;
use crate::gitops;
use crate::paths::{bare_repo_target, git_meta_path, strip_root, working_repo_path};
use crate::text::{contains_seq, starts_with_seq, str_contains, str_eq, str_starts_with};

verus! {

/// How the fetched tip relates to the local one.
#[derive(PartialEq, Eq, Structural, Clone, Copy, Debug)]
pub enum MergeState {
    UpToDate,
    FastForward,
    Diverged,
}

/// What a pull does for each merge state.
#[derive(PartialEq, Eq, Structural, Clone, Copy, Debug)]
pub enum PullAction {
    ReturnUpToDate,
    FastForwardAndSync,
    FailManualMerge,
}

/// The up-to-date bit of the underlying library's merge analysis.
pub const MERGE_ANALYSIS_UP_TO_DATE: u32 = 2;

/// The fast-forward bit of the underlying library's merge analysis.
pub const MERGE_ANALYSIS_FASTFORWARD: u32 = 4;

/// Classifies a raw merge-analysis bit set: the up-to-date bit wins, then
/// the fast-forward bit; anything else needs a manual merge.
pub fn classify_merge_analysis(bits: u32) -> (r: MergeState)
    ensures
        bits & MERGE_ANALYSIS_UP_TO_DATE != 0 ==> r == MergeState::UpToDate,
        bits & MERGE_ANALYSIS_UP_TO_DATE == 0 && bits & MERGE_ANALYSIS_FASTFORWARD != 0 ==> r
            == MergeState::FastForward,
        bits & MERGE_ANALYSIS_UP_TO_DATE == 0 && bits & MERGE_ANALYSIS_FASTFORWARD == 0 ==> r
            == MergeState::Diverged,
{
    if bits & MERGE_ANALYSIS_UP_TO_DATE != 0 {
        MergeState::UpToDate
    } else if bits & MERGE_ANALYSIS_FASTFORWARD != 0 {
        MergeState::FastForward
    } else {
        MergeState::Diverged
    }
}

/// The pull state machine: up to date returns without mutating anything,
/// a fast-forward moves the branch and re-syncs the bare copy, and a
/// diverged history is never merged automatically.
pub fn decide_pull_action(state: MergeState) -> (r: PullAction)
    ensures
        state == MergeState::UpToDate <==> r == PullAction::ReturnUpToDate,
        state == MergeState::FastForward <==> r == PullAction::FastForwardAndSync,
        state == MergeState::Diverged <==> r == PullAction::FailManualMerge,
{
    match state {
        MergeState::UpToDate => PullAction::ReturnUpToDate,
        MergeState::FastForward => PullAction::FastForwardAndSync,
        MergeState::Diverged => PullAction::FailManualMerge,
    }
}

/// The refspec fetched for the current branch: only that branch, forced,
/// into its remote-tracking reference.
pub open spec fn fetch_refspec_spec(branch: Seq<char>) -> Seq<char> {
    "+refs/heads/"@ + branch + ":refs/remotes/origin/"@ + branch
}

/// Builds the fetch refspec for `branch`.
pub fn fetch_refspec(branch: &str) -> (r: String)
    ensures
        r@ == fetch_refspec_spec(branch@),
{
    let mut s = String::from_str("+refs/heads/");
    s.append(branch);
    s.append(":refs/remotes/origin/");
    s.append(branch);
    s
}

/// The full reference name of a local branch.
pub open spec fn branch_refname_spec(branch: Seq<char>) -> Seq<char> {
    "refs/heads/"@ + branch
}

/// Builds the full reference name of `branch`.
pub fn branch_refname(branch: &str) -> (r: String)
    ensures
        r@ == branch_refname_spec(branch@),
{
    let mut s = String::from_str("refs/heads/");
    s.append(branch);
    s
}

/// A same-name push refspec under `prefix` (a reference namespace such as
/// `refs/heads/`).
pub open spec fn refspec_pair(prefix: Seq<char>, name: Seq<char>) -> Seq<char> {
    prefix + name + ":"@ + prefix + name
}

/// One push refspec per present name, in order, under `prefix`.
pub open spec fn name_refspecs(names: Seq<Option<Seq<char>>>, prefix: Seq<char>) -> Seq<Seq<char>>
    decreases names.len(),
{
    if names.len() == 0 {
        Seq::empty()
    } else {
        let rest = name_refspecs(names.drop_first(), prefix);
        match names[0] {
            Option::Some(n) => seq![refspec_pair(prefix, n)] + rest,
            Option::None => rest,
        }
    }
}

/// With no names at all there are no refspecs: a sync of a repository with
/// zero branches and zero tags has nothing to push.
pub proof fn lemma_no_names_no_refspecs(names: Seq<Option<Seq<char>>>, prefix: Seq<char>)
    requires
        forall|i: int| 0 <= i < names.len() ==> names[i] is None,
    ensures
        name_refspecs(names, prefix) == Seq::<Seq<char>>::empty(),
    decreases names.len(),
{
    if names.len() > 0 {
        assert(names[0] is None);
        lemma_no_names_no_refspecs(names.drop_first(), prefix);
    }
}

/// Extending the planned names by one appends that name's refspec (or
/// nothing when the name is absent).
proof fn lemma_name_refspecs_take(names: Seq<Option<Seq<char>>>, prefix: Seq<char>, k: int)
    requires
        0 <= k < names.len(),
    ensures
        name_refspecs(names.take(k + 1), prefix) == name_refspecs(names.take(k), prefix) + (
        match names[k] {
            Option::Some(n) => seq![refspec_pair(prefix, n)],
            Option::None => Seq::<Seq<char>>::empty(),
        }),
    decreases k,
{
    if k == 0 {
        assert(names.take(1).drop_first() =~= Seq::<Option<Seq<char>>>::empty());
        assert(names.take(1)[0] == names[0]);
        assert(names.take(0) =~= Seq::<Option<Seq<char>>>::empty());
        assert(name_refspecs(Seq::<Option<Seq<char>>>::empty(), prefix)
            == Seq::<Seq<char>>::empty());
        match names[0] {
            Option::Some(n) => {
                assert(name_refspecs(names.take(1), prefix) =~= seq![refspec_pair(prefix, n)]);
                assert(name_refspecs(names.take(0), prefix) + seq![refspec_pair(prefix, n)]
                    =~= seq![refspec_pair(prefix, n)]);
            },
            Option::None => {
                assert(name_refspecs(names.take(1), prefix) =~= Seq::<Seq<char>>::empty());
                assert(name_refspecs(names.take(0), prefix) + Seq::<Seq<char>>::empty()
                    =~= Seq::<Seq<char>>::empty());
            },
        }
    } else {
        lemma_name_refspecs_take(names.drop_first(), prefix, k - 1);
        assert(names.take(k + 1).drop_first() =~= names.drop_first().take(k));
        assert(names.take(k).drop_first() =~= names.drop_first().take(k - 1));
        assert(names.take(k + 1)[0] == names[0]);
        assert(names.take(k)[0] == names[0]);
        assert(names.drop_first()[k - 1] == names[k]);
        let tail_part = match names[k] {
            Option::Some(n) => seq![refspec_pair(prefix, n)],
            Option::None => Seq::<Seq<char>>::empty(),
        };
        match names[0] {
            Option::Some(h) => {
                assert((seq![refspec_pair(prefix, h)] + name_refspecs(
                    names.drop_first().take(k - 1),
                    prefix,
                )) + tail_part =~= seq![refspec_pair(prefix, h)] + (name_refspecs(
                    names.drop_first().take(k - 1),
                    prefix,
                ) + tail_part));
            },
            Option::None => {},
        }
    }
}

/// The views of a list of owned strings.
pub open spec fn views_of(ss: Seq<String>) -> Seq<Seq<char>> {
    ss.map_values(|s: String| s@)
}

/// Appending a string appends its view.
proof fn lemma_views_of_push(ss: Seq<String>, s: String)
    ensures
        views_of(ss.push(s)) =~= views_of(ss) + seq![s@],
{
}

/// Builds one push refspec mapping `name` to itself under `prefix`.
fn build_refspec(prefix: &str, name: &str) -> (r: String)
    ensures
        r@ == refspec_pair(prefix@, name@),
{
    let mut s = String::from_str(prefix);
    s.append(name);
    s.append(":");
    s.append(prefix);
    s.append(name);
    s
}

/// Plans the push into the bare copy: one refspec per present local branch,
/// then one per present tag, each mapping the reference to itself.
pub fn plan_sync_refspecs(branches: &Vec<Option<String>>, tags: &Vec<Option<String>>) -> (r: Vec<
    String,
>)
    ensures
        views_of(r@) == name_refspecs(branches.deep_view(), "refs/heads/"@) + name_refspecs(
            tags.deep_view(),
            "refs/tags/"@,
        ),
{
    let ghost heads_ns: Seq<char> = "refs/heads/"@;
    let ghost tags_ns: Seq<char> = "refs/tags/"@;
    let ghost bdv = branches.deep_view();
    let ghost tdv = tags.deep_view();
    let mut out: Vec<String> = Vec::new();
    assert(views_of(out@) =~= name_refspecs(bdv.take(0), heads_ns));
    let mut i: usize = 0;
    while i < branches.len()
        invariant
            i <= branches@.len(),
            bdv == branches.deep_view(),
            heads_ns == "refs/heads/"@,
            bdv.len() == branches@.len(),
            views_of(out@) == name_refspecs(bdv.take(i as int), heads_ns),
        decreases branches@.len() - i,
    {
        let ghost pre = out@;
        match &branches[i] {
            Option::Some(name) => {
                let rs = build_refspec("refs/heads/", name.as_str());
                let ghost rsv = rs@;
                out.push(rs);
                proof {
                    assert(bdv[i as int] == Option::Some(name@));
                    lemma_views_of_push(pre, out@[out@.len() - 1]);
                    assert(views_of(out@) =~= views_of(pre) + seq![rsv]);
                }
            },
            Option::None => {
                proof {
                    assert(bdv[i as int] is None);
                }
            },
        }
        proof {
            lemma_name_refspecs_take(bdv, heads_ns, i as int);
            assert(views_of(out@) =~= name_refspecs(bdv.take(i + 1), heads_ns));
        }
        i = i + 1;
    }
    proof {
        assert(bdv.take(branches@.len() as int) =~= bdv);
    }
    let ghost branch_part = views_of(out@);
    let mut j: usize = 0;
    while j < tags.len()
        invariant
            j <= tags@.len(),
            tdv == tags.deep_view(),
            tags_ns == "refs/tags/"@,
            tdv.len() == tags@.len(),
            branch_part == name_refspecs(branches.deep_view(), "refs/heads/"@),
            views_of(out@) == branch_part + name_refspecs(tdv.take(j as int), tags_ns),
        decreases tags@.len() - j,
    {
        let ghost pre = out@;
        match &tags[j] {
            Option::Some(name) => {
                let rs = build_refspec("refs/tags/", name.as_str());
                let ghost rsv = rs@;
                out.push(rs);
                proof {
                    assert(tdv[j as int] == Option::Some(name@));
                    lemma_views_of_push(pre, out@[out@.len() - 1]);
                    assert(views_of(out@) =~= views_of(pre) + seq![rsv]);
                }
            },
            Option::None => {
                proof {
                    assert(tdv[j as int] is None);
                }
            },
        }
        proof {
            lemma_name_refspecs_take(tdv, tags_ns, j as int);
            assert(views_of(out@) =~= branch_part + name_refspecs(tdv.take(j + 1), tags_ns));
        }
        j = j + 1;
    }
    proof {
        assert(tdv.take(tags@.len() as int) =~= tdv);
        assert(views_of(out@) =~= name_refspecs(branches.deep_view(), "refs/heads/"@)
            + name_refspecs(tags.deep_view(), "refs/tags/"@));
    }
    out
}

/// The present names, in order, with the absent ones dropped.
pub open spec fn present_of(names: Seq<Option<Seq<char>>>) -> Seq<Seq<char>>
    decreases names.len(),
{
    if names.len() == 0 {
        Seq::empty()
    } else {
        let rest = present_of(names.drop_first());
        match names[0] {
            Option::Some(n) => seq![n] + rest,
            Option::None => rest,
        }
    }
}

/// Extending the kept names by one appends that name (or nothing when it is
/// absent).
proof fn lemma_present_of_take(names: Seq<Option<Seq<char>>>, k: int)
    requires
        0 <= k < names.len(),
    ensures
        present_of(names.take(k + 1)) == present_of(names.take(k)) + (match names[k] {
            Option::Some(n) => seq![n],
            Option::None => Seq::<Seq<char>>::empty(),
        }),
    decreases k,
{
    if k == 0 {
        assert(names.take(1).drop_first() =~= Seq::<Option<Seq<char>>>::empty());
        assert(names.take(1)[0] == names[0]);
        assert(names.take(0) =~= Seq::<Option<Seq<char>>>::empty());
        assert(present_of(Seq::<Option<Seq<char>>>::empty()) == Seq::<Seq<char>>::empty());
        match names[0] {
            Option::Some(n) => {
                assert(present_of(names.take(1)) =~= seq![n]);
                assert(present_of(names.take(0)) + seq![n] =~= seq![n]);
            },
            Option::None => {
                assert(present_of(names.take(1)) =~= Seq::<Seq<char>>::empty());
                assert(present_of(names.take(0)) + Seq::<Seq<char>>::empty()
                    =~= Seq::<Seq<char>>::empty());
            },
        }
    } else {
        lemma_present_of_take(names.drop_first(), k - 1);
        assert(names.take(k + 1).drop_first() =~= names.drop_first().take(k));
        assert(names.take(k).drop_first() =~= names.drop_first().take(k - 1));
        assert(names.take(k + 1)[0] == names[0]);
        assert(names.take(k)[0] == names[0]);
        assert(names.drop_first()[k - 1] == names[k]);
        let tail_part = match names[k] {
            Option::Some(n) => seq![n],
            Option::None => Seq::<Seq<char>>::empty(),
        };
        match names[0] {
            Option::Some(h) => {
                assert((seq![h] + present_of(names.drop_first().take(k - 1))) + tail_part
                    =~= seq![h] + (present_of(names.drop_first().take(k - 1)) + tail_part));
            },
            Option::None => {},
        }
    }
}

/// Keeps the present names, in order.
pub fn keep_present(names: &Vec<Option<String>>) -> (r: Vec<String>)
    ensures
        views_of(r@) == present_of(names.deep_view()),
{
    let ghost dv = names.deep_view();
    let mut out: Vec<String> = Vec::new();
    assert(views_of(out@) =~= present_of(dv.take(0)));
    let mut i: usize = 0;
    while i < names.len()
        invariant
            i <= names@.len(),
            dv == names.deep_view(),
            dv.len() == names@.len(),
            views_of(out@) == present_of(dv.take(i as int)),
        decreases names@.len() - i,
    {
        let ghost pre = out@;
        match &names[i] {
            Option::Some(name) => {
                out.push(name.clone());
                proof {
                    assert(dv[i as int] == Option::Some(name@));
                    lemma_views_of_push(pre, out@[out@.len() - 1]);
                }
            },
            Option::None => {
                proof {
                    assert(dv[i as int] is None);
                }
            },
        }
        proof {
            lemma_present_of_take(dv, i as int);
            assert(views_of(out@) =~= present_of(dv.take(i + 1)));
        }
        i = i + 1;
    }
    proof {
        assert(dv.take(names@.len() as int) =~= dv);
    }
    out
}

/// Each name kept in order, an absent one replaced by the placeholder.
pub fn fill_unnamed(names: &Vec<Option<String>>, placeholder: &str) -> (r: Vec<String>)
    ensures
        views_of(r@) == names.deep_view().map_values(
            |o: Option<Seq<char>>|
                match o {
                    Option::Some(n) => n,
                    Option::None => placeholder@,
                },
        ),
{
    let ghost dv = names.deep_view();
    let mut out: Vec<String> = Vec::new();
    let mut i: usize = 0;
    while i < names.len()
        invariant
            i <= names@.len(),
            dv == names.deep_view(),
            dv.len() == names@.len(),
            out@.len() == i,
            forall|k: int|
                0 <= k < i ==> (#[trigger] out@[k])@ == (match dv[k] {
                    Option::Some(n) => n,
                    Option::None => placeholder@,
                }),
        decreases names@.len() - i,
    {
        match &names[i] {
            Option::Some(name) => {
                out.push(name.clone());
                proof {
                    assert(dv[i as int] == Option::Some(name@));
                }
            },
            Option::None => {
                out.push(String::from_str(placeholder));
                proof {
                    assert(dv[i as int] is None);
                }
            },
        }
        i = i + 1;
    }
    proof {
        assert(views_of(out@) =~= dv.map_values(
            |o: Option<Seq<char>>|
                match o {
                    Option::Some(n) => n,
                    Option::None => placeholder@,
                },
        ));
    }
    out
}

/// Maps an error of the underlying git library to the library's own form,
/// carrying its text verbatim.
fn upstream(e: git2::Error) -> (r: GitServiceError)
    ensures
        r is Upstream,
{
    GitServiceError::Upstream(gitops::git_error_message(&e))
}

/// A request for one file of one repository at one branch.
#[derive(Clone, Debug)]
pub struct SepFileRequest {
    pub repo_name: String,
    pub branch_name: String,
    pub file_path: String,
}

/// Parameters of a form-posted commit request.
#[derive(Clone, Debug)]
pub struct FormParams {
    pub repo_name: String,
    pub branch_name: String,
    pub commit_message: String,
}

/// A path that escapes the repository: it holds a parent-directory segment
/// or is absolute.
pub open spec fn is_traversal_path(path: Seq<char>) -> bool {
    contains_seq(path, ".."@) || (path.len() > 0 && path[0] == '/')
}

/// Whether a request path escapes the repository, scanning its characters.
pub fn is_traversal(path: &str) -> (r: bool)
    ensures
        r == is_traversal_path(path@),
{
    let absolute = path.unicode_len() > 0 && path.get_char(0) == '/';
    str_contains(path, "..") || absolute
}

/// Decides a file request against the repository's current branch: a
/// traversal path is rejected; otherwise the current branch must equal the
/// requested one exactly, and only then is the joined path (with no further
/// canonicalization) returned.
pub fn resolve_checked_path(filerequest: &SepFileRequest, current_branch: &str) -> (r: Result<
    String,
    GitServiceError,
>)
    ensures
        is_traversal_path(filerequest.file_path@) <==> (r matches Err(
            GitServiceError::PathTraversal(p),
        ) && p@ == filerequest.file_path@),
        (!is_traversal_path(filerequest.file_path@) && current_branch@
            != filerequest.branch_name@) <==> (r matches Err(
            GitServiceError::BranchMismatch(current, requested),
        ) && current@ == current_branch@ && requested@ == filerequest.branch_name@),
        (!is_traversal_path(filerequest.file_path@) && current_branch@
            == filerequest.branch_name@) <==> (r matches Ok(full) && full@ == "test_repos/"@
            + filerequest.repo_name@ + "/"@ + filerequest.file_path@),
{
    if is_traversal(filerequest.file_path.as_str()) {
        return Err(GitServiceError::PathTraversal(filerequest.file_path.clone()));
    }
    if !str_eq(current_branch, filerequest.branch_name.as_str()) {
        return Err(
            GitServiceError::BranchMismatch(
                String::from_str(current_branch),
                filerequest.branch_name.clone(),
            ),
        );
    }
    let mut full = working_repo_path(filerequest.repo_name.as_str());
    full.append("/");
    full.append(filerequest.file_path.as_str());
    Ok(full)
}

/// Validates a file request: a traversal path is rejected before any
/// repository access; then the repository's current branch must equal the
/// requested one exactly; the result is the joined path, with no further
/// canonicalization.
pub fn check_path(filerequest: &SepFileRequest) -> (r: Result<String, GitServiceError>)
    ensures
        is_traversal_path(filerequest.file_path@) <==> (r matches Err(
            GitServiceError::PathTraversal(p),
        ) && p@ == filerequest.file_path@),
        r matches Err(GitServiceError::BranchMismatch(current, requested)) ==> requested@
            == filerequest.branch_name@ && current@ != filerequest.branch_name@,
        r matches Ok(full) ==> full@ == "test_repos/"@ + filerequest.repo_name@ + "/"@
            + filerequest.file_path@,
        r matches Err(e) ==> (e is PathTraversal || e is BranchMismatch || e is InvalidState
            || e is Upstream),
{
    if is_traversal(filerequest.file_path.as_str()) {
        return Err(GitServiceError::PathTraversal(filerequest.file_path.clone()));
    }
    let repo_path = working_repo_path(filerequest.repo_name.as_str());
    let repo = match gitops::repo_open(repo_path.as_str()) {
        Ok(repo) => repo,
        Err(e) => {
            return Err(upstream(e));
        },
    };
    let head = match gitops::repo_head(&repo) {
        Ok(h) => h,
        Err(e) => {
            return Err(GitServiceError::InvalidState(gitops::git_error_message(&e)));
        },
    };
    let branch_name = match gitops::reference_shorthand(&head) {
        Ok(n) => n,
        Err(e) => {
            return Err(GitServiceError::InvalidState(gitops::git_error_message(&e)));
        },
    };
    resolve_checked_path(filerequest, branch_name.as_str())
}

/// Creates a new non-bare repository under the working root; fails
/// `AlreadyExists` (carrying the blocked path) when the target path is
/// already taken.
pub fn init_repo(repo_name: String) -> (r: Result<(), GitServiceError>)
    ensures
        r matches Err(GitServiceError::AlreadyExists(p)) ==> p@ == "test_repos/"@ + repo_name@,
        r matches Err(e) ==> (e is AlreadyExists || e is Upstream),
{
    let path = working_repo_path(repo_name.as_str());
    if gitops::path_exists(path.as_str()) {
        return Err(GitServiceError::AlreadyExists(path));
    }
    match gitops::repo_init_at(path.as_str()) {
        Ok(_) => Ok(()),
        Err(e) => Err(upstream(e)),
    }
}

/// Whether token authentication will travel over an encrypted transport.
pub fn is_https_url(url: &str) -> (r: bool)
    ensures
        r == starts_with_seq(url@, "https://"@),
{
    str_starts_with(url, "https://")
}

/// Clones `url` into the working root under `repo_name`, answering every
/// credential prompt with the token. A clone failure surfaces the remote's
/// error text verbatim. Converting the fresh checkout into its bare serving
/// copy is the embedding application's follow-up step, since it rebuilds
/// directory trees on disk.
pub fn clone_with_token(url: &str, repo_name: &str, token: &str) -> (r: Result<
    git2::Repository,
    GitServiceError,
>)
    ensures
        r matches Err(e) ==> e is Upstream,
{
    let full_clone_path = working_repo_path(repo_name);
    match gitops::clone_with_credentials(url, full_clone_path.as_str(), token) {
        Ok(repo) => Ok(repo),
        Err(e) => Err(upstream(e)),
    }
}

/// Which walked paths are reported as repositories, and under what names:
/// a path holding a dotted segment never contributes; every other path
/// whose metadata probe succeeded contributes its root-relative name, in
/// walk order; nothing else appears.
pub open spec fn selected_repos(
    paths: Seq<Seq<char>>,
    probed: Seq<bool>,
    root: Seq<char>,
) -> Seq<Seq<char>>
    decreases paths.len(),
{
    if paths.len() == 0 {
        Seq::empty()
    } else {
        let rest = selected_repos(paths.drop_first(), probed.drop_first(), root);
        if !contains_seq(paths[0], "/."@) && probed[0] {
            seq![crate::paths::stripped_name(paths[0], root)] + rest
        } else {
            rest
        }
    }
}

/// Extending the considered paths by one appends that path's contribution.
proof fn lemma_selected_repos_take(
    paths: Seq<Seq<char>>,
    probed: Seq<bool>,
    root: Seq<char>,
    k: int,
)
    requires
        paths.len() == probed.len(),
        0 <= k < paths.len(),
    ensures
        selected_repos(paths.take(k + 1), probed.take(k + 1), root) == selected_repos(
            paths.take(k),
            probed.take(k),
            root,
        ) + (if !contains_seq(paths[k], "/."@) && probed[k] {
            seq![crate::paths::stripped_name(paths[k], root)]
        } else {
            Seq::<Seq<char>>::empty()
        }),
    decreases k,
{
    if k == 0 {
        assert(paths.take(1).drop_first() =~= Seq::<Seq<char>>::empty());
        assert(probed.take(1).drop_first() =~= Seq::<bool>::empty());
        assert(paths.take(1)[0] == paths[0]);
        assert(probed.take(1)[0] == probed[0]);
        assert(paths.take(0) =~= Seq::<Seq<char>>::empty());
        assert(probed.take(0) =~= Seq::<bool>::empty());
        assert(selected_repos(Seq::<Seq<char>>::empty(), Seq::<bool>::empty(), root)
            == Seq::<Seq<char>>::empty());
        if !contains_seq(paths[0], "/."@) && probed[0] {
            let one = seq![crate::paths::stripped_name(paths[0], root)];
            assert(selected_repos(paths.take(1), probed.take(1), root) =~= one);
            assert(Seq::<Seq<char>>::empty() + one =~= one);
        } else {
            assert(selected_repos(paths.take(1), probed.take(1), root)
                =~= Seq::<Seq<char>>::empty());
            assert(Seq::<Seq<char>>::empty() + Seq::<Seq<char>>::empty()
                =~= Seq::<Seq<char>>::empty());
        }
    } else {
        lemma_selected_repos_take(paths.drop_first(), probed.drop_first(), root, k - 1);
        assert(paths.take(k + 1).drop_first() =~= paths.drop_first().take(k));
        assert(probed.take(k + 1).drop_first() =~= probed.drop_first().take(k));
        assert(paths.take(k).drop_first() =~= paths.drop_first().take(k - 1));
        assert(probed.take(k).drop_first() =~= probed.drop_first().take(k - 1));
        assert(paths.take(k + 1)[0] == paths[0]);
        assert(probed.take(k + 1)[0] == probed[0]);
        assert(paths.take(k)[0] == paths[0]);
        assert(probed.take(k)[0] == probed[0]);
        assert(paths.drop_first()[k - 1] == paths[k]);
        assert(probed.drop_first()[k - 1] == probed[k]);
        let tail_part = if !contains_seq(paths[k], "/."@) && probed[k] {
            seq![crate::paths::stripped_name(paths[k], root)]
        } else {
            Seq::<Seq<char>>::empty()
        };
        if !contains_seq(paths[0], "/."@) && probed[0] {
            let head_part = seq![crate::paths::stripped_name(paths[0], root)];
            assert((head_part + selected_repos(
                paths.drop_first().take(k - 1),
                probed.drop_first().take(k - 1),
                root,
            )) + tail_part =~= head_part + (selected_repos(
                paths.drop_first().take(k - 1),
                probed.drop_first().take(k - 1),
                root,
            ) + tail_part));
        }
    }
}

/// Selects the repositories among the walked paths, given the result of
/// each path's metadata probe.
pub fn select_repositories(paths: &Vec<String>, probed: &Vec<bool>, root: &str) -> (r: Vec<
    String,
>)
    requires
        paths@.len() == probed@.len(),
    ensures
        views_of(r@) == selected_repos(views_of(paths@), probed@, root@),
{
    let ghost pv = views_of(paths@);
    let mut out: Vec<String> = Vec::new();
    assert(views_of(out@) =~= selected_repos(pv.take(0), probed@.take(0), root@));
    let mut i: usize = 0;
    while i < paths.len()
        invariant
            i <= paths@.len(),
            paths@.len() == probed@.len(),
            pv == views_of(paths@),
            pv.len() == paths@.len(),
            views_of(out@) == selected_repos(pv.take(i as int), probed@.take(i as int), root@),
        decreases paths@.len() - i,
    {
        let ghost pre = out@;
        let p = &paths[i];
        if !str_contains(p.as_str(), "/.") && probed[i] {
            out.push(strip_root(p.as_str(), root));
            proof {
                lemma_views_of_push(pre, out@[out@.len() - 1]);
            }
        }
        proof {
            assert(pv[i as int] == paths@[i as int]@);
            lemma_selected_repos_take(pv, probed@, root@, i as int);
            assert(views_of(out@) =~= selected_repos(
                pv.take(i + 1),
                probed@.take(i + 1),
                root@,
            ));
        }
        i = i + 1;
    }
    proof {
        assert(pv.take(paths@.len() as int) =~= pv);
        assert(probed@.take(probed@.len() as int) =~= probed@);
    }
    out
}

/// Walks `root_path` recursively, probes each undotted path for a
/// version-control metadata directory, and reports the selection of
/// `selected_repos` over those probes. Never fails.
pub fn search_all_repo(root_path: &str) -> (r: Result<Vec<String>, GitServiceError>)
    ensures
        r is Ok,
{
    let paths = gitops::walk_paths(root_path);
    let mut probed: Vec<bool> = Vec::new();
    let mut i: usize = 0;
    while i < paths.len()
        invariant
            probed@.len() == i,
            i <= paths@.len(),
        decreases paths@.len() - i,
    {
        let p = &paths[i];
        if str_contains(p.as_str(), "/.") {
            probed.push(false);
        } else {
            let meta = git_meta_path(p.as_str());
            probed.push(gitops::path_exists(meta.as_str()));
        }
        i = i + 1;
    }
    Ok(select_repositories(&paths, &probed, root_path))
}

/// Enumerates the remote's branch names by cloning it, authenticated, into
/// a scratch directory that is discarded afterwards. Fails `FilesystemIo`
/// when the scratch directory cannot be had, `Upstream` when the clone or
/// the enumeration fails.
pub fn fetch_remote_branches(url: &str, token: &str) -> (r: Result<Vec<String>, GitServiceError>)
    ensures
        r matches Err(e) ==> (e is FilesystemIo || e is Upstream),
{
    let scratch = match gitops::temp_dir_create() {
        Ok(d) => d,
        Err(text) => {
            return Err(GitServiceError::FilesystemIo(text));
        },
    };
    let scratch_path = match gitops::temp_dir_path(&scratch) {
        Some(p) => p,
        None => {
            return Err(
                GitServiceError::FilesystemIo(
                    String::from_str("scratch directory path is not valid text"),
                ),
            );
        },
    };
    let repo = match gitops::clone_with_credentials(url, scratch_path.as_str(), token) {
        Ok(repo) => repo,
        Err(e) => {
            return Err(upstream(e));
        },
    };
    let names = match gitops::branch_names(&repo, false) {
        Ok(ns) => ns,
        Err(e) => {
            return Err(upstream(e));
        },
    };
    Ok(keep_present(&names))
}

/// What a bare-copy sync did: whether any references were pushed, and the
/// warning text of the bookkeeping step if that step failed (bookkeeping
/// never fails the sync).
#[derive(Clone, Debug)]
pub struct SyncOutcome {
    pub pushed: bool,
    pub optimize_warning: Option<String>,
}

/// Pushes the planned refspecs through the prepared push target. An empty
/// plan is a successful no-op: the push is not attempted and `Ok(false)`
/// comes back unconditionally. A non-empty plan is pushed as a whole; a
/// single rejected reference fails it with `PushRefUpdate`.
pub fn execute_push_plan(remote: &mut git2::Remote<'_>, refspecs: &Vec<String>) -> (r: Result<
    bool,
    GitServiceError,
>)
    ensures
        refspecs@.len() == 0 ==> (r matches Ok(pushed) && !pushed),
        r matches Ok(pushed) ==> (pushed <==> refspecs@.len() > 0),
        r matches Err(e) ==> e is PushRefUpdate && refspecs@.len() > 0,
{
    if refspecs.len() == 0 {
        return Ok(false);
    }
    match gitops::remote_push_refspecs(remote, refspecs) {
        Ok(_) => Ok(true),
        Err(e) => Err(GitServiceError::PushRefUpdate(gitops::git_error_message(&e))),
    }
}

/// Pushes every local branch and every tag of the working repository into
/// its bare copy through a dedicated local push target, then refreshes the
/// bare copy's bookkeeping. Zero references to push is a successful no-op
/// and no push is attempted; a single rejected reference fails the whole
/// call with `PushRefUpdate`.
pub fn sync_bare_repo(repo_path: &str, bare_path: &str) -> (r: Result<
    SyncOutcome,
    GitServiceError,
>)
    ensures
        r matches Ok(outcome) ==> (outcome.pushed || outcome.optimize_warning is None),
        r matches Err(e) ==> (e is Upstream || e is FilesystemIo || e is PushRefUpdate),
{
    let pushed = sync_to_bare_repo(repo_path, bare_path)?;
    if !pushed {
        return Ok(SyncOutcome { pushed: false, optimize_warning: None });
    }
    match optimize_bare_repo(bare_path) {
        Ok(_) => Ok(SyncOutcome { pushed: true, optimize_warning: None }),
        Err(e) => Ok(SyncOutcome { pushed: true, optimize_warning: Some(e.message()) }),
    }
}

/// The push itself: opens the source repository, creates the bare copy
/// (with its parent directories) when missing, reuses or creates the local
/// push target, and pushes one refspec per branch and tag. Returns whether
/// anything was pushed; with nothing planned the push is skipped and
/// `Ok(false)` comes back.
fn sync_to_bare_repo(repo_path: &str, bare_path: &str) -> (r: Result<bool, GitServiceError>)
    ensures
        r matches Err(e) ==> (e is Upstream || e is FilesystemIo || e is PushRefUpdate),
{
    let source = match gitops::repo_open(repo_path) {
        Ok(repo) => repo,
        Err(e) => {
            return Err(upstream(e));
        },
    };
    if !gitops::path_exists(bare_path) {
        match gitops::repo_init_bare_with_parents(bare_path) {
            Ok(_) => (),
            Err(e) => {
                return Err(upstream(e));
            },
        }
    }
    let canonical = match gitops::canonical_path(bare_path) {
        Some(p) => p,
        None => {
            return Err(
                GitServiceError::FilesystemIo(
                    String::from_str("bare repository path cannot be resolved"),
                ),
            );
        },
    };
    let mut bare_url = String::from_str("file://");
    bare_url.append(canonical.as_str());
    let mut remote = match gitops::repo_find_remote(&source, "bare_sync") {
        Ok(remote) => remote,
        Err(_) => {
            match gitops::repo_create_remote(&source, "bare_sync", bare_url.as_str()) {
                Ok(remote) => remote,
                Err(e) => {
                    return Err(upstream(e));
                },
            }
        },
    };
    let branches = match gitops::branch_names(&source, true) {
        Ok(ns) => ns,
        Err(e) => {
            return Err(upstream(e));
        },
    };
    let tags = match gitops::tag_name_list(&source) {
        Ok(ns) => ns,
        Err(e) => {
            return Err(upstream(e));
        },
    };
    let refspecs = plan_sync_refspecs(&branches, &tags);
    execute_push_plan(&mut remote, &refspecs)
}

/// The bookkeeping step after a successful push: re-touches the bare
/// copy's current branch reference; skipped silently when `HEAD` has no
/// target.
fn optimize_bare_repo(bare_path: &str) -> (r: Result<(), GitServiceError>) {
    let repo = match gitops::repo_open_bare(bare_path) {
        Ok(repo) => repo,
        Err(e) => {
            return Err(upstream(e));
        },
    };
    let head = match gitops::repo_head(&repo) {
        Ok(h) => h,
        Err(e) => {
            return Err(GitServiceError::InvalidState(gitops::git_error_message(&e)));
        },
    };
    let current_branch = match gitops::reference_shorthand(&head) {
        Ok(n) => n,
        Err(e) => {
            return Err(GitServiceError::InvalidState(gitops::git_error_message(&e)));
        },
    };
    match gitops::reference_target_hex(&head) {
        Some(target) => {
            let refname = branch_refname(current_branch.as_str());
            match gitops::repo_reference_force(
                &repo,
                refname.as_str(),
                target.as_str(),
                "Optimization",
            ) {
                Ok(_) => Ok(()),
                Err(e) => Err(upstream(e)),
            }
        },
        None => Ok(()),
    }
}

/// One configuration setting of a bare serving copy.
#[derive(Clone, Debug)]
pub enum BareSetting {
    Flag { key: String, value: bool },
    Text { key: String, value: String },
}

/// The settings that make a copy a serving one: bare on, automatic
/// housekeeping on, bitmap writing on, housekeeping after receive, and
/// non-fast-forward pushes rejected — these and nothing else, in this
/// order. `core.bare = true` is the bare-repository invariant every
/// conversion and sync preserves.
pub fn bare_serving_settings() -> (r: Vec<BareSetting>)
    ensures
        r@.len() == 5,
        r@[0] matches BareSetting::Flag { key, value } && key@ == "core.bare"@ && value,
        r@[1] matches BareSetting::Flag { key, value } && key@ == "gc.auto"@ && value,
        r@[2] matches BareSetting::Flag { key, value } && key@ == "repack.writeBitmaps"@ && value,
        r@[3] matches BareSetting::Flag { key, value } && key@ == "receive.autogc"@ && value,
        r@[4] matches BareSetting::Text { key, value } && key@ == "receive.denyNonFastForwards"@
            && value@ == "true"@,
{
    let mut v: Vec<BareSetting> = Vec::new();
    v.push(BareSetting::Flag { key: String::from_str("core.bare"), value: true });
    v.push(BareSetting::Flag { key: String::from_str("gc.auto"), value: true });
    v.push(BareSetting::Flag { key: String::from_str("repack.writeBitmaps"), value: true });
    v.push(BareSetting::Flag { key: String::from_str("receive.autogc"), value: true });
    v.push(
        BareSetting::Text {
            key: String::from_str("receive.denyNonFastForwards"),
            value: String::from_str("true"),
        },
    );
    v
}

/// Marks the repository at `repo_path` as a bare serving copy by applying
/// exactly the settings of `bare_serving_settings`, in order. Each failed
/// setting aborts the configuration with the underlying error. Platform
/// permission bits for shared maintenance are the embedding application's
/// follow-up step.
pub fn configure_bare_repo(repo_path: &str) -> (r: Result<(), GitServiceError>)
    ensures
        r matches Err(e) ==> e is Upstream,
{
    let repo = match gitops::repo_open(repo_path) {
        Ok(repo) => repo,
        Err(e) => {
            return Err(upstream(e));
        },
    };
    let mut config = match gitops::repo_config(&repo) {
        Ok(c) => c,
        Err(e) => {
            return Err(upstream(e));
        },
    };
    let settings = bare_serving_settings();
    let mut i: usize = 0;
    while i < settings.len()
        decreases settings@.len() - i,
    {
        let applied = match &settings[i] {
            BareSetting::Flag { key, value } => gitops::config_set_bool(
                &mut config,
                key.as_str(),
                *value,
            ),
            BareSetting::Text { key, value } => gitops::config_set_str(
                &mut config,
                key.as_str(),
                value.as_str(),
            ),
        };
        match applied {
            Ok(_) => (),
            Err(e) => {
                return Err(upstream(e));
            },
        }
        i = i + 1;
    }
    Ok(())
}

/// What a pull did.
#[derive(Clone, Debug)]
pub enum PullStatus {
    /// The local branch was already at the remote's tip; nothing was
    /// touched.
    UpToDate,
    /// The branch was fast-forwarded and the working tree rebuilt; carries
    /// the warning text of the best-effort bare re-sync if that failed.
    FastForwarded { sync_warning: Option<String> },
}

/// Pulls the working repository's current branch from `origin` with token
/// authentication and classifies the result: already up to date, a
/// fast-forward (branch moved, `HEAD` reset, working tree force-rebuilt,
/// index refreshed, bare copy re-synced best-effort), or a diverged
/// history, which fails with `ManualMergeRequired` and mutates nothing.
pub fn pull_with_token(repo_path: &str, token: &str) -> (r: Result<PullStatus, GitServiceError>)
    ensures
        r matches Err(e) ==> (e is NotFound || e is InvalidState || e is Upstream
            || e is ManualMergeRequired),
{
    let full_repo_path = working_repo_path(repo_path);
    let repo = match gitops::repo_open(full_repo_path.as_str()) {
        Ok(repo) => repo,
        Err(e) => {
            return Err(GitServiceError::NotFound(gitops::git_error_message(&e)));
        },
    };
    let head = match gitops::repo_head(&repo) {
        Ok(h) => h,
        Err(e) => {
            return Err(GitServiceError::InvalidState(gitops::git_error_message(&e)));
        },
    };
    let branch_name = match gitops::reference_shorthand(&head) {
        Ok(n) => n,
        Err(e) => {
            return Err(GitServiceError::InvalidState(gitops::git_error_message(&e)));
        },
    };
    let mut remote = match gitops::repo_find_remote(&repo, "origin") {
        Ok(remote) => remote,
        Err(e) => {
            return Err(GitServiceError::NotFound(gitops::git_error_message(&e)));
        },
    };
    let refspec = fetch_refspec(branch_name.as_str());
    match gitops::remote_fetch_with_token(&mut remote, refspec.as_str(), token) {
        Ok(_) => (),
        Err(e) => {
            return Err(upstream(e));
        },
    }
    let fetch_head = match gitops::repo_find_reference(&repo, "FETCH_HEAD") {
        Ok(h) => h,
        Err(e) => {
            return Err(upstream(e));
        },
    };
    let fetch_commit = match gitops::reference_to_annotated(&repo, &fetch_head) {
        Ok(c) => c,
        Err(e) => {
            return Err(upstream(e));
        },
    };
    let bits = match gitops::merge_analysis_bits(&repo, &fetch_commit) {
        Ok(b) => b,
        Err(e) => {
            return Err(upstream(e));
        },
    };
    let state = classify_merge_analysis(bits);
    match decide_pull_action(state) {
        PullAction::ReturnUpToDate => Ok(PullStatus::UpToDate),
        PullAction::FailManualMerge => Err(GitServiceError::ManualMergeRequired),
        PullAction::FastForwardAndSync => {
            let refname = branch_refname(branch_name.as_str());
            let mut branch_ref = match gitops::repo_find_reference(&repo, refname.as_str()) {
                Ok(rf) => rf,
                Err(e) => {
                    return Err(upstream(e));
                },
            };
            let tip = gitops::annotated_oid_hex(&fetch_commit);
            match gitops::reference_set_target_hex(&mut branch_ref, tip.as_str(), "Fast-Forward") {
                Ok(_) => (),
                Err(e) => {
                    return Err(upstream(e));
                },
            }
            match gitops::repo_set_head(&repo, refname.as_str()) {
                Ok(_) => (),
                Err(e) => {
                    return Err(upstream(e));
                },
            }
            match gitops::checkout_head_force(&repo) {
                Ok(_) => (),
                Err(e) => {
                    return Err(upstream(e));
                },
            }
            let mut index = match gitops::repo_index(&repo) {
                Ok(idx) => idx,
                Err(e) => {
                    return Err(upstream(e));
                },
            };
            match gitops::index_read_refresh(&mut index) {
                Ok(_) => (),
                Err(e) => {
                    return Err(upstream(e));
                },
            }
            match gitops::index_write(&mut index) {
                Ok(_) => (),
                Err(e) => {
                    return Err(upstream(e));
                },
            }
            let bare_path = bare_repo_target(repo_path);
            let sync_warning = match sync_bare_repo(full_repo_path.as_str(), bare_path.as_str()) {
                Ok(_) => None,
                Err(e) => Some(e.message()),
            };
            Ok(PullStatus::FastForwarded { sync_warning })
        },
    }
}

/// Lists the local branches of the repository at `repo_path`; a branch
/// without a readable name is reported with a placeholder. Every failure is
/// the underlying library's, surfaced as `Upstream`.
pub fn list_branches(repo_path: &String) -> (r: Result<Vec<String>, GitServiceError>)
    ensures
        r matches Err(e) ==> e is Upstream,
{
    let repo = match gitops::repo_open(repo_path.as_str()) {
        Ok(repo) => repo,
        Err(e) => {
            return Err(upstream(e));
        },
    };
    let names = match gitops::branch_names(&repo, true) {
        Ok(ns) => ns,
        Err(e) => {
            return Err(upstream(e));
        },
    };
    Ok(fill_unnamed(&names, "unnamed-local-branch"))
}

} // verus!
