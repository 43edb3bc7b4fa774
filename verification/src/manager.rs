//! The bare-repository store: answers protocol discovery for a named bare
//! repository under a configured root. Every request reopens the repository
//! by path; nothing is cached across requests.
use vstd::prelude::*;
use vstd::string::StrSliceExecFns;
use vstd::string::StringExecFns;
use vstd::utf8::encode_utf8;
use crate::advert::{
    advertisement, build_refs_advertisement, entries_view, RefEntry, RefEntryView, MAX_PKT_TEXT,
};
use crate::errors::GitServiceError;
use crate::gitops;

verus! {

/// Serves bare repositories that live directly under `base_path`.
pub struct RepoManager {
    base_path: String,
}

impl RepoManager {
    /// The root under which the served bare repositories live.
    pub closed spec fn base(&self) -> Seq<char> {
        self.base_path@
    }

    /// A manager rooted at `path`.
    pub fn new(path: &str) -> (r: Self)
        ensures
            r.base() == path@,
    {
        RepoManager { base_path: String::from_str(path) }
    }

    /// The on-disk location of the named bare repository.
    pub fn get_bare_repo_path(&self, repo_name: &str) -> (r: String)
        ensures
            r@ == self.base() + "/"@ + repo_name@,
    {
        let mut p = String::from_str(self.base_path.as_str());
        p.append("/");
        p.append(repo_name);
        p
    }

    /// Whether anything exists at the computed bare path; no deeper
    /// validation is performed.
    pub fn repo_exists(&self, repo_name: &str) -> bool {
        let path = self.get_bare_repo_path(repo_name);
        gitops::path_exists(path.as_str())
    }

    /// Opens the named bare repository; `NotFound` when nothing exists at
    /// its path, `Upstream` when the open itself fails.
    pub fn get_repo(&self, repo_name: &str) -> (r: Result<git2::Repository, GitServiceError>)
        ensures
            r matches Err(GitServiceError::NotFound(n)) ==> n@ == repo_name@,
            r matches Err(e) ==> (e is NotFound || e is Upstream),
    {
        let path = self.get_bare_repo_path(repo_name);
        if !gitops::path_exists(path.as_str()) {
            return Err(GitServiceError::NotFound(String::from_str(repo_name)));
        }
        match gitops::repo_open_bare(path.as_str()) {
            Ok(repo) => Ok(repo),
            Err(e) => Err(GitServiceError::Upstream(gitops::git_error_message(&e))),
        }
    }

    /// The full name `HEAD` points at, or empty text when it has none.
    pub fn head_ref_name(&self, repo_name: &str) -> (r: Result<String, GitServiceError>)
        ensures
            r matches Err(GitServiceError::NotFound(n)) ==> n@ == repo_name@,
            r matches Err(e) ==> (e is NotFound || e is InvalidState || e is Upstream),
    {
        let repo = self.get_repo(repo_name)?;
        let head = match gitops::repo_head(&repo) {
            Ok(h) => h,
            Err(e) => {
                return Err(GitServiceError::InvalidState(gitops::git_error_message(&e)));
            },
        };
        match gitops::reference_full_name(&head) {
            Ok(n) => Ok(n),
            Err(_) => Ok(String::new()),
        }
    }

    /// The refs advertisement for the named bare repository: on success the
    /// returned bytes are exactly the advertisement built from the
    /// repository's `HEAD` object id and its reference list. `NotFound` when
    /// the repository is absent; `InvalidState` when `HEAD` does not resolve
    /// to a commit — no partial advertisement is ever returned.
    pub fn get_refs(&self, repo_name: &str) -> (r: Result<Vec<u8>, GitServiceError>)
        ensures
            r matches Ok(v) ==> exists|h: Seq<char>, es: Seq<RefEntryView>|
                v@ == encode_utf8(advertisement(h, es)),
            r matches Err(GitServiceError::NotFound(n)) ==> n@ == repo_name@,
            r matches Err(e) ==> (e is NotFound || e is InvalidState || e is Upstream),
    {
        let repo = self.get_repo(repo_name)?;
        let head = match gitops::repo_head(&repo) {
            Ok(h) => h,
            Err(e) => {
                return Err(GitServiceError::InvalidState(gitops::git_error_message(&e)));
            },
        };
        let head_oid = match gitops::reference_target_hex(&head) {
            Some(oid) => oid,
            None => {
                return Err(
                    GitServiceError::InvalidState(
                        String::from_str("HEAD does not point to a valid commit"),
                    ),
                );
            },
        };
        let entries = match gitops::repo_ref_entries(&repo) {
            Ok(es) => es,
            Err(e) => {
                return Err(GitServiceError::Upstream(gitops::git_error_message(&e)));
            },
        };
        if head_oid.as_str().unicode_len() > MAX_PKT_TEXT {
            return Err(GitServiceError::InvalidState(String::from_str("object id too long")));
        }
        let mut k: usize = 0;
        while k < entries.len()
            invariant
                k <= entries@.len(),
                forall|i: int|
                    0 <= i < k ==> (#[trigger] entries@[i])@.name.len() <= MAX_PKT_TEXT && (
                    match entries@[i]@.oid {
                        Option::Some(o) => o.len() <= MAX_PKT_TEXT,
                        Option::None => true,
                    }),
            decreases entries@.len() - k,
        {
            let e = &entries[k];
            if e.name.as_str().unicode_len() > MAX_PKT_TEXT {
                return Err(
                    GitServiceError::InvalidState(String::from_str("reference name too long")),
                );
            }
            match &e.oid {
                Option::Some(o) => {
                    if o.as_str().unicode_len() > MAX_PKT_TEXT {
                        return Err(
                            GitServiceError::InvalidState(String::from_str("object id too long")),
                        );
                    }
                },
                Option::None => {},
            }
            k = k + 1;
        }
        let bytes = build_refs_advertisement(head_oid.as_str(), &entries);
        proof {
            assert(bytes@ == encode_utf8(advertisement(head_oid@, entries_view(entries@))));
        }
        Ok(bytes)
    }
}

} // verus!
