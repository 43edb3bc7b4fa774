//! Trusted declarations for the outside libraries the pipeline drives: the
//! libgit2 binding, scratch directories, and directory walks. Every wrapper
//! holds exactly one outside operation plus argument/result conversion; all
//! decisions about the values that come back are made by verified callers.
use vstd::prelude::*;
use crate::advert::RefEntry;

verus! {

#[verifier::external_type_specification]
#[verifier::external_body]
pub struct ExRepository(git2::Repository);

#[verifier::external_type_specification]
#[verifier::external_body]
pub struct ExGitError(git2::Error);

#[verifier::external_type_specification]
#[verifier::external_body]
pub struct ExReference<'repo>(git2::Reference<'repo>);

#[verifier::external_type_specification]
#[verifier::external_body]
pub struct ExRemote<'repo>(git2::Remote<'repo>);

#[verifier::external_type_specification]
#[verifier::external_body]
pub struct ExAnnotatedCommit<'repo>(git2::AnnotatedCommit<'repo>);

#[verifier::external_type_specification]
#[verifier::external_body]
pub struct ExIndex(git2::Index);

#[verifier::external_type_specification]
#[verifier::external_body]
pub struct ExConfig(git2::Config);

#[verifier::external_type_specification]
#[verifier::external_body]
pub struct ExTempDir(tempfile::TempDir);

/// Relies on git2::Error::message: the error's diagnostic text.
#[verifier::external_body]
pub(crate) fn git_error_message(e: &git2::Error) -> String {
    e.message().to_string()
}

/// Relies on git2::Repository::open: opens an existing repository at `path`.
#[verifier::external_body]
pub(crate) fn repo_open(path: &str) -> Result<git2::Repository, git2::Error> {
    git2::Repository::open(path)
}

/// Relies on git2::Repository::open_bare: opens a bare repository at `path`.
#[verifier::external_body]
pub(crate) fn repo_open_bare(path: &str) -> Result<git2::Repository, git2::Error> {
    git2::Repository::open_bare(path)
}

/// Relies on git2::Repository::init: creates a new non-bare repository.
#[verifier::external_body]
pub(crate) fn repo_init_at(path: &str) -> Result<git2::Repository, git2::Error> {
    git2::Repository::init(path)
}

/// Relies on git2::Repository::init_opts with the bare and mkpath options:
/// creates (or reopens) a bare repository at `path`, creating missing parent
/// directories.
#[verifier::external_body]
pub(crate) fn repo_init_bare_with_parents(path: &str) -> Result<git2::Repository, git2::Error> {
    let mut opts = git2::RepositoryInitOptions::new();
    opts.bare(true);
    opts.mkpath(true);
    git2::Repository::init_opts(path, &opts)
}

/// Relies on git2::Repository::head: the reference `HEAD` points at.
#[verifier::external_body]
pub(crate) fn repo_head<'r>(repo: &'r git2::Repository) -> Result<
    git2::Reference<'r>,
    git2::Error,
> {
    repo.head()
}

/// Relies on git2::Repository::find_reference: looks a reference up by its
/// full name.
#[verifier::external_body]
pub(crate) fn repo_find_reference<'r>(repo: &'r git2::Repository, name: &str) -> Result<
    git2::Reference<'r>,
    git2::Error,
> {
    repo.find_reference(name)
}

/// Relies on git2::Reference::shorthand: the reference's short name.
#[verifier::external_body]
pub(crate) fn reference_shorthand(r: &git2::Reference<'_>) -> Result<String, git2::Error> {
    r.shorthand().map(|s| s.to_string())
}

/// Relies on git2::Reference::name: the reference's full name.
#[verifier::external_body]
pub(crate) fn reference_full_name(r: &git2::Reference<'_>) -> Result<String, git2::Error> {
    r.name().map(|s| s.to_string())
}

/// Relies on git2::Reference::target: the object id a direct reference
/// points at, rendered as lowercase hex.
#[verifier::external_body]
pub(crate) fn reference_target_hex(r: &git2::Reference<'_>) -> Option<String> {
    r.target().map(|oid| oid.to_string())
}

/// Relies on git2::Reference::set_target: repoints a direct reference at the
/// object id written in hex, recording `msg` in the reflog.
#[verifier::external_body]
pub(crate) fn reference_set_target_hex(
    r: &mut git2::Reference<'_>,
    oid_hex: &str,
    msg: &str,
) -> Result<(), git2::Error> {
    let oid = git2::Oid::from_str(oid_hex)?;
    r.set_target(oid, msg)?;
    Ok(())
}

/// Relies on git2::Repository::reference with force: creates or repoints the
/// named reference at the object id written in hex.
#[verifier::external_body]
pub(crate) fn repo_reference_force(
    repo: &git2::Repository,
    refname: &str,
    oid_hex: &str,
    msg: &str,
) -> Result<(), git2::Error> {
    let oid = git2::Oid::from_str(oid_hex)?;
    repo.reference(refname, oid, true, msg)?;
    Ok(())
}

/// Relies on git2::Repository::references together with
/// git2::Reference::{name, target, is_tag}: one entry per reference of the
/// repository, in iteration order; a nameless reference is recorded with an
/// empty name.
#[verifier::external_body]
pub(crate) fn repo_ref_entries(repo: &git2::Repository) -> Result<Vec<RefEntry>, git2::Error> {
    repo.references()?.map(|r| {
        r.map(|ri| RefEntry {
            name: ri.name().unwrap_or("").to_string(),
            oid: ri.target().map(|oid| oid.to_string()),
            is_tag: ri.is_tag(),
        })
    }).collect()
}

/// Relies on git2::Repository::find_remote: looks a remote up by name.
#[verifier::external_body]
pub(crate) fn repo_find_remote<'r>(repo: &'r git2::Repository, name: &str) -> Result<
    git2::Remote<'r>,
    git2::Error,
> {
    repo.find_remote(name)
}

/// Relies on git2::Repository::remote: registers a new remote under `name`
/// pointing at `url`.
#[verifier::external_body]
pub(crate) fn repo_create_remote<'r>(
    repo: &'r git2::Repository,
    name: &str,
    url: &str,
) -> Result<git2::Remote<'r>, git2::Error> {
    repo.remote(name, url)
}

/// Relies on git2::Remote::fetch with a credential callback answering every
/// prompt with the requested username (or "token") and the given token, and
/// tag auto-following enabled.
#[verifier::external_body]
pub(crate) fn remote_fetch_with_token(
    remote: &mut git2::Remote<'_>,
    refspec: &str,
    token: &str,
) -> Result<(), git2::Error> {
    let tok = token.to_string();
    let mut callbacks = git2::RemoteCallbacks::new();
    callbacks.credentials(move |_url, username, _allowed| {
        git2::Cred::userpass_plaintext(username.unwrap_or("token"), &tok)
    });
    let mut opts = git2::FetchOptions::new();
    opts.remote_callbacks(callbacks);
    opts.download_tags(git2::AutotagOption::All);
    remote.fetch(&[refspec], Some(&mut opts), None)
}

/// Relies on git2::Remote::push with a per-reference completion callback
/// that fails the push as soon as any single reference reports an error.
#[verifier::external_body]
pub(crate) fn remote_push_refspecs(
    remote: &mut git2::Remote<'_>,
    refspecs: &Vec<String>,
) -> Result<(), git2::Error> {
    let specs: Vec<&str> = refspecs.iter().map(|s| s.as_str()).collect();
    let mut callbacks = git2::RemoteCallbacks::new();
    callbacks.push_update_reference(|_refname, status| {
        match status {
            None => Ok(()),
            Some(text) => Err(git2::Error::from_str(text)),
        }
    });
    let mut opts = git2::PushOptions::new();
    opts.remote_callbacks(callbacks);
    remote.push(&specs, Some(&mut opts))
}

/// Relies on git2::build::RepoBuilder::clone with a credential callback
/// answering every prompt with the requested username (or "token") and the
/// given token.
#[verifier::external_body]
pub(crate) fn clone_with_credentials(url: &str, dest: &str, token: &str) -> Result<
    git2::Repository,
    git2::Error,
> {
    let tok = token.to_string();
    let mut callbacks = git2::RemoteCallbacks::new();
    callbacks.credentials(move |_url, username, _allowed| {
        git2::Cred::userpass_plaintext(username.unwrap_or("token"), &tok)
    });
    let mut opts = git2::FetchOptions::new();
    opts.remote_callbacks(callbacks);
    let mut builder = git2::build::RepoBuilder::new();
    builder.fetch_options(opts);
    builder.clone(url, std::path::Path::new(dest))
}

/// Relies on git2::Repository::reference_to_annotated_commit: the annotated
/// commit a direct reference points at.
#[verifier::external_body]
pub(crate) fn reference_to_annotated<'r>(
    repo: &'r git2::Repository,
    r: &git2::Reference<'r>,
) -> Result<git2::AnnotatedCommit<'r>, git2::Error> {
    repo.reference_to_annotated_commit(r)
}

/// Relies on git2::AnnotatedCommit::id: the commit's object id as lowercase
/// hex.
#[verifier::external_body]
pub(crate) fn annotated_oid_hex(c: &git2::AnnotatedCommit<'_>) -> String {
    c.id().to_string()
}

/// Relies on git2::Repository::merge_analysis against one incoming commit:
/// the raw analysis bit set.
#[verifier::external_body]
pub(crate) fn merge_analysis_bits(
    repo: &git2::Repository,
    incoming: &git2::AnnotatedCommit<'_>,
) -> Result<u32, git2::Error> {
    let (analysis, _) = repo.merge_analysis(&[incoming])?;
    Ok(analysis.bits())
}

/// Relies on git2::Repository::set_head: repoints `HEAD` at the named
/// reference.
#[verifier::external_body]
pub(crate) fn repo_set_head(repo: &git2::Repository, refname: &str) -> Result<(), git2::Error> {
    repo.set_head(refname)
}

/// Relies on git2::Repository::checkout_head forced: rebuilds the working
/// tree from `HEAD`, removing untracked files, preferring incoming content,
/// recreating missing files, and updating the index.
#[verifier::external_body]
pub(crate) fn checkout_head_force(repo: &git2::Repository) -> Result<(), git2::Error> {
    let mut builder = git2::build::CheckoutBuilder::new();
    builder.force().remove_untracked(true).update_index(true).use_theirs(true).recreate_missing(
        true,
    );
    repo.checkout_head(Some(&mut builder))
}

/// Relies on git2::Repository::index: the repository's index.
#[verifier::external_body]
pub(crate) fn repo_index(repo: &git2::Repository) -> Result<git2::Index, git2::Error> {
    repo.index()
}

/// Relies on git2::Index::read forced: reloads the index from disk.
#[verifier::external_body]
pub(crate) fn index_read_refresh(index: &mut git2::Index) -> Result<(), git2::Error> {
    index.read(true)
}

/// Relies on git2::Index::write: writes the index back to disk.
#[verifier::external_body]
pub(crate) fn index_write(index: &mut git2::Index) -> Result<(), git2::Error> {
    index.write()
}

/// Relies on git2::Repository::config: the repository's configuration.
#[verifier::external_body]
pub(crate) fn repo_config(repo: &git2::Repository) -> Result<git2::Config, git2::Error> {
    repo.config()
}

/// Relies on git2::Config::set_bool.
#[verifier::external_body]
pub(crate) fn config_set_bool(config: &mut git2::Config, name: &str, value: bool) -> Result<
    (),
    git2::Error,
> {
    config.set_bool(name, value)
}

/// Relies on git2::Config::set_str.
#[verifier::external_body]
pub(crate) fn config_set_str(config: &mut git2::Config, name: &str, value: &str) -> Result<
    (),
    git2::Error,
> {
    config.set_str(name, value)
}

/// Relies on git2::Repository::branches together with git2::Branch::name:
/// the names of the repository's branches of the requested kind (local when
/// `local` holds, remote-tracking otherwise), in iteration order; a branch
/// whose name is not valid text is recorded as absent.
#[verifier::external_body]
pub(crate) fn branch_names(repo: &git2::Repository, local: bool) -> Result<
    Vec<Option<String>>,
    git2::Error,
> {
    let kind = if local {
        git2::BranchType::Local
    } else {
        git2::BranchType::Remote
    };
    repo.branches(Some(kind))?.map(|b| {
        b.and_then(|(branch, _)| branch.name().map(|n| n.map(|s| s.to_string())))
    }).collect()
}

/// Relies on git2::Repository::tag_names: the names of all tags, in
/// iteration order; a tag whose name is not valid text is recorded as
/// absent.
#[verifier::external_body]
pub(crate) fn tag_name_list(repo: &git2::Repository) -> Result<Vec<Option<String>>, git2::Error> {
    let names = repo.tag_names(None)?;
    names.iter().map(|t| t.map(|o| o.map(|s| s.to_string()))).collect()
}

/// Relies on std::path::Path::exists: whether anything exists on disk at
/// `path`.
#[verifier::external_body]
pub(crate) fn path_exists(path: &str) -> bool {
    std::path::Path::new(path).exists()
}

/// Relies on std::path::Path::canonicalize: the absolute, symlink-resolved
/// form of `path`; absent when resolution fails or the result is not valid
/// text.
#[verifier::external_body]
pub(crate) fn canonical_path(path: &str) -> Option<String> {
    match std::path::Path::new(path).canonicalize() {
        Ok(p) => p.to_str().map(|s| s.to_string()),
        Err(_) => None,
    }
}

/// Relies on tempfile::tempdir: a fresh scratch directory, removed when the
/// returned handle is dropped; a failure is reported as its text.
#[verifier::external_body]
pub(crate) fn temp_dir_create() -> Result<tempfile::TempDir, String> {
    tempfile::tempdir().map_err(|e| e.to_string())
}

/// Relies on tempfile::TempDir::path: the scratch directory's location;
/// absent when it is not valid text.
#[verifier::external_body]
pub(crate) fn temp_dir_path(dir: &tempfile::TempDir) -> Option<String> {
    dir.path().to_str().map(|s| s.to_string())
}

/// Relies on walkdir::WalkDir: every path under `root` (including `root`
/// itself), depth first; unreadable entries are skipped.
#[verifier::external_body]
pub(crate) fn walk_paths(root: &str) -> Vec<String> {
    walkdir::WalkDir::new(root)
        .into_iter()
        .filter_map(|e| e.ok())
        .map(|e| e.path().to_string_lossy().to_string())
        .collect()
}

} // verus!
