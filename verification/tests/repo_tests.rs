use gitmirror::errors::GitServiceError;
use gitmirror::manager::RepoManager;
use gitmirror::service::{
    clone_with_token, configure_bare_repo, execute_push_plan, fetch_remote_branches,
    list_branches, pull_with_token, search_all_repo, sync_bare_repo,
};

#[test]
fn an_empty_push_plan_is_a_no_op() {
    let td = tempfile::tempdir().unwrap();
    let work = td.path().join("work");
    let repo = init_repo_at(&work, false);
    let mut remote = repo.remote("bare_sync", "file:///nowhere-at-all").unwrap();
    let pushed = execute_push_plan(&mut remote, &Vec::new()).unwrap();
    assert!(!pushed);
}

const CAPS: &str = " HEAD\0multi_ack multi_ack_detailed thin-pack side-band side-band-64k ofs-delta shallow deepen-since deepen-not deepen-relative no-progress include-tag ofs-delta agent=git/2.40.0\n";

fn init_repo_at(path: &std::path::Path, bare: bool) -> git2::Repository {
    let mut opts = git2::RepositoryInitOptions::new();
    opts.bare(bare);
    opts.mkpath(true);
    git2::Repository::init_opts(path, &opts).unwrap()
}

fn commit_empty_tree(repo: &git2::Repository) -> git2::Oid {
    let tree_id = repo.treebuilder(None).unwrap().write().unwrap();
    let tree = repo.find_tree(tree_id).unwrap();
    let sig = git2::Signature::now("tester", "tester@example.com").unwrap();
    repo.commit(Some("HEAD"), &sig, &sig, "initial", &tree, &[])
        .unwrap()
}

fn frame(line: &str) -> Vec<u8> {
    let mut v = format!("{:04x}", line.len() + 4).into_bytes();
    v.extend_from_slice(line.as_bytes());
    v
}

#[test]
fn bare_path_is_base_slash_name() {
    let mgr = RepoManager::new("some_base");
    assert_eq!(mgr.get_bare_repo_path("demo.git"), "some_base/demo.git");
}

#[test]
fn repo_exists_iff_directory_exists() {
    let td = tempfile::tempdir().unwrap();
    let base = td.path().to_str().unwrap();
    let mgr = RepoManager::new(base);
    assert!(!mgr.repo_exists("demo.git"));
    init_repo_at(&td.path().join("demo.git"), true);
    assert!(mgr.repo_exists("demo.git"));
}

#[test]
fn get_repo_reports_not_found() {
    let td = tempfile::tempdir().unwrap();
    let mgr = RepoManager::new(td.path().to_str().unwrap());
    match mgr.get_repo("absent.git") {
        Err(GitServiceError::NotFound(n)) => assert_eq!(n, "absent.git"),
        other => panic!("expected NotFound, got {:?}", other.map(|_| ())),
    }
}

#[test]
fn refs_advertisement_for_a_real_repository() {
    let td = tempfile::tempdir().unwrap();
    let mgr = RepoManager::new(td.path().to_str().unwrap());
    let repo = init_repo_at(&td.path().join("demo.git"), true);
    let cid = commit_empty_tree(&repo);
    let obj = repo.find_object(cid, None).unwrap();
    repo.tag_lightweight("v1", &obj, false).unwrap();
    let head_name = repo.head().unwrap().name().unwrap().to_string();

    let bytes = mgr.get_refs("demo.git").unwrap();
    let mut expected: Vec<u8> = Vec::new();
    expected.extend_from_slice(b"001e# service=git-upload-pack\n");
    expected.extend_from_slice(b"0000");
    expected.extend_from_slice(&frame(&format!("{}{}", cid, CAPS)));
    expected.extend_from_slice(&frame(&format!("{} {}\n", cid, head_name)));
    expected.extend_from_slice(b"0000");
    assert_eq!(bytes, expected);
}

#[test]
fn advertisement_fails_hard_without_resolvable_head() {
    let td = tempfile::tempdir().unwrap();
    let mgr = RepoManager::new(td.path().to_str().unwrap());
    init_repo_at(&td.path().join("empty.git"), true);
    assert!(mgr.get_refs("empty.git").is_err());
}

#[test]
fn head_ref_name_of_a_real_repository() {
    let td = tempfile::tempdir().unwrap();
    let mgr = RepoManager::new(td.path().to_str().unwrap());
    let repo = init_repo_at(&td.path().join("demo.git"), true);
    commit_empty_tree(&repo);
    let expected = repo.head().unwrap().name().unwrap().to_string();
    assert_eq!(mgr.head_ref_name("demo.git").unwrap(), expected);
}

#[test]
fn sync_with_no_branches_and_no_tags_pushes_nothing() {
    let td = tempfile::tempdir().unwrap();
    let work = td.path().join("work");
    init_repo_at(&work, false);
    let bare = td.path().join("bare").join("work.git");
    let outcome = sync_bare_repo(
        work.to_str().unwrap(),
        bare.to_str().unwrap(),
    )
    .unwrap();
    assert!(!outcome.pushed);
    assert!(outcome.optimize_warning.is_none());
}

#[test]
fn sync_pushes_every_branch_and_tag() {
    let td = tempfile::tempdir().unwrap();
    let work = td.path().join("work");
    let repo = init_repo_at(&work, false);
    let cid = commit_empty_tree(&repo);
    let obj = repo.find_object(cid, None).unwrap();
    repo.tag_lightweight("v1", &obj, false).unwrap();
    let branch_ref = repo.head().unwrap().name().unwrap().to_string();

    let bare = td.path().join("bare").join("work.git");
    let outcome = sync_bare_repo(
        work.to_str().unwrap(),
        bare.to_str().unwrap(),
    )
    .unwrap();
    assert!(outcome.pushed);

    let bare_repo = git2::Repository::open_bare(&bare).unwrap();
    let pushed_branch = bare_repo.find_reference(&branch_ref).unwrap();
    assert_eq!(pushed_branch.target().unwrap(), cid);
    let pushed_tag = bare_repo.find_reference("refs/tags/v1").unwrap();
    assert_eq!(pushed_tag.target().unwrap(), cid);
    assert!(bare_repo.find_commit(cid).is_ok());
}

#[test]
fn list_branches_names_local_branches_only() {
    let td = tempfile::tempdir().unwrap();
    let work = td.path().join("work");
    let repo = init_repo_at(&work, false);
    commit_empty_tree(&repo);
    let short = repo.head().unwrap().shorthand().unwrap().to_string();
    let names = list_branches(&String::from(work.to_str().unwrap())).unwrap();
    assert_eq!(names, vec![short]);
}

#[test]
fn search_finds_repositories_and_skips_dotted_paths() {
    let td = tempfile::Builder::new()
        .prefix("searchroot")
        .tempdir()
        .unwrap();
    let root = td.path().join("mirror");
    init_repo_at(&root.join("alpha"), false);
    init_repo_at(&root.join("group").join("beta"), false);
    init_repo_at(&root.join(".hidden").join("gamma"), false);
    let found = search_all_repo(root.to_str().unwrap()).unwrap();
    assert!(found.contains(&String::from("alpha")));
    assert!(found.contains(&String::from("group/beta")));
    assert!(!found.iter().any(|n| n.contains("gamma")));
    assert!(!found.iter().any(|n| n.contains(".git")));
}

#[test]
fn configure_bare_repo_applies_serving_settings() {
    let td = tempfile::tempdir().unwrap();
    let path = td.path().join("serve.git");
    init_repo_at(&path, true);
    configure_bare_repo(path.to_str().unwrap()).unwrap();
    let repo = git2::Repository::open_bare(&path).unwrap();
    let config = repo.config().unwrap().snapshot().unwrap();
    assert!(config.get_bool("core.bare").unwrap());
    assert!(config.get_bool("gc.auto").unwrap());
    assert!(config.get_bool("repack.writeBitmaps").unwrap());
    assert!(config.get_bool("receive.autogc").unwrap());
    assert_eq!(
        config.get_string("receive.denyNonFastForwards").unwrap(),
        "true"
    );
}

#[test]
fn fetch_remote_branches_enumerates_remote_tracking_names() {
    let td = tempfile::tempdir().unwrap();
    let src = td.path().join("src");
    let repo = init_repo_at(&src, false);
    commit_empty_tree(&repo);
    let short = repo.head().unwrap().shorthand().unwrap().to_string();
    let url = format!("file://{}", src.canonicalize().unwrap().to_str().unwrap());
    let names = fetch_remote_branches(&url, "unused-token").unwrap();
    assert!(names.contains(&format!("origin/{}", short)));
}

#[test]
fn pull_on_a_missing_repository_is_not_found() {
    let r = pull_with_token("definitely-absent-zzz", "tok");
    assert!(matches!(r, Err(GitServiceError::NotFound(_))));
}

#[test]
fn clone_failure_surfaces_the_remote_error() {
    let r = clone_with_token("file:///definitely/absent/origin", "scratch-clone", "tok");
    assert!(matches!(r, Err(GitServiceError::Upstream(_))));
}
