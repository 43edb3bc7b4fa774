use gitmirror::errors::GitServiceError;
use gitmirror::paths::{bare_repo_target, git_meta_path, strip_root, working_repo_path};
use gitmirror::service::{
    bare_serving_settings, check_path, classify_merge_analysis, decide_pull_action,
    fetch_refspec, branch_refname, fill_unnamed, is_https_url, keep_present, plan_sync_refspecs,
    resolve_checked_path, select_repositories, BareSetting, MergeState, PullAction,
    SepFileRequest,
};

#[test]
fn serving_settings_are_the_five_documented_ones() {
    let settings = bare_serving_settings();
    assert_eq!(settings.len(), 5);
    assert!(matches!(&settings[0], BareSetting::Flag { key, value } if key == "core.bare" && *value));
    assert!(matches!(&settings[1], BareSetting::Flag { key, value } if key == "gc.auto" && *value));
    assert!(
        matches!(&settings[2], BareSetting::Flag { key, value } if key == "repack.writeBitmaps" && *value)
    );
    assert!(
        matches!(&settings[3], BareSetting::Flag { key, value } if key == "receive.autogc" && *value)
    );
    assert!(
        matches!(&settings[4], BareSetting::Text { key, value } if key == "receive.denyNonFastForwards" && value == "true")
    );
}

#[test]
fn repository_selection_skips_dotted_paths_and_failed_probes() {
    let paths = vec![
        String::from("root"),
        String::from("root/a"),
        String::from("root/a/.git"),
        String::from("root/b"),
        String::from("root/.hidden/c"),
        String::from("root/sub/d"),
    ];
    let probed = vec![false, true, true, false, true, true];
    let found = select_repositories(&paths, &probed, "root");
    assert_eq!(found, vec![String::from("a"), String::from("sub/d")]);
}

#[test]
fn keep_present_drops_absent_names() {
    let names = vec![Some(String::from("a")), None, Some(String::from("b"))];
    assert_eq!(
        keep_present(&names),
        vec![String::from("a"), String::from("b")]
    );
    assert_eq!(keep_present(&vec![None, None]).len(), 0);
}

#[test]
fn fill_unnamed_substitutes_the_placeholder() {
    let names = vec![Some(String::from("main")), None];
    assert_eq!(
        fill_unnamed(&names, "unnamed-local-branch"),
        vec![String::from("main"), String::from("unnamed-local-branch")]
    );
}

#[test]
fn only_https_urls_count_as_encrypted() {
    assert!(is_https_url("https://example.org/repo.git"));
    assert!(!is_https_url("http://example.org/repo.git"));
    assert!(!is_https_url("git@example.org:repo.git"));
}

#[test]
fn merge_analysis_bits_classify_exactly() {
    assert_eq!(classify_merge_analysis(2), MergeState::UpToDate);
    assert_eq!(classify_merge_analysis(4), MergeState::FastForward);
    assert_eq!(classify_merge_analysis(6), MergeState::UpToDate);
    assert_eq!(classify_merge_analysis(0), MergeState::Diverged);
    assert_eq!(classify_merge_analysis(1), MergeState::Diverged);
    assert_eq!(classify_merge_analysis(8), MergeState::Diverged);
    assert_eq!(classify_merge_analysis(5), MergeState::FastForward);
}

#[test]
fn up_to_date_pull_returns_without_mutation() {
    assert_eq!(
        decide_pull_action(MergeState::UpToDate),
        PullAction::ReturnUpToDate
    );
}

#[test]
fn diverged_pull_requires_manual_merge() {
    assert_eq!(
        decide_pull_action(MergeState::Diverged),
        PullAction::FailManualMerge
    );
    assert_eq!(
        decide_pull_action(MergeState::FastForward),
        PullAction::FastForwardAndSync
    );
}

#[test]
fn fetch_refspec_names_only_the_current_branch() {
    assert_eq!(
        fetch_refspec("main"),
        "+refs/heads/main:refs/remotes/origin/main"
    );
    assert_eq!(branch_refname("dev"), "refs/heads/dev");
}

#[test]
fn sync_plan_maps_each_present_name_to_itself() {
    let branches = vec![
        Some(String::from("main")),
        None,
        Some(String::from("dev")),
    ];
    let tags = vec![Some(String::from("v1")), None];
    let plan = plan_sync_refspecs(&branches, &tags);
    assert_eq!(
        plan,
        vec![
            String::from("refs/heads/main:refs/heads/main"),
            String::from("refs/heads/dev:refs/heads/dev"),
            String::from("refs/tags/v1:refs/tags/v1"),
        ]
    );
}

#[test]
fn sync_plan_for_no_branches_and_no_tags_is_empty() {
    let plan = plan_sync_refspecs(&Vec::new(), &Vec::new());
    assert_eq!(plan.len(), 0);
    let absent = vec![None, None];
    let plan2 = plan_sync_refspecs(&absent, &Vec::new());
    assert_eq!(plan2.len(), 0);
}

fn file_request(repo: &str, branch: &str, path: &str) -> SepFileRequest {
    SepFileRequest {
        repo_name: String::from(repo),
        branch_name: String::from(branch),
        file_path: String::from(path),
    }
}

#[test]
fn parent_segments_are_rejected_before_any_repository_access() {
    let r = check_path(&file_request("r", "main", "../../etc/passwd"));
    match r {
        Err(GitServiceError::PathTraversal(p)) => assert_eq!(p, "../../etc/passwd"),
        other => panic!("expected PathTraversal, got {:?}", other),
    }
}

#[test]
fn absolute_paths_are_rejected() {
    let r = check_path(&file_request("r", "main", "/etc/passwd"));
    assert!(matches!(r, Err(GitServiceError::PathTraversal(_))));
}

#[test]
fn inner_parent_segments_are_rejected() {
    let r = check_path(&file_request("r", "main", "src/../secret"));
    assert!(matches!(r, Err(GitServiceError::PathTraversal(_))));
}

#[test]
fn clean_path_on_missing_repository_is_not_a_traversal_error() {
    let r = check_path(&file_request("no-such-repo-zzz", "main", "src/lib.rs"));
    assert!(matches!(r, Err(GitServiceError::Upstream(_))));
}

#[test]
fn branch_mismatch_fails_even_for_an_existing_file() {
    let r = resolve_checked_path(&file_request("r", "main", "README.md"), "master");
    match r {
        Err(GitServiceError::BranchMismatch(current, requested)) => {
            assert_eq!(current, "master");
            assert_eq!(requested, "main");
        }
        other => panic!("expected BranchMismatch, got {:?}", other),
    }
}

#[test]
fn matching_branch_yields_the_joined_path() {
    let r = resolve_checked_path(&file_request("r", "main", "src/lib.rs"), "main");
    assert_eq!(r.unwrap(), "test_repos/r/src/lib.rs");
}

#[test]
fn traversal_wins_over_branch_comparison() {
    let r = resolve_checked_path(&file_request("r", "main", "../x"), "main");
    assert!(matches!(r, Err(GitServiceError::PathTraversal(_))));
}

#[test]
fn repository_paths_are_rooted() {
    assert_eq!(working_repo_path("demo"), "test_repos/demo");
    assert_eq!(bare_repo_target("demo"), "bare_repos/demo.git");
    assert_eq!(git_meta_path("a/b"), "a/b/.git");
}

#[test]
fn strip_root_cuts_the_root_and_its_separator() {
    assert_eq!(strip_root("root/a/b", "root"), "a/b");
    assert_eq!(strip_root("root/a", "root/"), "a");
    assert_eq!(strip_root("other/a", "root"), "other/a");
    assert_eq!(strip_root("rooted/a", "root"), "rooted/a");
    assert_eq!(strip_root("root", "root"), "");
}
