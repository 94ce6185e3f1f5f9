use std::path::Path;

use better_review::github::{hash_content, PrFile, PrMeta, RepoRef};
use better_review::state::{
    base_repo_name, build_review_file, collect_loaded_files, current_content_request,
    existing_state_for, fetch_worker_count, head_repo_name, initial_base_path,
    initial_content_request, is_renamed, join_path, loaded_content, loading_file_message,
    loading_files_message, loading_plan,
    repair_renamed_reviewed_state_if_needed, reviewed_path, session_root, AcceptedFileOutcome,
    FileState, Manifest, ReviewFile, ReviewSession,
};

fn widgets_pr() -> PrMeta {
    PrMeta {
        id: "PR_kw".into(),
        number: 7,
        url: "https://github.com/acme/widgets/pull/7".into(),
        base_ref_oid: "base".into(),
        head_ref_oid: "head".into(),
        files: Vec::new(),
        head_repository: Some(RepoRef {
            name_with_owner: "acme/widgets".into(),
        }),
    }
}

fn renamed_pr_file() -> PrFile {
    PrFile {
        path: "new/path.rs".into(),
        previous_path: Some("old/path.rs".into()),
        additions: 1,
        deletions: 1,
        change_type: "RENAMED".into(),
    }
}

fn state(path: &str, base_path_used: &str, initial: &str, reviewed: &str) -> FileState {
    FileState {
        path: path.into(),
        previous_path: Some("old/path.rs".into()),
        change_type: "RENAMED".into(),
        reviewed_hash: hash_content(reviewed),
        current_hash: Some(hash_content("new contents\n")),
        base_path_used: Some(base_path_used.into()),
        base_ref_oid_used: Some("base".into()),
        initial_reviewed_hash: Some(hash_content(initial)),
        unsupported: false,
    }
}

#[test]
fn state_session_root_uses_repo_and_pr() {
    let pr = widgets_pr();
    let root = session_root("/tmp/state", &pr);
    assert_eq!(Path::new(&root), Path::new("/tmp/state/github.com/acme/widgets/pr-7"));
}

#[test]
fn session_root_falls_back_to_unknown_repository() {
    let mut pr = widgets_pr();
    pr.url = "https://example.com/pull/3".into();
    pr.number = 3;
    assert_eq!(session_root("/data", &pr), "/data/github.com/unknown/unknown/pr-3");
    pr.url = "https://github.com/acme".into();
    assert_eq!(session_root("/data", &pr), "/data/github.com/unknown/unknown/pr-3");
}

#[test]
fn reviewed_path_is_under_the_session() {
    let pr = widgets_pr();
    assert_eq!(
        reviewed_path("/tmp/state", &pr, "src/lib.rs"),
        "/tmp/state/github.com/acme/widgets/pr-7/reviewed/src/lib.rs"
    );
}

#[test]
fn joining_paths_follows_path_join() {
    assert_eq!(join_path("/a", "b"), "/a/b");
    assert_eq!(join_path("/a/", "b"), "/a/b");
    assert_eq!(join_path("", "b"), "b");
    assert_eq!(join_path("/a", "/etc"), "/etc");
    assert_eq!(join_path("/a", ""), "/a/");
}

#[test]
fn repository_names_come_from_the_url_and_head() {
    let mut pr = widgets_pr();
    assert_eq!(base_repo_name(&pr), Some("acme/widgets".to_string()));
    pr.head_repository = Some(RepoRef { name_with_owner: "fork/widgets".into() });
    assert_eq!(head_repo_name(&pr), "fork/widgets");
    pr.head_repository = None;
    assert_eq!(head_repo_name(&pr), "acme/widgets");
    pr.url = "https://example.com/x".into();
    assert_eq!(base_repo_name(&pr), None);
    assert_eq!(head_repo_name(&pr), "unknown/unknown");
}

#[test]
fn state_local_accept_reports_when_file_caught_up() {
    let pr = widgets_pr();
    let mut session = ReviewSession::load("/tmp/state".into(), pr, None);
    session.apply_refreshed_files(vec![ReviewFile {
        meta: FileState {
            path: "src/lib.rs".into(),
            previous_path: None,
            change_type: "MODIFIED".into(),
            reviewed_hash: hash_content("old\n"),
            current_hash: Some(hash_content("new\n")),
            base_path_used: Some("src/lib.rs".into()),
            base_ref_oid_used: Some("base".into()),
            initial_reviewed_hash: Some(hash_content("old\n")),
            unsupported: false,
        },
        reviewed: "old\n".into(),
        current: "new\n".into(),
    }]);

    let outcome = session.accept_file_content_local(0, "new\n".into());

    assert_eq!(
        outcome,
        AcceptedFileOutcome {
            path: "src/lib.rs".into(),
            should_mark_viewed: true
        }
    );
    assert_eq!(session.files[0].reviewed, "new\n");
    assert_eq!(session.files[0].meta.reviewed_hash, hash_content("new\n"));
    assert_eq!(session.manifest.files[0].reviewed_hash, hash_content("new\n"));
}

#[test]
fn partial_accept_is_not_marked_viewed() {
    let pr = widgets_pr();
    let mut session = ReviewSession::load("/tmp/state".into(), pr, None);
    let file = build_review_file(
        &session.manifest.pr,
        PrFile {
            path: "a.txt".into(),
            previous_path: None,
            additions: 1,
            deletions: 0,
            change_type: "MODIFIED".into(),
        },
        "one\n".into(),
        "one\ntwo\n".into(),
        "one\n",
    );
    session.apply_refreshed_files(vec![file]);
    let outcome = session.accept_file_content_local(0, "zero\n".into());
    assert!(!outcome.should_mark_viewed);
    assert_eq!(outcome.path, "a.txt");
    assert_eq!(session.files[0].current, "one\ntwo\n");
}

#[test]
fn load_keeps_stored_records_and_takes_the_new_description() {
    let mut old_pr = widgets_pr();
    old_pr.head_ref_oid = "older".into();
    let stored = Manifest {
        pr: old_pr,
        files: vec![state("new/path.rs", "old/path.rs", "x", "x")],
    };
    let session = ReviewSession::load("/r".into(), widgets_pr(), Some(stored));
    assert_eq!(session.root(), "/r");
    assert_eq!(session.manifest.pr.head_ref_oid, "head");
    assert_eq!(session.manifest.files.len(), 1);
    assert!(session.files.is_empty());
}

#[test]
fn build_review_file_records_hashes_and_base() {
    let pr = widgets_pr();
    let file = build_review_file(&pr, renamed_pr_file(), "r".into(), "c".into(), "i");
    assert_eq!(file.meta.path, "new/path.rs");
    assert_eq!(file.meta.reviewed_hash, hash_content("r"));
    assert_eq!(file.meta.current_hash, Some(hash_content("c")));
    assert_eq!(file.meta.initial_reviewed_hash, Some(hash_content("i")));
    assert_eq!(file.meta.base_path_used, Some("old/path.rs".to_string()));
    assert_eq!(file.meta.base_ref_oid_used, Some("base".to_string()));
    assert!(!file.meta.unsupported);
}

#[test]
fn requests_follow_the_change_type() {
    let pr = widgets_pr();
    let mut file = renamed_pr_file();
    let initial = initial_content_request(&pr, &file).unwrap();
    assert_eq!((initial.repo.as_str(), initial.oid.as_str(), initial.path.as_str()), ("acme/widgets", "base", "old/path.rs"));
    let current = current_content_request(&pr, &file).unwrap();
    assert_eq!((current.repo.as_str(), current.oid.as_str(), current.path.as_str()), ("acme/widgets", "head", "new/path.rs"));
    file.change_type = "added".into();
    assert!(initial_content_request(&pr, &file).is_none());
    assert!(current_content_request(&pr, &file).is_some());
    file.change_type = "Deleted".into();
    assert!(current_content_request(&pr, &file).is_none());
    assert!(initial_content_request(&pr, &file).is_some());
}

#[test]
fn renames_and_moves_are_recognised() {
    let mut file = renamed_pr_file();
    assert!(is_renamed(&file));
    file.change_type = "moved".into();
    assert!(is_renamed(&file));
    file.change_type = "MODIFIED".into();
    assert!(!is_renamed(&file));
    assert_eq!(initial_base_path(&file), "old/path.rs");
    file.previous_path = None;
    assert_eq!(initial_base_path(&file), "new/path.rs");
}

#[test]
fn repairs_empty_reviewed_state_for_renamed_file() {
    let file = renamed_pr_file();
    let existing = state("new/path.rs", "old/path.rs", "old contents\n", "");
    let outcome = repair_renamed_reviewed_state_if_needed(
        &file,
        String::new(),
        "new contents\n",
        "old contents\n",
        Some(&existing),
    );
    assert_eq!(outcome.reviewed, "old contents\n");
    assert!(outcome.rewritten);
}

#[test]
fn preserves_non_empty_user_reviewed_state_for_renamed_file() {
    let file = renamed_pr_file();
    let existing = state("new/path.rs", "old/path.rs", "old contents\n", "user reviewed\n");
    let outcome = repair_renamed_reviewed_state_if_needed(
        &file,
        "user reviewed\n".into(),
        "new contents\n",
        "old contents\n",
        Some(&existing),
    );
    assert_eq!(outcome.reviewed, "user reviewed\n");
    assert!(!outcome.rewritten);
}

#[test]
fn repairs_untouched_state_started_from_the_new_path() {
    let file = renamed_pr_file();
    let existing = state("new/path.rs", "new/path.rs", "wrong base\n", "wrong base\n");
    let outcome = repair_renamed_reviewed_state_if_needed(
        &file,
        "wrong base\n".into(),
        "new contents\n",
        "old contents\n",
        Some(&existing),
    );
    assert!(outcome.rewritten);
    assert_eq!(outcome.reviewed, "old contents\n");

    let touched = repair_renamed_reviewed_state_if_needed(
        &file,
        "edited\n".into(),
        "new contents\n",
        "old contents\n",
        Some(&existing),
    );
    assert!(!touched.rewritten);
    assert_eq!(touched.reviewed, "edited\n");
}

#[test]
fn files_that_were_not_renamed_are_left_alone() {
    let mut file = renamed_pr_file();
    file.change_type = "MODIFIED".into();
    let outcome =
        repair_renamed_reviewed_state_if_needed(&file, String::new(), "new\n", "old\n", None);
    assert!(!outcome.rewritten);
    assert_eq!(outcome.reviewed, "");
}

#[test]
fn the_last_record_for_a_path_is_used() {
    let states = vec![
        state("a", "a", "first", "first"),
        state("b", "b", "x", "x"),
        state("a", "a", "second", "second"),
    ];
    let found = existing_state_for(&states, "a").unwrap();
    assert_eq!(found.initial_reviewed_hash, Some(hash_content("second")));
    assert!(existing_state_for(&states, "c").is_none());
}

#[test]
fn worker_count_is_bounded() {
    assert_eq!(fetch_worker_count(0), 0);
    assert_eq!(fetch_worker_count(3), 3);
    assert_eq!(fetch_worker_count(8), 8);
    assert_eq!(fetch_worker_count(40), 8);
}

#[test]
fn progress_messages() {
    assert_eq!(loading_files_message(12, 8), "loading 12 files with 8 workers");
    assert_eq!(loading_file_message(0, 12, "src/lib.rs"), "loading file 1/12: src/lib.rs");
}

fn loaded(path: &str) -> ReviewFile {
    build_review_file(
        &widgets_pr(),
        PrFile {
            path: path.into(),
            previous_path: None,
            additions: 0,
            deletions: 0,
            change_type: "MODIFIED".into(),
        },
        "r".into(),
        "c".into(),
        "r",
    )
}

#[test]
fn loaded_files_come_back_in_order() {
    let reports = vec![(1, Ok(loaded("b"))), (0, Ok(loaded("a"))), (2, Ok(loaded("c")))];
    let files = collect_loaded_files(3, reports).unwrap();
    let paths: Vec<&str> = files.iter().map(|f| f.meta.path.as_str()).collect();
    assert_eq!(paths, vec!["a", "b", "c"]);
}

#[test]
fn the_first_failure_wins() {
    let reports = vec![
        (1, Ok(loaded("b"))),
        (2, Err("second failed".to_string())),
        (0, Err("first failed".to_string())),
    ];
    assert_eq!(collect_loaded_files(3, reports).unwrap_err(), "second failed");
}

#[test]
fn a_missing_file_is_an_error() {
    let reports = vec![(0, Ok(loaded("a"))), (2, Ok(loaded("c")))];
    assert_eq!(
        collect_loaded_files(3, reports).unwrap_err(),
        "worker did not return file at index 1"
    );
    assert!(collect_loaded_files(0, Vec::new()).unwrap().is_empty());
}

#[test]
fn loading_plans_skip_empty_pull_requests() {
    assert!(loading_plan(0).is_none());
    let (workers, message) = loading_plan(3).unwrap();
    assert_eq!(workers, 3);
    assert_eq!(message, "loading 3 files with 3 workers");
    let (workers, message) = loading_plan(20).unwrap();
    assert_eq!(workers, 8);
    assert_eq!(message, "loading 20 files with 8 workers");
}

#[test]
fn missing_content_is_empty() {
    assert_eq!(loaded_content(None), "");
    assert_eq!(loaded_content(Some("x\n".into())), "x\n");
}
