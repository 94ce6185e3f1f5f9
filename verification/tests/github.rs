use better_review::github::{
    blob_text, file_text_from_answer, hash_content, BlobLookup, Gh, BAD_REPO_MESSAGE,
    FILE_BLOB_QUERY, MARK_VIEWED_MUTATION, PR_VIEW_FIELDS,
};

#[test]
fn hash_of_empty_content() {
    assert_eq!(hash_content(""), "47DEQpj8HBSa-_TImW-5JCeuQeRkm5NMpJWZG3hSuFU");
}

#[test]
fn hash_of_text_is_url_safe_base64_of_sha256() {
    assert_eq!(hash_content("abc"), "ungWv48Bz-pBQUDeXa4iI7ADYaOWF3qctBD_YfIAFa0");
    assert_eq!(hash_content("abc").len(), 43);
    assert_ne!(hash_content("old\n"), hash_content("new\n"));
}

#[test]
fn pr_view_asks_for_json_of_the_pull_request() {
    let gh = Gh::new(None);
    assert_eq!(gh.pr_view(Some("7")), vec!["pr", "view", "--json", PR_VIEW_FIELDS, "7"]);
    assert_eq!(gh.pr_view(None), vec!["pr", "view", "--json", PR_VIEW_FIELDS]);
    assert_eq!(
        PR_VIEW_FIELDS,
        "id,number,url,baseRefOid,headRefOid,files,headRepository"
    );
}

#[test]
fn pinned_repository_comes_first() {
    let gh = Gh::new(Some("acme/widgets".into()));
    assert_eq!(
        gh.pr_view(None),
        vec!["-R", "acme/widgets", "pr", "view", "--json", PR_VIEW_FIELDS]
    );
}

#[test]
fn file_at_ref_queries_the_blob() {
    let gh = Gh::new(None);
    let query = format!("query={FILE_BLOB_QUERY}");
    let expected = vec![
        "api",
        "graphql",
        "-f",
        query.as_str(),
        "-F",
        "owner=acme",
        "-F",
        "name=widgets",
        "-F",
        "expr=abc123:src/lib.rs",
    ];
    assert_eq!(gh.file_at_ref("acme/widgets", "abc123", "src/lib.rs").unwrap(), expected);
    assert_eq!(
        gh.file_at_ref("github.com/acme/widgets", "abc123", "src/lib.rs").unwrap(),
        expected
    );
}

#[test]
fn file_at_ref_rejects_other_repository_forms() {
    let gh = Gh::new(None);
    assert_eq!(
        gh.file_at_ref("widgets", "abc", "x").unwrap_err(),
        BAD_REPO_MESSAGE
    );
    assert_eq!(
        gh.file_at_ref("a/b/c/d", "abc", "x").unwrap_err(),
        "repo must be OWNER/REPO or HOST/OWNER/REPO"
    );
}

#[test]
fn mark_file_viewed_runs_the_mutation() {
    let gh = Gh::new(Some("acme/widgets".into()));
    let query = format!("query={MARK_VIEWED_MUTATION}");
    assert_eq!(
        gh.mark_file_viewed("PR_kw", "src/lib.rs"),
        vec![
            "-R",
            "acme/widgets",
            "api",
            "graphql",
            "-f",
            query.as_str(),
            "-F",
            "pullRequestId=PR_kw",
            "-F",
            "path=src/lib.rs",
        ]
    );
}

#[test]
fn blob_text_skips_missing_and_binary_objects() {
    let missing = BlobLookup { object_found: false, is_binary: None, text: Some("x".into()) };
    assert_eq!(blob_text(missing), None);
    let binary = BlobLookup { object_found: true, is_binary: Some(true), text: Some("x".into()) };
    assert_eq!(blob_text(binary), None);
    let text = BlobLookup { object_found: true, is_binary: Some(false), text: Some("x".into()) };
    assert_eq!(blob_text(text), Some("x".to_string()));
    let unknown = BlobLookup { object_found: true, is_binary: None, text: Some("y".into()) };
    assert_eq!(blob_text(unknown), Some("y".to_string()));
    let no_text = BlobLookup { object_found: true, is_binary: Some(false), text: None };
    assert_eq!(blob_text(no_text), None);
}

#[test]
fn blob_answers_give_the_file_text() {
    let text = r#"{"data":{"repository":{"object":{"isBinary":false,"text":"hello\n","byteSize":6}}}}"#;
    assert_eq!(file_text_from_answer(text), Ok(Some("hello\n".to_string())));
    let binary = r#"{"data":{"repository":{"object":{"isBinary":true,"text":null,"byteSize":6}}}}"#;
    assert_eq!(file_text_from_answer(binary), Ok(None));
    let missing = r#"{"data":{"repository":{"object":null}}}"#;
    assert_eq!(file_text_from_answer(missing), Ok(None));
    let empty_object = r#"{"data":{"repository":{"object":{}}}}"#;
    assert_eq!(file_text_from_answer(empty_object), Ok(None));
    assert!(file_text_from_answer("not json").is_err());
}
