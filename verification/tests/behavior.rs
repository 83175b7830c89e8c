use ghwait::git::{branch_of_head_output, commit_of_lookup};
use ghwait::json::commit_oids_of_doc;
use ghwait::poll::{poll_outcome, PollOutcome};
use ghwait::text::{bytes_eq, trim_ascii};

#[test]
fn trims_surrounding_whitespace() {
    assert_eq!(trim_ascii(b"  main\n"), b"main".to_vec());
    assert_eq!(trim_ascii(b"\t\r\nmain"), b"main".to_vec());
    assert_eq!(trim_ascii(b"main"), b"main".to_vec());
    assert_eq!(trim_ascii(b"a b\n"), b"a b".to_vec());
}

#[test]
fn trims_all_whitespace_to_nothing() {
    assert_eq!(trim_ascii(b" \t\r\n"), Vec::<u8>::new());
    assert_eq!(trim_ascii(b""), Vec::<u8>::new());
}

#[test]
fn byte_equality() {
    assert!(bytes_eq(b"abc", b"abc"));
    assert!(!bytes_eq(b"abc", b"abd"));
    assert!(!bytes_eq(b"abc", b"ab"));
    assert!(bytes_eq(b"", b""));
}

#[test]
fn detached_head_yields_no_branch() {
    assert_eq!(branch_of_head_output(b"HEAD\n"), None);
}

#[test]
fn current_branch_is_trimmed_output() {
    assert_eq!(
        branch_of_head_output(b"feature/x\n"),
        Some(b"feature/x".to_vec())
    );
}

#[test]
fn branch_resembling_detached_marker_is_kept() {
    assert_eq!(branch_of_head_output(b"HEADS\n"), Some(b"HEADS".to_vec()));
    assert_eq!(branch_of_head_output(b"head\n"), Some(b"head".to_vec()));
}

#[test]
fn successful_lookup_trims_hash() {
    let r = commit_of_lookup(true, b"abc123\n", b"");
    assert_eq!(r, Ok(b"abc123".to_vec()));
}

#[test]
fn failed_lookup_hands_back_diagnostics() {
    let r = commit_of_lookup(false, b"", b"fatal: bad revision\n");
    assert_eq!(r, Err(b"fatal: bad revision\n".to_vec()));
}

#[test]
fn matching_latest_commit_is_up_to_date() {
    let body = br#"{"commits":[{"oid":"abc"}]}"#;
    assert_eq!(poll_outcome(b"abc", body), PollOutcome::UpToDate);
}

#[test]
fn last_listed_commit_is_the_one_compared() {
    let body = br#"{"commits":[{"oid":"abc"},{"oid":"def"}]}"#;
    assert_eq!(poll_outcome(b"def", body), PollOutcome::UpToDate);
    assert_eq!(poll_outcome(b"abc", body), PollOutcome::NotYet);
}

#[test]
fn empty_commit_list_is_transient() {
    assert_eq!(poll_outcome(b"abc", br#"{"commits":[]}"#), PollOutcome::NotYet);
}

#[test]
fn differing_commit_is_transient() {
    let body = br#"{"commits":[{"oid":"0ld"}]}"#;
    assert_eq!(poll_outcome(b"new", body), PollOutcome::NotYet);
}

#[test]
fn malformed_json_is_fatal() {
    assert_eq!(poll_outcome(b"abc", b"not json"), PollOutcome::BadResponse);
    assert_eq!(poll_outcome(b"abc", b""), PollOutcome::BadResponse);
    assert_eq!(
        poll_outcome(b"abc", br#"{"commits":[{"oid":"abc"}]"#),
        PollOutcome::BadResponse
    );
}

#[test]
fn wrong_shape_is_fatal() {
    assert_eq!(poll_outcome(b"abc", br#"{"pulls":[]}"#), PollOutcome::BadResponse);
    assert_eq!(poll_outcome(b"abc", br#"{"commits":{}}"#), PollOutcome::BadResponse);
    assert_eq!(
        poll_outcome(b"abc", br#"{"commits":[{"oid":5}]}"#),
        PollOutcome::BadResponse
    );
    assert_eq!(poll_outcome(b"abc", br#"{"commits":[{}]}"#), PollOutcome::BadResponse);
    assert_eq!(poll_outcome(b"abc", br#"[]"#), PollOutcome::BadResponse);
    assert_eq!(poll_outcome(b"abc", br#""commits""#), PollOutcome::BadResponse);
}

#[test]
fn extra_fields_are_tolerated() {
    let body =
        br#"{"title":"t","commits":[{"oid":"abc","messageHeadline":"m"}],"number":7}"#;
    assert_eq!(poll_outcome(b"abc", body), PollOutcome::UpToDate);
}

#[test]
fn oids_extracted_in_order() {
    let doc: serde_json::Value =
        serde_json::from_str(r#"{"commits":[{"oid":"a"},{"oid":"b"},{"oid":"c"}]}"#).unwrap();
    let oids = commit_oids_of_doc(&doc).unwrap();
    assert_eq!(
        oids,
        vec![b"a".to_vec(), b"b".to_vec(), b"c".to_vec()]
    );
}

#[test]
fn ill_shaped_document_yields_nothing() {
    let doc: serde_json::Value = serde_json::from_str(r#"{"commits":[{"oid":null}]}"#).unwrap();
    assert_eq!(commit_oids_of_doc(&doc), None);
    let doc: serde_json::Value = serde_json::from_str("3").unwrap();
    assert_eq!(commit_oids_of_doc(&doc), None);
}
