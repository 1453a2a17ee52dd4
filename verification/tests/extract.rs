use code_review::extract::{diff_command, extract_diff, ExtractionError};
use code_review::git::{CommandOutcome, GitCommand};
use code_review::resolve::ResolvedBase;

#[test]
fn diff_is_taken_against_the_base() {
    let command = diff_command(ResolvedBase { revision: "4f2a9c".to_string() });
    assert_eq!(command, GitCommand::Diff { base: "4f2a9c".to_string() });
    assert_eq!(command.args(), vec!["diff", "-U30", "4f2a9c", "HEAD"]);
}

#[test]
fn base_identical_to_head_is_an_empty_change_set() {
    let outcome = CommandOutcome::Exited { code: Some(0), stdout: Vec::new() };
    assert_eq!(extract_diff(outcome).unwrap_err(), ExtractionError::EmptyChangeSet);
}

#[test]
fn non_zero_exit_is_a_subprocess_failure() {
    let outcome = CommandOutcome::Exited { code: Some(1), stdout: Vec::new() };
    assert_eq!(
        extract_diff(outcome).unwrap_err(),
        ExtractionError::SubprocessFailure { code: Some(1) }
    );
    let outcome = CommandOutcome::Exited { code: Some(128), stdout: b"diff --git".to_vec() };
    assert_eq!(
        extract_diff(outcome).unwrap_err(),
        ExtractionError::SubprocessFailure { code: Some(128) }
    );
}

#[test]
fn a_diff_that_did_not_run_is_a_subprocess_failure() {
    assert_eq!(
        extract_diff(CommandOutcome::Unavailable).unwrap_err(),
        ExtractionError::SubprocessFailure { code: None }
    );
    let killed = CommandOutcome::Exited { code: None, stdout: b"diff".to_vec() };
    assert_eq!(
        extract_diff(killed).unwrap_err(),
        ExtractionError::SubprocessFailure { code: None }
    );
}

#[test]
fn the_change_set_is_the_output_byte_for_byte() {
    let diff = "diff --git a/x b/x\n--- a/x\n+++ b/x\n@@ -1 +1 @@\n-old\n+new\n";
    let outcome = CommandOutcome::Exited { code: Some(0), stdout: diff.as_bytes().to_vec() };
    let changes = extract_diff(outcome).unwrap();
    assert_eq!(changes.bytes(), diff.as_bytes());
    assert_eq!(changes.text(), diff);
}

#[test]
fn a_single_byte_is_a_change_set() {
    let outcome = CommandOutcome::Exited { code: Some(0), stdout: vec![b'\n'] };
    let changes = extract_diff(outcome).unwrap();
    assert_eq!(changes.bytes().len(), 1);
    assert_eq!(changes.text(), "\n");
}

#[test]
fn invalid_encoding_is_replaced_not_rejected() {
    let outcome = CommandOutcome::Exited {
        code: Some(0),
        stdout: vec![b'+', 0xff, 0xfe, b'\n', 0xc3, 0xa9, 0xc3],
    };
    let changes = extract_diff(outcome).unwrap();
    assert_eq!(changes.bytes(), &[b'+', 0xff, 0xfe, b'\n', 0xc3, 0xa9, 0xc3]);
    assert_eq!(changes.text(), "+\u{fffd}\u{fffd}\né\u{fffd}");
}

#[test]
fn extraction_errors_in_words() {
    assert_eq!(
        ExtractionError::SubprocessFailure { code: Some(1) }.message(),
        "`git diff` failed with status: exit status: 1"
    );
    assert_eq!(
        ExtractionError::SubprocessFailure { code: Some(-2) }.message(),
        "`git diff` failed with status: exit status: -2"
    );
    assert_eq!(
        ExtractionError::SubprocessFailure { code: None }.message(),
        "Failed to run `git diff`"
    );
    assert_eq!(ExtractionError::EmptyChangeSet.message(), "No changes found");
}
