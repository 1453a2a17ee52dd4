use code_review::git::{CommandOutcome, GitCommand};
use code_review::resolve::{
    advance, begin, merge_base_from, probe, upstream_candidate, Resolution, ResolutionError,
    ResolvedBase, Resolver, UPSTREAM_COUNT,
};

fn exited(code: i32, stdout: &str) -> CommandOutcome {
    CommandOutcome::Exited { code: Some(code), stdout: stdout.as_bytes().to_vec() }
}

fn resolved(revision: &str) -> Resolution {
    Resolution::Resolved { base: ResolvedBase { revision: revision.to_string() } }
}

fn no_merge_base() -> Resolution {
    Resolution::Failed { error: ResolutionError::NoMergeBase }
}

fn pending_state(step: Resolution) -> Resolver {
    match step {
        Resolution::Pending { state, .. } => state,
        other => panic!("no command is pending: {:?}", other),
    }
}

#[test]
fn upstream_candidates_are_main_then_master() {
    assert_eq!(UPSTREAM_COUNT, 2);
    assert_eq!(upstream_candidate(0), Some("origin/main"));
    assert_eq!(upstream_candidate(1), Some("origin/master"));
    assert_eq!(upstream_candidate(2), None);
    assert_eq!(upstream_candidate(usize::MAX), None);
}

#[test]
fn explicit_revision_is_verified_first() {
    let step = begin(Some("abc123".to_string()));
    assert_eq!(
        step,
        Resolution::Pending {
            state: Resolver::Verifying { revision: "abc123".to_string() },
            command: GitCommand::VerifyRevision { revision: "abc123".to_string() },
        }
    );
}

#[test]
fn explicit_revision_that_does_not_resolve_is_invalid() {
    let state = pending_state(begin(Some("abc123".to_string())));
    let step = advance(state, &exited(128, ""));
    assert_eq!(
        step,
        Resolution::Failed {
            error: ResolutionError::InvalidRevision { revision: "abc123".to_string() }
        }
    );
}

#[test]
fn explicit_revision_is_invalid_when_git_cannot_run() {
    let state = pending_state(begin(Some("v1.0".to_string())));
    let step = advance(state, &CommandOutcome::Unavailable);
    assert_eq!(
        step,
        Resolution::Failed { error: ResolutionError::InvalidRevision { revision: "v1.0".to_string() } }
    );
}

#[test]
fn explicit_revision_that_resolves_is_the_base_as_given() {
    let state = pending_state(begin(Some("feature~2".to_string())));
    let step = advance(state, &exited(0, "0123456789abcdef\n"));
    assert_eq!(step, resolved("feature~2"));
}

#[test]
fn without_a_revision_main_is_asked_first() {
    let step = begin(None);
    assert_eq!(
        step,
        Resolution::Pending {
            state: Resolver::Probing { candidate: 0 },
            command: GitCommand::MergeBase { upstream: "origin/main".to_string() },
        }
    );
}

#[test]
fn main_merge_base_is_trimmed_and_used() {
    let state = pending_state(begin(None));
    let step = advance(state, &exited(0, "4f2a9c\n"));
    assert_eq!(step, resolved("4f2a9c"));
}

#[test]
fn master_is_asked_when_main_fails() {
    let state = pending_state(begin(None));
    let step = advance(state, &exited(128, ""));
    assert_eq!(
        step,
        Resolution::Pending {
            state: Resolver::Probing { candidate: 1 },
            command: GitCommand::MergeBase { upstream: "origin/master".to_string() },
        }
    );
}

#[test]
fn master_is_asked_when_main_cannot_run() {
    let state = pending_state(begin(None));
    let step = advance(state, &CommandOutcome::Unavailable);
    assert_eq!(pending_state(step), Resolver::Probing { candidate: 1 });
}

#[test]
fn master_merge_base_is_used_when_main_fails() {
    let state = pending_state(begin(None));
    let state = pending_state(advance(state, &exited(1, "fatal: not a valid object name")));
    let step = advance(state, &exited(0, "  9e8d7c6b\r\n"));
    assert_eq!(step, resolved("9e8d7c6b"));
}

#[test]
fn no_merge_base_when_neither_upstream_resolves() {
    let state = pending_state(begin(None));
    let state = pending_state(advance(state, &exited(128, "")));
    assert_eq!(advance(state, &exited(128, "")), no_merge_base());
}

#[test]
fn no_merge_base_when_git_never_runs() {
    let state = pending_state(begin(None));
    let state = pending_state(advance(state, &CommandOutcome::Unavailable));
    assert_eq!(advance(state, &CommandOutcome::Unavailable), no_merge_base());
}

#[test]
fn failed_lookup_output_is_never_a_base() {
    let state = pending_state(begin(None));
    let state = pending_state(advance(state, &exited(1, "aaaa\n")));
    assert_eq!(advance(state, &exited(1, "bbbb\n")), no_merge_base());
}

#[test]
fn empty_merge_base_output_is_no_merge_base() {
    assert_eq!(advance(Resolver::Probing { candidate: 0 }, &exited(0, "")), no_merge_base());
    assert_eq!(advance(Resolver::Probing { candidate: 0 }, &exited(0, " \n")), no_merge_base());
    assert_eq!(advance(Resolver::Probing { candidate: 1 }, &exited(0, "\n")), no_merge_base());
}

#[test]
fn merge_base_output_is_decoded_permissively() {
    let outcome = CommandOutcome::Exited { code: Some(0), stdout: vec![b'a', 0xff, b'b', b'\n'] };
    assert_eq!(advance(Resolver::Probing { candidate: 0 }, &outcome), resolved("a\u{fffd}b"));
}

#[test]
fn merge_base_from_trims_the_text() {
    assert_eq!(merge_base_from("abc"), resolved("abc"));
    assert_eq!(merge_base_from("\n abc def \n"), resolved("abc def"));
    assert_eq!(merge_base_from(""), no_merge_base());
    assert_eq!(merge_base_from("\t \n"), no_merge_base());
}

#[test]
fn probing_past_the_last_candidate_fails() {
    assert_eq!(probe(2), no_merge_base());
    assert_eq!(probe(usize::MAX), no_merge_base());
    assert_eq!(advance(Resolver::Probing { candidate: 2 }, &exited(1, "")), no_merge_base());
    assert_eq!(
        advance(Resolver::Probing { candidate: usize::MAX }, &CommandOutcome::Unavailable),
        no_merge_base()
    );
}

#[test]
fn resolution_errors_in_words() {
    assert_eq!(
        ResolutionError::InvalidRevision { revision: "abc123".to_string() }.message(),
        "Invalid git revision: abc123"
    );
    assert_eq!(
        ResolutionError::NoMergeBase.message(),
        "Failed to find merge base with origin/main or origin/master"
    );
}
