//! The execution ledger: states, digests and names.

use kobe::crd::execution::{
    execution_name, legacy_request_digest, request_digest, reuse_verdict, state_for_exit_code, transition_execution,
    ExecutionState, ExecutionTransitionError, ReuseVerdict, SandboxExecutionSpec,
};

fn spec(lease_uid: &str, digest: &str) -> SandboxExecutionSpec {
    SandboxExecutionSpec {
        lease_uid: lease_uid.into(),
        pod_uid: "pod-uid".into(),
        idempotency_key: "key-1".into(),
        request_digest: digest.into(),
        timeout: "60s".into(),
        detached: false,
        runner_managed: None,
    }
}

#[test]
fn terminal_states_are_terminal() {
    for terminal in [ExecutionState::Succeeded, ExecutionState::Failed, ExecutionState::Cancelled, ExecutionState::TimedOut, ExecutionState::Unknown] {
        assert!(terminal.is_terminal());
        for to in [ExecutionState::Running, ExecutionState::Succeeded, ExecutionState::Failed, ExecutionState::Cancelled, ExecutionState::TimedOut, ExecutionState::Unknown] {
            if to == terminal {
                // Idempotent: re-recording the same outcome is not a
                // change, and a controller may well do it after a restart.
                assert_eq!(transition_execution(terminal, to, None).unwrap(), terminal);
                continue;
            }
            assert!(
                matches!(
                    transition_execution(terminal, to, None),
                    Err(ExecutionTransitionError::AlreadyTerminal { .. })
                ),
                "{terminal:?} must not become {to:?}"
            );
        }
    }
}

#[test]
fn an_exit_code_is_only_ever_an_observed_one() {
    assert_eq!(
        transition_execution(ExecutionState::Running, ExecutionState::Succeeded, Some(0)).unwrap(),
        ExecutionState::Succeeded
    );
    assert_eq!(
        transition_execution(ExecutionState::Running, ExecutionState::Failed, Some(1)).unwrap(),
        ExecutionState::Failed
    );

    for state in [ExecutionState::Succeeded, ExecutionState::Failed] {
        assert!(matches!(
            transition_execution(ExecutionState::Running, state, None),
            Err(ExecutionTransitionError::ExitCodeRequired { .. })
        ));
    }
    for state in [ExecutionState::Cancelled, ExecutionState::TimedOut, ExecutionState::Unknown] {
        assert!(
            matches!(
                transition_execution(ExecutionState::Running, state, Some(0)),
                Err(ExecutionTransitionError::ExitCodeForbidden { .. })
            ),
            "{state:?} must not carry an exit code"
        );
        assert!(transition_execution(ExecutionState::Running, state, None).is_ok());
    }
}

#[test]
fn a_non_zero_exit_is_a_result_not_a_fault() {
    assert_eq!(state_for_exit_code(0), ExecutionState::Succeeded);
    for code in [1, 2, 127, 130, 255, -1, i32::MAX, i32::MIN] {
        assert_eq!(state_for_exit_code(code), ExecutionState::Failed, "exit {code}");
    }
}

#[test]
fn only_a_queued_execution_definitely_did_not_run() {
    assert!(ExecutionState::Queued.definitely_did_not_run());
    for state in [ExecutionState::Running, ExecutionState::Succeeded, ExecutionState::Failed, ExecutionState::Cancelled, ExecutionState::TimedOut, ExecutionState::Unknown] {
        assert!(
            !state.definitely_did_not_run(),
            "{state:?} may have had side effects"
        );
    }
}

#[test]
fn a_reused_key_with_different_content_conflicts() {
    let original = spec("lease-a", "digest-1");

    assert_eq!(
        reuse_verdict(&original, "lease-a", "digest-1"),
        ReuseVerdict::SameRequest
    );
    assert_eq!(
        reuse_verdict(&original, "lease-a", "digest-2"),
        ReuseVerdict::Conflict
    );
    // Another lease's key is not this caller's to reuse OR to conflict
    // with; leaking the conflict would confirm the other lease exists.
    assert_eq!(
        reuse_verdict(&original, "lease-b", "digest-1"),
        ReuseVerdict::Foreign
    );
}

#[test]
fn the_request_digest_cannot_be_made_to_collide() {
    let base = request_digest(&["/agent".into(), "run".into()], None, "60s", false);

    assert_eq!(
        base,
        request_digest(&["/agent".into(), "run".into()], None, "60s", false),
        "the same request must digest identically"
    );

    // Argument boundaries.
    assert_ne!(
        base,
        request_digest(&["/agentrun".into()], None, "60s", false)
    );
    assert_ne!(
        request_digest(&["a".into(), "bc".into()], None, "60s", false),
        request_digest(&["ab".into(), "c".into()], None, "60s", false)
    );
    // Order.
    assert_ne!(
        base,
        request_digest(&["run".into(), "/agent".into()], None, "60s", false)
    );
    // Working directory, including present-but-empty versus absent.
    assert_ne!(
        base,
        request_digest(
            &["/agent".into(), "run".into()],
            Some("/work"),
            "60s",
            false
        )
    );
    assert_ne!(
        base,
        request_digest(&["/agent".into(), "run".into()], Some(""), "60s", false)
    );
    // Timeout: the same command with a different bound is a different
    // request, because its outcome can differ.
    assert_ne!(
        base,
        request_digest(&["/agent".into(), "run".into()], None, "600s", false)
    );
    // Lifecycle mode is part of the request. Returning a wait-mode result
    // for a detached retry would silently remove its reconnectability.
    assert_ne!(
        base,
        request_digest(&["/agent".into(), "run".into()], None, "60s", true)
    );

    assert_eq!(base.len(), 64);
}

#[test]
fn execution_names_are_derived_fenced_and_valid() {
    let name = execution_name("lease-uid-1", "key-1");
    assert_eq!(name, execution_name("lease-uid-1", "key-1"));

    // One lease's key cannot name another's execution.
    assert_ne!(name, execution_name("lease-uid-2", "key-1"));
    assert_ne!(name, execution_name("lease-uid-1", "key-2"));

    // A caller-supplied key can be long, oddly cased, or full of
    // characters a Kubernetes name forbids. None of that reaches the name.
    for hostile in [
        "../../etc/passwd",
        "UPPER",
        &"x".repeat(4096),
        "with spaces",
        "with/slash",
        "",
    ] {
        let name = execution_name("lease-uid-1", hostile);
        assert!(name.len() <= 253, "{name} is too long");
        assert!(
            name.chars()
                .all(|c| c.is_ascii_lowercase() || c.is_ascii_digit() || c == '-'),
            "{name} is not a valid object name"
        );
        assert!(name.starts_with("sbxe-"));
    }

    // Concatenation would let one lease's key collide with another's by
    // moving the boundary; the length prefix prevents it.
    assert_ne!(
        execution_name("ab", "c"),
        execution_name("a", "bc"),
        "the lease/key boundary must be unambiguous"
    );
}

#[test]
fn the_older_digest_leaves_the_mode_out() {
    let argv = ["/agent".to_string(), "run".to_string()];
    let mut bytes: Vec<u8> = vec![0, 0, 0, 0, 0, 0, 0, 2];
    bytes.extend([0, 0, 0, 0, 0, 0, 0, 6]);
    bytes.extend(b"/agent");
    bytes.extend([0, 0, 0, 0, 0, 0, 0, 3]);
    bytes.extend(b"run");
    bytes.extend([1, 0, 0, 0, 0, 0, 0, 0, 2]);
    bytes.extend(b"/w");
    bytes.extend([0, 0, 0, 0, 0, 0, 0, 3]);
    bytes.extend(b"60s");
    assert_eq!(
        legacy_request_digest(&argv, Some("/w"), "60s"),
        kobe::digest::sha256_hex_of(&bytes)
    );
    bytes.push(1);
    assert_eq!(
        request_digest(&argv, Some("/w"), "60s", true),
        kobe::digest::sha256_hex_of(&bytes)
    );
}
