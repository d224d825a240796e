//! Durable, idempotent command executions inside a sandbox.
//!
//! An execution is an object that is reserved before anything is spawned, so
//! that a retry can be told whether its command already ran. Only a digest of
//! the request is kept, never the command line.

use crate::digest::{self, sha256_hex_of};
use crate::frame::{self, push_be64, push_bytes, push_text_frame};
use crate::text::{self, concat, concat3, same_text};
use vstd::prelude::*;
use vstd::string::*;
use vstd::utf8::*;

verus! {

/// One command's durable record.
#[derive(Debug, Clone, PartialEq, Eq)]
pub struct SandboxExecutionSpec {
    /// UID of the lease that this ran under.
    pub lease_uid: String,
    /// UID of the Pod that it ran in.
    pub pod_uid: String,
    /// Caller-supplied key: two requests with one key are the same request.
    pub idempotency_key: String,
    /// SHA-256 over the framed request.
    pub request_digest: String,
    /// Wall-clock bound that the runner enforces.
    pub timeout: String,
    /// Whether the caller asked for a handle instead of waiting for the result.
    pub detached: bool,
    /// Whether a runner supervises the execution; absent on older records.
    pub runner_managed: Option<bool>,
}

/// What is known of an execution so far.
#[derive(Debug, Clone, PartialEq, Eq)]
pub struct SandboxExecutionStatus {
    pub state: ExecutionState,
    pub started_at: Option<String>,
    pub finished_at: Option<String>,
    /// The process's exact exit code; absent unless it ran to completion.
    pub exit_code: Option<i32>,
    /// Bounded reason code.
    pub reason: Option<String>,
    /// Deadline after which a running execution becomes `Unknown`.
    pub verdict_deadline: Option<String>,
}

impl Default for SandboxExecutionStatus {
    fn default() -> (status: Self)
        ensures
            status == (SandboxExecutionStatus {
                state: ExecutionState::Queued,
                started_at: None,
                finished_at: None,
                exit_code: None,
                reason: None,
                verdict_deadline: None,
            }),
    {
        SandboxExecutionStatus {
            state: ExecutionState::Queued,
            started_at: None,
            finished_at: None,
            exit_code: None,
            reason: None,
            verdict_deadline: None,
        }
    }
}

/// Where an execution is.
#[derive(Debug, Clone, Copy, PartialEq, Eq, Structural)]
pub enum ExecutionState {
    /// Reserved, not yet spawned.
    Queued,
    Running,
    Succeeded,
    /// Ran and exited non-zero.
    Failed,
    /// Cancelled by the caller, or by the lease ending.
    Cancelled,
    /// The runner's own bound elapsed.
    TimedOut,
    /// What happened cannot be established.
    Unknown,
}

impl Default for ExecutionState {
    fn default() -> (state: Self)
        ensures
            state == ExecutionState::Queued,
    {
        ExecutionState::Queued
    }
}

impl ExecutionState {
    /// A settled outcome.
    pub open spec fn terminal(self) -> bool {
        self is Succeeded || self is Failed || self is Cancelled || self is TimedOut
            || self is Unknown
    }

    /// An outcome that only an observed exit code can establish.
    pub open spec fn needs_exit_code(self) -> bool {
        self is Succeeded || self is Failed
    }

    /// The variant's name.
    pub open spec fn name_text(self) -> Seq<char> {
        match self {
            ExecutionState::Queued => "Queued"@,
            ExecutionState::Running => "Running"@,
            ExecutionState::Succeeded => "Succeeded"@,
            ExecutionState::Failed => "Failed"@,
            ExecutionState::Cancelled => "Cancelled"@,
            ExecutionState::TimedOut => "TimedOut"@,
            ExecutionState::Unknown => "Unknown"@,
        }
    }

    /// Whether the outcome is settled.
    pub fn is_terminal(self) -> (settled: bool)
        ensures
            settled == self.terminal(),
    {
        match self {
            ExecutionState::Queued | ExecutionState::Running => false,
            _ => true,
        }
    }

    /// Whether the command of an execution in this state has not run.
    pub open spec fn not_yet_run(self) -> bool {
        self is Queued
    }

    /// Whether this state means that the command definitely did not run.
    pub fn definitely_did_not_run(self) -> (idle: bool)
        ensures
            idle == (self is Queued),
            idle == self.not_yet_run(),
    {
        self == ExecutionState::Queued
    }

    /// The name under which the state is shown.
    pub fn name(self) -> (name: &'static str)
        ensures
            name@ == self.name_text(),
    {
        match self {
            ExecutionState::Queued => "Queued",
            ExecutionState::Running => "Running",
            ExecutionState::Succeeded => "Succeeded",
            ExecutionState::Failed => "Failed",
            ExecutionState::Cancelled => "Cancelled",
            ExecutionState::TimedOut => "TimedOut",
            ExecutionState::Unknown => "Unknown",
        }
    }
}

/// Why a state change was refused.
#[derive(Debug, Clone, Copy, PartialEq, Eq, Structural)]
pub enum ExecutionTransitionError {
    AlreadyTerminal { from: ExecutionState, to: ExecutionState },
    Invalid { from: ExecutionState, to: ExecutionState },
    ExitCodeRequired { state: ExecutionState },
    ExitCodeForbidden { state: ExecutionState },
}

impl ExecutionTransitionError {
    /// The text that `message` returns.
    pub open spec fn message_text(self) -> Seq<char> {
        match self {
            ExecutionTransitionError::AlreadyTerminal { from, to } => "an execution in "@
                + from.name_text() + " is already settled and cannot become "@ + to.name_text(),
            ExecutionTransitionError::Invalid { from, to } => from.name_text()
                + " cannot become "@ + to.name_text(),
            ExecutionTransitionError::ExitCodeRequired { state } => state.name_text()
                + " requires an exit code"@,
            ExecutionTransitionError::ExitCodeForbidden { state } => state.name_text()
                + " must not carry an exit code"@,
        }
    }

    /// The refusal in words.
    pub fn message(&self) -> (message: String)
        ensures
            message@ == self.message_text(),
    {
        match self {
            ExecutionTransitionError::AlreadyTerminal { from, to } => {
                let head = concat3(
                    "an execution in ",
                    from.name(),
                    " is already settled and cannot become ",
                );
                concat(head.as_str(), to.name())
            },
            ExecutionTransitionError::Invalid { from, to } => {
                concat3(from.name(), " cannot become ", to.name())
            },
            ExecutionTransitionError::ExitCodeRequired { state } => {
                concat(state.name(), " requires an exit code")
            },
            ExecutionTransitionError::ExitCodeForbidden { state } => {
                concat(state.name(), " must not carry an exit code")
            },
        }
    }
}

/// The changes that an execution which is not settled may make.
pub open spec fn may_become(from: ExecutionState, to: ExecutionState) -> bool {
    match from {
        ExecutionState::Queued => to is Running || to is Cancelled || to is TimedOut
            || to is Unknown,
        ExecutionState::Running => to.terminal(),
        _ => false,
    }
}

/// What a requested state change amounts to.
pub open spec fn transition_result(
    from: ExecutionState,
    to: ExecutionState,
    exit_code: Option<i32>,
) -> Result<ExecutionState, ExecutionTransitionError> {
    if from == to {
        Ok(from)
    } else if from.terminal() {
        Err(ExecutionTransitionError::AlreadyTerminal { from, to })
    } else if !may_become(from, to) {
        Err(ExecutionTransitionError::Invalid { from, to })
    } else if to.needs_exit_code() && exit_code is None {
        Err(ExecutionTransitionError::ExitCodeRequired { state: to })
    } else if !to.needs_exit_code() && exit_code is Some {
        Err(ExecutionTransitionError::ExitCodeForbidden { state: to })
    } else {
        Ok(to)
    }
}

/// Validates one execution state change.
pub fn transition_execution(
    from: ExecutionState,
    to: ExecutionState,
    exit_code: Option<i32>,
) -> (result: Result<ExecutionState, ExecutionTransitionError>)
    ensures
        result == transition_result(from, to, exit_code),
{
    if from == to {
        return Ok(from);
    }
    if from.is_terminal() {
        return Err(ExecutionTransitionError::AlreadyTerminal { from, to });
    }
    let allowed = match (from, to) {
        (ExecutionState::Queued, ExecutionState::Running)
        | (ExecutionState::Queued, ExecutionState::Cancelled)
        | (ExecutionState::Queued, ExecutionState::TimedOut)
        | (ExecutionState::Queued, ExecutionState::Unknown)
        | (ExecutionState::Running, ExecutionState::Succeeded)
        | (ExecutionState::Running, ExecutionState::Failed)
        | (ExecutionState::Running, ExecutionState::Cancelled)
        | (ExecutionState::Running, ExecutionState::TimedOut)
        | (ExecutionState::Running, ExecutionState::Unknown) => true,
        _ => false,
    };
    if !allowed {
        return Err(ExecutionTransitionError::Invalid { from, to });
    }
    let completed = match to {
        ExecutionState::Succeeded | ExecutionState::Failed => true,
        _ => false,
    };
    if completed && exit_code.is_none() {
        return Err(ExecutionTransitionError::ExitCodeRequired { state: to });
    }
    if !completed && exit_code.is_some() {
        return Err(ExecutionTransitionError::ExitCodeForbidden { state: to });
    }
    Ok(to)
}

/// The state that an exit code implies.
pub open spec fn implied_state(exit_code: i32) -> ExecutionState {
    if exit_code == 0 {
        ExecutionState::Succeeded
    } else {
        ExecutionState::Failed
    }
}

/// The terminal state implied by an exit code: zero is success, anything else
/// is a command that ran and said no.
pub fn state_for_exit_code(exit_code: i32) -> (state: ExecutionState)
    ensures
        state == (if exit_code == 0 {
            ExecutionState::Succeeded
        } else {
            ExecutionState::Failed
        }),
        state == implied_state(exit_code),
{
    if exit_code == 0 {
        ExecutionState::Succeeded
    } else {
        ExecutionState::Failed
    }
}

/// A settled execution never moves again: every further change is either the
/// same outcome once more or refused as already settled.
pub proof fn law_terminal_is_terminal(
    from: ExecutionState,
    to: ExecutionState,
    exit_code: Option<i32>,
)
    requires
        from.terminal(),
    ensures
        transition_result(from, to, exit_code) == (if from == to {
            Ok::<ExecutionState, ExecutionTransitionError>(from)
        } else {
            Err(ExecutionTransitionError::AlreadyTerminal { from, to })
        }),
{
}

/// An accepted change of state carries an exit code exactly where the process
/// was seen to run to completion.
pub proof fn law_exit_code_is_observed(
    from: ExecutionState,
    to: ExecutionState,
    exit_code: Option<i32>,
)
    requires
        from != to,
        transition_result(from, to, exit_code) is Ok,
    ensures
        transition_result(from, to, exit_code) == Ok::<
            ExecutionState,
            ExecutionTransitionError,
        >(to),
        exit_code is Some <==> to.needs_exit_code(),
{
}

/// No change leads back to a state that proves the command did not run.
pub proof fn law_queued_is_never_reentered(
    from: ExecutionState,
    to: ExecutionState,
    exit_code: Option<i32>,
)
    requires
        !(from is Queued),
        transition_result(from, to, exit_code) is Ok,
    ensures
        !(transition_result(from, to, exit_code)->Ok_0 is Queued),
{
}

/// The changes of state that are accepted, pair by pair: a state stays itself with
/// or without an exit code; a queued execution starts, is cancelled, times out or
/// is lost, without an exit code; a running one succeeds or fails with an exit
/// code, and is cancelled, times out or is lost without one. Nothing else is
/// accepted, and what is accepted is the state that was asked for.
pub proof fn law_accepted_changes(
    from: ExecutionState,
    to: ExecutionState,
    exit_code: Option<i32>,
    result: Result<ExecutionState, ExecutionTransitionError>,
)
    requires
        result == transition_result(from, to, exit_code),
    ensures
        result is Ok <==> {
            ||| from == to
            ||| from == ExecutionState::Queued && exit_code is None && (to
                == ExecutionState::Running || to == ExecutionState::Cancelled || to
                == ExecutionState::TimedOut || to == ExecutionState::Unknown)
            ||| from == ExecutionState::Running && exit_code is Some && (to
                == ExecutionState::Succeeded || to == ExecutionState::Failed)
            ||| from == ExecutionState::Running && exit_code is None && (to
                == ExecutionState::Cancelled || to == ExecutionState::TimedOut || to
                == ExecutionState::Unknown)
        },
        result matches Ok(state) ==> state == to,
{
}

/// Why a change of state is refused: as already settled where the execution has any
/// outcome; as no change that there is where it would queue a running execution
/// again or complete a queued one; for want of an exit code where a running
/// execution would complete without one; and for its exit code where the new state
/// is not a completion.
pub proof fn law_refused_changes(
    from: ExecutionState,
    to: ExecutionState,
    exit_code: Option<i32>,
    result: Result<ExecutionState, ExecutionTransitionError>,
)
    requires
        result == transition_result(from, to, exit_code),
        from != to,
    ensures
        from == ExecutionState::Succeeded || from == ExecutionState::Failed || from
            == ExecutionState::Cancelled || from == ExecutionState::TimedOut || from
            == ExecutionState::Unknown ==> result == Err::<
            ExecutionState,
            ExecutionTransitionError,
        >(ExecutionTransitionError::AlreadyTerminal { from, to }),
        from == ExecutionState::Queued && (to == ExecutionState::Succeeded || to
            == ExecutionState::Failed) ==> result == Err::<
            ExecutionState,
            ExecutionTransitionError,
        >(ExecutionTransitionError::Invalid { from, to }),
        from == ExecutionState::Running && to == ExecutionState::Queued ==> result == Err::<
            ExecutionState,
            ExecutionTransitionError,
        >(ExecutionTransitionError::Invalid { from, to }),
        from == ExecutionState::Running && (to == ExecutionState::Succeeded || to
            == ExecutionState::Failed) && exit_code is None ==> result == Err::<
            ExecutionState,
            ExecutionTransitionError,
        >(ExecutionTransitionError::ExitCodeRequired { state: to }),
        from == ExecutionState::Queued && (to == ExecutionState::Running || to
            == ExecutionState::Cancelled || to == ExecutionState::TimedOut || to
            == ExecutionState::Unknown) && exit_code is Some ==> result == Err::<
            ExecutionState,
            ExecutionTransitionError,
        >(ExecutionTransitionError::ExitCodeForbidden { state: to }),
        from == ExecutionState::Running && (to == ExecutionState::Cancelled || to
            == ExecutionState::TimedOut || to == ExecutionState::Unknown) && exit_code is Some
            ==> result == Err::<ExecutionState, ExecutionTransitionError>(
            ExecutionTransitionError::ExitCodeForbidden { state: to },
        ),
{
}

/// Exactly the five outcomes are settled states.
pub proof fn law_settled_states(state: ExecutionState)
    ensures
        state.terminal() <==> state == ExecutionState::Succeeded || state == ExecutionState::Failed
            || state == ExecutionState::Cancelled || state == ExecutionState::TimedOut || state
            == ExecutionState::Unknown,
        state.needs_exit_code() <==> state == ExecutionState::Succeeded || state
            == ExecutionState::Failed,
{
}

/// A command definitely did not run exactly where its execution is still queued: its
/// outcome is open, no other state becomes queued again, and it carries no exit code.
pub proof fn law_only_queued_commands_have_not_run(
    state: ExecutionState,
    from: ExecutionState,
    exit_code: Option<i32>,
)
    ensures
        state.not_yet_run() <==> state == ExecutionState::Queued,
        state.not_yet_run() && from != state ==> transition_result(from, state, exit_code) is Err,
        state.not_yet_run() ==> !state.needs_exit_code(),
{
}

/// An exit code of zero implies success and every other one failure; both are settled
/// states that carry an exit code.
pub proof fn law_only_zero_is_success(exit_code: i32)
    ensures
        implied_state(exit_code) == ExecutionState::Succeeded <==> exit_code == 0,
        implied_state(exit_code) == ExecutionState::Failed <==> exit_code < 0 || exit_code > 0,
        implied_state(exit_code).terminal(),
        implied_state(exit_code).needs_exit_code(),
{
}

/// How refused changes are worded, by the names of the states.
pub proof fn law_refused_changes_are_worded(from: ExecutionState, to: ExecutionState)
    ensures
        (ExecutionTransitionError::AlreadyTerminal { from, to }).message_text()
            == "an execution in "@ + from.name_text() + " is already settled and cannot become "@
            + to.name_text(),
        (ExecutionTransitionError::Invalid { from, to }).message_text() == from.name_text()
            + " cannot become "@ + to.name_text(),
        (ExecutionTransitionError::ExitCodeRequired { state: to }).message_text() == to.name_text()
            + " requires an exit code"@,
        (ExecutionTransitionError::ExitCodeForbidden { state: to }).message_text() == to.name_text()
            + " must not carry an exit code"@,
{
}

/// Every exit code settles a running execution, as the outcome it implies.
pub proof fn law_exit_code_settles_a_running_execution(exit_code: i32)
    ensures
        ({
            let implied = if exit_code == 0 {
                ExecutionState::Succeeded
            } else {
                ExecutionState::Failed
            };
            transition_result(ExecutionState::Running, implied, Some(exit_code)) == Ok::<
                ExecutionState,
                ExecutionTransitionError,
            >(implied)
        }),
{
}

/// Every argument framed, one after the other.
pub open spec fn arguments_frame(argv: Seq<Seq<char>>) -> Seq<u8>
    decreases argv.len(),
{
    if argv.len() == 0 {
        Seq::empty()
    } else {
        frame::text_frame(argv[0]) + arguments_frame(argv.skip(1))
    }
}

/// The working directory, told apart from none at all.
pub open spec fn directory_frame(cwd: Option<Seq<char>>) -> Seq<u8> {
    match cwd {
        Some(cwd) => seq![1u8] + frame::text_frame(cwd),
        None => seq![0u8],
    }
}

/// The lifecycle mode; nothing where the record predates it.
pub open spec fn mode_frame(detached: Option<bool>) -> Seq<u8> {
    match detached {
        Some(true) => seq![1u8],
        Some(false) => seq![0u8],
        None => Seq::empty(),
    }
}

/// Everything that changes what runs, as one byte sequence.
pub open spec fn request_frame(
    argv: Seq<Seq<char>>,
    cwd: Option<Seq<char>>,
    timeout: Seq<char>,
    detached: Option<bool>,
) -> Seq<u8> {
    frame::be64(argv.len()) + (arguments_frame(argv) + (directory_frame(cwd) + (frame::text_frame(
        timeout,
    ) + mode_frame(detached))))
}

/// The text of an optional borrowed string.
pub open spec fn opt_str(value: Option<&str>) -> Option<Seq<char>> {
    match value {
        Some(text) => Some(text@),
        None => None,
    }
}

fn request_digest_with_mode(
    argv: &[String],
    cwd: Option<&str>,
    timeout: &str,
    detached: Option<bool>,
) -> (result: String)
    ensures
        result@ == digest::sha256_hex(
            request_frame(text::texts(argv@), opt_str(cwd), timeout@, detached),
        ),
        result@.len() == 64,
        digest::all_hex_digits(result@),
{
    let ghost arguments = text::texts(argv@);
    let mut bytes: Vec<u8> = Vec::new();
    let count: usize = argv.len();
    push_be64(&mut bytes, count as u64);
    let ghost head = frame::be64(arguments.len());
    assert(arguments.skip(0) =~= arguments);
    assert(bytes@ =~= head);
    let mut i: usize = 0;
    while i < argv.len()
        invariant
            arguments == text::texts(argv@),
            i <= argv@.len(),
            bytes@ + arguments_frame(arguments.skip(i as int)) == head + arguments_frame(arguments),
        decreases argv@.len() - i,
    {
        let ghost before = bytes@;
        push_text_frame(&mut bytes, argv[i].as_str());
        proof {
            let rest = arguments.skip(i as int);
            assert(rest[0] == argv@[i as int]@);
            assert(rest.skip(1) =~= arguments.skip(i + 1));
            assert(bytes@ + arguments_frame(arguments.skip(i + 1)) =~= before + arguments_frame(
                rest,
            ));
        }
        i = i + 1;
    }
    assert(bytes@ =~= head + arguments_frame(arguments));
    match cwd {
        Some(cwd) => {
            bytes.push(1);
            push_text_frame(&mut bytes, cwd);
        },
        None => {
            bytes.push(0);
        },
    }
    assert(bytes@ =~= head + arguments_frame(arguments) + directory_frame(opt_str(cwd)));
    push_text_frame(&mut bytes, timeout);
    match detached {
        Some(detached) => {
            bytes.push(if detached {
                1
            } else {
                0
            });
        },
        None => {},
    }
    assert(bytes@ =~= request_frame(arguments, opt_str(cwd), timeout@, detached));
    sha256_hex_of(bytes.as_slice())
}

/// Digest of one execution request over everything that changes what runs.
pub fn request_digest(
    argv: &[String],
    cwd: Option<&str>,
    timeout: &str,
    detached: bool,
) -> (result: String)
    ensures
        result@ == digest::sha256_hex(
            request_frame(text::texts(argv@), opt_str(cwd), timeout@, Some(detached)),
        ),
        result@.len() == 64,
        digest::all_hex_digits(result@),
{
    request_digest_with_mode(argv, cwd, timeout, Some(detached))
}

/// Digest emitted before the lifecycle mode became part of the request.
pub fn legacy_request_digest(
    argv: &[String],
    cwd: Option<&str>,
    timeout: &str,
) -> (result: String)
    ensures
        result@ == digest::sha256_hex(
            request_frame(text::texts(argv@), opt_str(cwd), timeout@, None),
        ),
        result@.len() == 64,
        digest::all_hex_digits(result@),
{
    request_digest_with_mode(argv, cwd, timeout, None)
}

/// Whether an existing record answers a request.
#[derive(Debug, Clone, Copy, PartialEq, Eq, Structural)]
pub enum ReuseVerdict {
    /// Return the original execution.
    SameRequest,
    /// Refuse: the key is taken by a different command.
    Conflict,
    /// Belongs to another lease entirely.
    Foreign,
}

/// What an execution under this lease and for this request makes of a record.
pub open spec fn reuse(
    existing: SandboxExecutionSpec,
    lease_uid: Seq<char>,
    request_digest: Seq<char>,
) -> ReuseVerdict {
    if existing.lease_uid@ != lease_uid {
        ReuseVerdict::Foreign
    } else if existing.request_digest@ == request_digest {
        ReuseVerdict::SameRequest
    } else {
        ReuseVerdict::Conflict
    }
}

/// Whether `existing` answers a request with this digest under this lease.
pub fn reuse_verdict(
    existing: &SandboxExecutionSpec,
    lease_uid: &str,
    request_digest: &str,
) -> (verdict: ReuseVerdict)
    ensures
        verdict is Foreign <==> existing.lease_uid@ != lease_uid@,
        verdict is SameRequest <==> existing.lease_uid@ == lease_uid@
            && existing.request_digest@ == request_digest@,
        verdict is Conflict <==> existing.lease_uid@ == lease_uid@
            && existing.request_digest@ != request_digest@,
        verdict == reuse(*existing, lease_uid@, request_digest@),
{
    if !same_text(existing.lease_uid.as_str(), lease_uid) {
        return ReuseVerdict::Foreign;
    }
    if same_text(existing.request_digest.as_str(), request_digest) {
        ReuseVerdict::SameRequest
    } else {
        ReuseVerdict::Conflict
    }
}

/// A record answers a request exactly where both its lease and its request are that
/// request's. Under another lease it is foreign, whatever was asked; under the same
/// lease another request conflicts with it. So of two requests that one record answers,
/// lease and digest agree.
pub proof fn law_record_answers_its_own_request_only(
    existing: SandboxExecutionSpec,
    lease_uid: Seq<char>,
    request_digest: Seq<char>,
)
    ensures
        reuse(existing, existing.lease_uid@, existing.request_digest@) is SameRequest,
        reuse(existing, lease_uid, request_digest) is SameRequest ==> existing.lease_uid@
            == lease_uid && existing.request_digest@ == request_digest,
        reuse(existing, lease_uid, request_digest) is Foreign <==> existing.lease_uid@ != lease_uid,
        reuse(existing, existing.lease_uid@, request_digest) is Conflict <==> request_digest
            != existing.request_digest@,
{
}

/// The lease and the caller's key as one byte sequence.
pub open spec fn execution_frame(lease_uid: Seq<char>, idempotency_key: Seq<char>) -> Seq<u8> {
    frame::text_frame(lease_uid) + encode_utf8(idempotency_key)
}

/// The name of an execution object.
pub open spec fn execution_name_text(lease_uid: Seq<char>, idempotency_key: Seq<char>) -> Seq<
    char,
> {
    "sbxe-"@ + digest::sha256_hex(execution_frame(lease_uid, idempotency_key)).take(32)
}

/// A character that a Kubernetes object name may hold.
pub open spec fn is_name_char(c: char) -> bool {
    'a' <= c <= 'z' || '0' <= c <= '9' || c == '-'
}

/// The execution object's name, derived from the lease and the caller's key so
/// that reserving it is one atomic create. Whatever key the caller chose, the
/// name is short and holds only lower-case letters, digits and dashes.
pub fn execution_name(lease_uid: &str, idempotency_key: &str) -> (name: String)
    ensures
        name@ == execution_name_text(lease_uid@, idempotency_key@),
        name@.len() == 37,
        forall|i: int| 0 <= i < name@.len() ==> is_name_char(#[trigger] name@[i]),
{
    let mut bytes: Vec<u8> = Vec::new();
    push_text_frame(&mut bytes, lease_uid);
    push_bytes(&mut bytes, idempotency_key.as_bytes());
    assert(bytes@ =~= execution_frame(lease_uid@, idempotency_key@));
    let encoded = sha256_hex_of(bytes.as_slice());
    let shortened = encoded.as_str().substring_ascii(0, 32);
    proof {
        reveal_strlit("sbxe-");
    }
    let name = concat("sbxe-", shortened);
    assert forall|i: int| 0 <= i < name@.len() implies is_name_char(#[trigger] name@[i]) by {
        if i < 5 {
            assert(name@[i] == "sbxe-"@[i]);
        } else {
            assert(name@[i] == encoded@[i - 5]);
        }
    }
    name
}

proof fn lemma_arguments_frame_prefix(
    a: Seq<Seq<char>>,
    x: Seq<u8>,
    b: Seq<Seq<char>>,
    y: Seq<u8>,
)
    requires
        a.len() == b.len(),
        forall|i: int| 0 <= i < a.len() ==> frame::frameable(#[trigger] a[i]),
        forall|i: int| 0 <= i < b.len() ==> frame::frameable(#[trigger] b[i]),
        arguments_frame(a) + x == arguments_frame(b) + y,
    ensures
        a == b,
        x == y,
    decreases a.len(),
{
    if a.len() == 0 {
        assert(a =~= b);
        assert(arguments_frame(a) + x =~= x);
        assert(arguments_frame(b) + y =~= y);
    } else {
        let a1 = a.skip(1);
        let b1 = b.skip(1);
        assert(arguments_frame(a) + x =~= frame::text_frame(a[0]) + (arguments_frame(a1) + x));
        assert(arguments_frame(b) + y =~= frame::text_frame(b[0]) + (arguments_frame(b1) + y));
        frame::lemma_text_frame_prefix(
            a[0],
            arguments_frame(a1) + x,
            b[0],
            arguments_frame(b1) + y,
        );
        assert forall|i: int| 0 <= i < a1.len() implies frame::frameable(#[trigger] a1[i]) by {
            assert(frame::frameable(a[i + 1]));
        }
        assert forall|i: int| 0 <= i < b1.len() implies frame::frameable(#[trigger] b1[i]) by {
            assert(frame::frameable(b[i + 1]));
        }
        lemma_arguments_frame_prefix(a1, x, b1, y);
        assert(a =~= seq![a[0]] + a1);
        assert(b =~= seq![b[0]] + b1);
    }
}

/// What is hashed for a request determines the request: its arguments with
/// their boundaries and order, the presence and text of the working directory,
/// the timeout and the lifecycle mode. Two different requests are never hashed
/// as the same bytes.
pub proof fn law_request_frame_is_unambiguous(
    argv: Seq<Seq<char>>,
    cwd: Option<Seq<char>>,
    timeout: Seq<char>,
    detached: Option<bool>,
    other_argv: Seq<Seq<char>>,
    other_cwd: Option<Seq<char>>,
    other_timeout: Seq<char>,
    other_detached: Option<bool>,
)
    requires
        argv.len() <= u64::MAX,
        other_argv.len() <= u64::MAX,
        forall|i: int| 0 <= i < argv.len() ==> frame::frameable(#[trigger] argv[i]),
        forall|i: int| 0 <= i < other_argv.len() ==> frame::frameable(#[trigger] other_argv[i]),
        cwd matches Some(cwd) ==> frame::frameable(cwd),
        other_cwd matches Some(cwd) ==> frame::frameable(cwd),
        frame::frameable(timeout),
        frame::frameable(other_timeout),
        request_frame(argv, cwd, timeout, detached) == request_frame(
            other_argv,
            other_cwd,
            other_timeout,
            other_detached,
        ),
    ensures
        argv == other_argv,
        cwd == other_cwd,
        timeout == other_timeout,
        detached == other_detached,
{
    let tail = frame::text_frame(timeout) + mode_frame(detached);
    let other_tail = frame::text_frame(other_timeout) + mode_frame(other_detached);
    let middle = directory_frame(cwd) + tail;
    let other_middle = directory_frame(other_cwd) + other_tail;
    frame::lemma_be64_prefix(
        argv.len(),
        arguments_frame(argv) + middle,
        other_argv.len(),
        arguments_frame(other_argv) + other_middle,
    );
    lemma_arguments_frame_prefix(argv, middle, other_argv, other_middle);
    assert(middle[0] == directory_frame(cwd)[0]);
    assert(other_middle[0] == directory_frame(other_cwd)[0]);
    match (cwd, other_cwd) {
        (Some(a), Some(b)) => {
            assert(middle.skip(1) =~= frame::text_frame(a) + tail);
            assert(other_middle.skip(1) =~= frame::text_frame(b) + other_tail);
            frame::lemma_text_frame_prefix(a, tail, b, other_tail);
        },
        (None, None) => {
            assert(middle.skip(1) =~= tail);
            assert(other_middle.skip(1) =~= other_tail);
        },
        (Some(a), None) => {
            assert(directory_frame(cwd)[0] == 1u8);
        },
        (None, Some(b)) => {
            assert(directory_frame(other_cwd)[0] == 1u8);
        },
    }
    frame::lemma_text_frame_prefix(
        timeout,
        mode_frame(detached),
        other_timeout,
        mode_frame(other_detached),
    );
    let left = mode_frame(detached);
    let right = mode_frame(other_detached);
    assert(left.len() == right.len());
    if left.len() == 1 {
        assert(left[0] == right[0]);
    }
}

/// What is hashed for an execution's name determines the lease and the key:
/// moving the boundary between them gives other bytes.
pub proof fn law_execution_frame_is_unambiguous(
    lease_uid: Seq<char>,
    idempotency_key: Seq<char>,
    other_lease_uid: Seq<char>,
    other_key: Seq<char>,
)
    requires
        frame::frameable(lease_uid),
        frame::frameable(other_lease_uid),
        execution_frame(lease_uid, idempotency_key) == execution_frame(other_lease_uid, other_key),
    ensures
        lease_uid == other_lease_uid,
        idempotency_key == other_key,
{
    frame::lemma_text_frame_prefix(
        lease_uid,
        encode_utf8(idempotency_key),
        other_lease_uid,
        encode_utf8(other_key),
    );
    encode_utf8_decode_utf8(idempotency_key);
    encode_utf8_decode_utf8(other_key);
}

} // verus!
