//! Judging one finished run against the environment that the artifact
//! declared, and laying out what the run is to be given.
//!
//! Nothing here runs a program: the caller does, and hands over how the run
//! ended and what it wrote.

use crate::environment::{default_view, Environment, EnvironmentView};
use crate::text::same_bytes;
use vstd::prelude::*;
use vstd::slice::slice_to_vec;
use vstd::utf8::{decode_utf8, encode_utf8, valid_utf8};

verus! {

/// How the entry point of the program came to an end.
#[derive(Clone, Copy, Debug, PartialEq, Eq, Structural)]
pub enum Outcome {
    /// The entry point returned normally.
    Returned,
    /// The program ended abruptly and carried this exit status.
    Exited(i32),
    /// The program ended abruptly with no exit status that can be read.
    Trapped,
}

/// One of the two streams that a run writes to.
#[derive(Clone, Copy, Debug, PartialEq, Eq, Structural)]
pub enum Stream {
    Stdout,
    Stderr,
}

/// One way in which a run fell short of what was declared.
#[derive(Clone, Debug, PartialEq, Eq)]
pub enum Failure {
    /// The run ended with `status`, where `declared` was declared.
    ExitCodeMismatch { declared: i32, status: i32 },
    /// The run ended abruptly with no exit status.
    UnexpectedTrap,
    /// The run wrote `actual` to `stream`, where `expected` was declared.
    OutputMismatch { stream: Stream, expected: String, actual: Vec<u8> },
}

/// A `Failure` as a mathematical value.
pub enum FailureView {
    ExitCodeMismatch { declared: i32, status: i32 },
    UnexpectedTrap,
    OutputMismatch { stream: Stream, expected: Seq<char>, actual: Seq<u8> },
}

impl View for Failure {
    type V = FailureView;

    open spec fn view(&self) -> FailureView {
        match *self {
            Failure::ExitCodeMismatch { declared, status } => FailureView::ExitCodeMismatch {
                declared,
                status,
            },
            Failure::UnexpectedTrap => FailureView::UnexpectedTrap,
            Failure::OutputMismatch { stream, expected, actual } => FailureView::OutputMismatch {
                stream,
                expected: expected@,
                actual: actual@,
            },
        }
    }
}

/// The failures of a list, each by its view.
pub open spec fn failures_of(list: Seq<Failure>) -> Seq<FailureView> {
    Seq::new(list.len(), |i: int| list[i]@)
}

/// The exit status that an outcome stands for, if it has one: a normal return
/// counts as status 0.
pub open spec fn status_of(outcome: Outcome) -> Option<i32> {
    match outcome {
        Outcome::Returned => Some(0i32),
        Outcome::Exited(status) => Some(status),
        Outcome::Trapped => None,
    }
}

/// What is wrong with the way the run ended, if anything is.
pub open spec fn exit_failure(declared: i32, outcome: Outcome) -> Option<FailureView> {
    match status_of(outcome) {
        Some(status) => if status == declared {
            None
        } else {
            Some(FailureView::ExitCodeMismatch { declared, status })
        },
        None => Some(FailureView::UnexpectedTrap),
    }
}

/// The captured bytes, read as text, are the expected text.
pub open spec fn reads_as(captured: Seq<u8>, expected: Seq<char>) -> bool {
    valid_utf8(captured) && decode_utf8(captured) == expected
}

/// What is wrong with what the run wrote to one stream, if anything is.
pub open spec fn output_failure(stream: Stream, expected: Seq<char>, captured: Seq<u8>) -> Option<
    FailureView,
> {
    if reads_as(captured, expected) {
        None
    } else {
        Some(FailureView::OutputMismatch { stream, expected, actual: captured })
    }
}

/// A list of the failure, if there is one.
pub open spec fn listed(failure: Option<FailureView>) -> Seq<FailureView> {
    match failure {
        Some(f) => seq![f],
        None => Seq::empty(),
    }
}

/// Everything that is wrong with a run: first with the way it ended, then
/// with its stdout, then with its stderr.
pub open spec fn judgement(
    env: EnvironmentView,
    outcome: Outcome,
    stdout: Seq<u8>,
    stderr: Seq<u8>,
) -> Seq<FailureView> {
    listed(exit_failure(env.exit, outcome)) + listed(
        output_failure(Stream::Stdout, env.stdout, stdout),
    ) + listed(output_failure(Stream::Stderr, env.stderr, stderr))
}

/// The view of an optional failure.
pub open spec fn failure_view(failure: Option<Failure>) -> Option<FailureView> {
    match failure {
        Some(f) => Some(f@),
        None => None,
    }
}

/// Bytes read as the text `expected` exactly when they are its UTF-8 encoding.
pub proof fn reads_as_encoding(captured: Seq<u8>, expected: Seq<char>)
    ensures
        reads_as(captured, expected) <==> captured == encode_utf8(expected),
{
    if captured == encode_utf8(expected) {
        vstd::utf8::encode_utf8_valid_utf8(expected);
        vstd::utf8::encode_utf8_decode_utf8(expected);
    }
    if reads_as(captured, expected) {
        vstd::utf8::decode_utf8_encode_utf8(captured);
    }
}

/// Compares the way the program ended with the declared exit status.
///
/// A normal return stands for status 0. A trap matches no declared status.
pub fn check_exit(declared: i32, outcome: Outcome) -> (failure: Option<Failure>)
    ensures
        failure_view(failure) == exit_failure(declared, outcome),
{
    match outcome {
        Outcome::Returned => if declared == 0 {
            None
        } else {
            Some(Failure::ExitCodeMismatch { declared, status: 0 })
        },
        Outcome::Exited(status) => if status == declared {
            None
        } else {
            Some(Failure::ExitCodeMismatch { declared, status })
        },
        Outcome::Trapped => Some(Failure::UnexpectedTrap),
    }
}

/// Compares what the program wrote to one stream with the declared text.
///
/// The captured bytes are read as text: bytes that are no UTF-8 match nothing.
pub fn check_output(stream: Stream, expected: &str, captured: &[u8]) -> (failure: Option<Failure>)
    ensures
        failure_view(failure) == output_failure(stream, expected@, captured@),
{
    proof {
        reads_as_encoding(captured@, expected@);
    }
    if same_bytes(captured, expected.as_bytes()) {
        None
    } else {
        Some(
            Failure::OutputMismatch {
                stream,
                expected: expected.to_owned(),
                actual: slice_to_vec(captured),
            },
        )
    }
}

/// Judges a finished run: how it ended, and what it wrote to stdout and to
/// stderr, against what the environment declares.
///
/// Every check is made, whatever the ones before it found, and each failure
/// is reported: first that of the exit status, then that of stdout, then that
/// of stderr. The run has passed exactly when the list is empty.
pub fn judge(env: &Environment, outcome: Outcome, stdout: &[u8], stderr: &[u8]) -> (failures: Vec<
    Failure,
>)
    ensures
        failures_of(failures@) == judgement(env@, outcome, stdout@, stderr@),
{
    let mut failures: Vec<Failure> = Vec::new();
    if let Some(failure) = check_exit(env.exit, outcome) {
        failures.push(failure);
    }
    if let Some(failure) = check_output(Stream::Stdout, env.stdout.as_str(), stdout) {
        failures.push(failure);
    }
    if let Some(failure) = check_output(Stream::Stderr, env.stderr.as_str(), stderr) {
        failures.push(failure);
    }
    failures
}

/// A run passes exactly when it ended with the declared status and wrote the
/// declared text to each stream.
pub proof fn passes_exactly(
    env: EnvironmentView,
    outcome: Outcome,
    stdout: Seq<u8>,
    stderr: Seq<u8>,
)
    ensures
        judgement(env, outcome, stdout, stderr).len() == 0 <==> {
            &&& status_of(outcome) == Some(env.exit)
            &&& stdout == encode_utf8(env.stdout)
            &&& stderr == encode_utf8(env.stderr)
        },
{
    reads_as_encoding(stdout, env.stdout);
    reads_as_encoding(stderr, env.stderr);
}

/// A trap is never a pass, whatever was declared.
pub proof fn trap_never_passes(env: EnvironmentView, stdout: Seq<u8>, stderr: Seq<u8>)
    ensures
        judgement(env, Outcome::Trapped, stdout, stderr).len() > 0,
        judgement(env, Outcome::Trapped, stdout, stderr)[0] == FailureView::UnexpectedTrap,
{
}

/// Output that differs from the encoding of the declared text, be it in one
/// byte, is reported as a mismatch on that stream; output that is the
/// encoding is not.
pub proof fn output_is_compared_bytewise(stream: Stream, expected: Seq<char>, captured: Seq<u8>)
    ensures
        captured == encode_utf8(expected) ==> output_failure(stream, expected, captured) is None,
        captured != encode_utf8(expected) ==> output_failure(stream, expected, captured) == Some(
            FailureView::OutputMismatch { stream, expected, actual: captured },
        ),
{
    reads_as_encoding(captured, expected);
}

/// An abrupt end with the declared status is no failure; a normal return is
/// one exactly when a status other than 0 was declared.
pub proof fn exit_status_is_compared(declared: i32)
    ensures
        exit_failure(declared, Outcome::Exited(declared)) is None,
        declared != 0 ==> exit_failure(declared, Outcome::Returned) == Some(
            FailureView::ExitCodeMismatch { declared, status: 0i32 },
        ),
        declared == 0 ==> exit_failure(declared, Outcome::Returned) is None,
{
}

/// Under the default environment a run passes exactly when it ended with
/// status 0 and wrote nothing to either stream.
pub proof fn default_expects_silence(outcome: Outcome, stdout: Seq<u8>, stderr: Seq<u8>)
    ensures
        judgement(default_view(), outcome, stdout, stderr).len() == 0 <==> {
            &&& status_of(outcome) == Some(0i32)
            &&& stdout.len() == 0
            &&& stderr.len() == 0
        },
{
    passes_exactly(default_view(), outcome, stdout, stderr);
    assert(encode_utf8(Seq::<char>::empty()) =~= Seq::<u8>::empty()) by {
        reveal_with_fuel(encode_utf8, 1);
    }
}

} // verus!
