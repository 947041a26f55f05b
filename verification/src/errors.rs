//! The closed set of failures that the stack operations report.

use vstd::prelude::*;
use vstd::utf8::encode_utf8;
use crate::text::{
    ascii, decimal_digits, decimal_text, push_bytes, push_decimal, push_digits, push_optional,
    push_str, string_bytes, text_or_empty,
};

verus! {

/// The operation that a failure belongs to.
#[derive(Clone, Copy, Debug, PartialEq, Eq, Structural)]
pub enum Operation {
    Create,
    Start,
    Stop,
    UpdateStatus,
    Delete,
    List,
}

/// One of the three port settings that the configuration template must hold.
#[derive(Clone, Copy, Debug, PartialEq, Eq, Structural)]
pub enum PortKey {
    Server,
    Rcon,
    Sftp,
}

/// Why a request or the packaged template was refused.
#[derive(Clone, Copy, Debug, PartialEq, Eq, Structural)]
pub enum Invalid {
    /// As many stacks exist as are allowed.
    CapacityReached { max_stacks: usize },
    /// The template has no line that sets this port to a number.
    MissingPortKey(PortKey),
    /// Stack identifiers start at 1.
    NonPositiveId(i32),
    /// The highest identifier in use is the largest there is.
    IdsExhausted,
}

/// The invocation of the container runtime that failed.
#[derive(Clone, Copy, Debug, PartialEq, Eq, Structural)]
pub enum RuntimeCall {
    ComposeUp,
    ComposeDown,
    VolumeRemove,
    ListRunning,
}

/// How a call of the container runtime failed.
#[derive(Clone, Copy, Debug, PartialEq, Eq, Structural)]
pub enum CallFailure {
    /// The runtime could not be started.
    NotLaunched,
    /// The runtime ran and ended with a status other than 0.
    Exited,
    /// The runtime did not end within the time it was given.
    TimedOut,
}

/// The filesystem step that failed.
#[derive(Clone, Copy, Debug, PartialEq, Eq, Structural)]
pub enum FsStep {
    ScanRoot,
    CreateDirectory,
    WriteConfig,
    WriteManifest,
    RemoveDirectory,
    RollBack,
}

/// A failure of a stack operation.
#[derive(Debug, PartialEq, Eq)]
pub enum StackError {
    /// The request cannot be served as it stands.
    ValidationError(Invalid),
    /// No stack of that identifier has a manifest. Holds the identifier as it
    /// was given.
    StackNotFound(String),
    /// A call of the container runtime failed: it could not be started
    /// (`detail` holds the reason, where one was given), it ended with a
    /// failure (`detail` holds what it wrote to its error stream), or it was
    /// given up after its time was over. `id` is the stack that the call was
    /// about, where it was about one.
    DockerError {
        op: Operation,
        call: RuntimeCall,
        id: Option<i32>,
        how: CallFailure,
        detail: Option<Vec<u8>>,
    },
    /// A filesystem step failed; `id` is the stack that the step was about,
    /// where it was about one, and `detail` holds the reason, where one was
    /// given.
    FileSystemError { op: Operation, step: FsStep, id: Option<i32>, detail: Option<Vec<u8>> },
    /// The requested status is neither `running` nor `stopped`. Holds the
    /// value as it was given.
    InvalidStatus(String),
}

impl StackError {
    /// The HTTP status that stands for this failure: 403 for a refused
    /// request, 400 for an unknown status value, 404 for a missing stack and
    /// 500 for a failure of the runtime or the filesystem.
    pub open spec fn status(self) -> u16 {
        match self {
            StackError::ValidationError(_) => 403,
            StackError::InvalidStatus(_) => 400,
            StackError::StackNotFound(_) => 404,
            StackError::DockerError { .. } => 500,
            StackError::FileSystemError { .. } => 500,
        }
    }

    /// The HTTP status to answer with.
    pub fn status_code(&self) -> (r: u16)
        ensures
            r == self.status(),
    {
        match self {
            StackError::ValidationError(_) => 403,
            StackError::InvalidStatus(_) => 400,
            StackError::StackNotFound(_) => 404,
            StackError::DockerError { .. } => 500,
            StackError::FileSystemError { .. } => 500,
        }
    }

    /// Whether the caller is at fault (a 4xx status) rather than the server.
    pub open spec fn is_client_error(self) -> bool {
        400 <= self.status() < 500
    }
}

impl PortKey {
    /// The key as the template writes it.
    pub open spec fn text(self) -> Seq<u8> {
        match self {
            PortKey::Server => ascii("SERVER_PORT"),
            PortKey::Rcon => ascii("RCON_PORT"),
            PortKey::Sftp => ascii("SFTP_SERVER_PORT"),
        }
    }
}

impl Invalid {
    /// What to tell the caller.
    pub open spec fn message_text(self) -> Seq<u8> {
        match self {
            Invalid::CapacityReached { max_stacks } => ascii("Maximum number of stacks (")
                + decimal_digits(max_stacks as nat) + ascii(") reached"),
            Invalid::MissingPortKey(key) => key.text() + ascii(" not found in env template"),
            Invalid::NonPositiveId(_) => ascii("Stack identifiers start at 1"),
            Invalid::IdsExhausted => ascii("No stack identifier is left"),
        }
    }

    fn write_message(&self, out: &mut Vec<u8>)
        ensures
            final(out)@ == old(out)@ + self.message_text(),
    {
        proof {
            reveal_strlit("Maximum number of stacks (");
            reveal_strlit(") reached");
            reveal_strlit("SERVER_PORT");
            reveal_strlit("RCON_PORT");
            reveal_strlit("SFTP_SERVER_PORT");
            reveal_strlit(" not found in env template");
            reveal_strlit("Stack identifiers start at 1");
            reveal_strlit("No stack identifier is left");
        }
        match self {
            Invalid::CapacityReached { max_stacks } => {
                push_str(out, "Maximum number of stacks (");
                push_digits(out, *max_stacks as u64);
                push_str(out, ") reached");
            },
            Invalid::MissingPortKey(key) => {
                match key {
                    PortKey::Server => push_str(out, "SERVER_PORT"),
                    PortKey::Rcon => push_str(out, "RCON_PORT"),
                    PortKey::Sftp => push_str(out, "SFTP_SERVER_PORT"),
                }
                push_str(out, " not found in env template");
            },
            Invalid::NonPositiveId(_) => {
                push_str(out, "Stack identifiers start at 1");
            },
            Invalid::IdsExhausted => {
                push_str(out, "No stack identifier is left");
            },
        }
    }
}

/// What is said of a call of the runtime that could not be started, before the
/// reason.
pub open spec fn not_launched_text(op: Operation, call: RuntimeCall) -> Seq<u8> {
    match call {
        RuntimeCall::ComposeUp => ascii("Failed to execute docker compose: "),
        RuntimeCall::ComposeDown => if op == Operation::Delete {
            ascii("Failed to execute docker compose down: ")
        } else {
            ascii("Failed to execute docker compose: ")
        },
        RuntimeCall::VolumeRemove => ascii("Failed to remove docker volume: "),
        RuntimeCall::ListRunning => ascii("Failed to execute docker ps: "),
    }
}

/// What is said of a call of the runtime that ended with a failure. The
/// failure of a creation and that of the list of containers are told without
/// the runtime's own words; the error carries them all the same.
pub open spec fn call_failed_text(
    op: Operation,
    call: RuntimeCall,
    stack: Seq<u8>,
    detail: Seq<u8>,
) -> Seq<u8> {
    match call {
        RuntimeCall::ListRunning => ascii("Failed to get container information"),
        RuntimeCall::VolumeRemove => ascii("Failed to remove minecraft server volume: ") + detail,
        _ => if op == Operation::Create {
            ascii("Failed to start containers. Stack creation rolled back")
        } else if op == Operation::UpdateStatus {
            ascii("Failed to update stack ") + stack + ascii(" status: ") + detail
        } else if call == RuntimeCall::ComposeUp {
            ascii("Failed to start stack ") + stack + ascii(": ") + detail
        } else {
            ascii("Failed to stop stack ") + stack + ascii(": ") + detail
        },
    }
}

/// What is said of a filesystem step that failed, before the reason.
pub open spec fn step_failed_text(step: FsStep) -> Seq<u8> {
    match step {
        FsStep::ScanRoot => ascii("Failed to read stacks directory: "),
        FsStep::CreateDirectory => ascii("Failed to create stack directory: "),
        FsStep::WriteConfig => ascii("Failed to write .env file: "),
        FsStep::WriteManifest => ascii("Failed to write compose.yaml: "),
        FsStep::RemoveDirectory => ascii("Failed to remove stack directory: "),
        FsStep::RollBack => ascii("Failed to cleanup failed stack: "),
    }
}

fn write_not_launched(out: &mut Vec<u8>, op: Operation, call: RuntimeCall)
    ensures
        final(out)@ == old(out)@ + not_launched_text(op, call),
{
    proof {
        reveal_strlit("Failed to execute docker compose: ");
        reveal_strlit("Failed to execute docker compose down: ");
        reveal_strlit("Failed to remove docker volume: ");
        reveal_strlit("Failed to execute docker ps: ");
    }
    match call {
        RuntimeCall::ComposeUp => push_str(out, "Failed to execute docker compose: "),
        RuntimeCall::ComposeDown => match op {
            Operation::Delete => push_str(out, "Failed to execute docker compose down: "),
            _ => push_str(out, "Failed to execute docker compose: "),
        },
        RuntimeCall::VolumeRemove => push_str(out, "Failed to remove docker volume: "),
        RuntimeCall::ListRunning => push_str(out, "Failed to execute docker ps: "),
    }
}

/// The decimal text of an optional identifier, empty where there is none.
pub open spec fn id_text(id: Option<i32>) -> Seq<u8> {
    match id {
        Some(i) => decimal_text(i as int),
        None => Seq::empty(),
    }
}

fn write_id(out: &mut Vec<u8>, id: Option<i32>)
    ensures
        final(out)@ == old(out)@ + id_text(id),
{
    match id {
        Some(i) => {
            push_decimal(out, i as i64);
        },
        None => {},
    }
}

fn write_call_failed(
    out: &mut Vec<u8>,
    op: Operation,
    call: RuntimeCall,
    id: Option<i32>,
    detail: &Option<Vec<u8>>,
)
    ensures
        final(out)@ == old(out)@ + call_failed_text(op, call, id_text(id), text_or_empty(*detail)),
{
    proof {
        reveal_strlit("Failed to get container information");
        reveal_strlit("Failed to remove minecraft server volume: ");
        reveal_strlit("Failed to start containers. Stack creation rolled back");
        reveal_strlit("Failed to update stack ");
        reveal_strlit(" status: ");
        reveal_strlit("Failed to start stack ");
        reveal_strlit("Failed to stop stack ");
        reveal_strlit(": ");
    }
    match call {
        RuntimeCall::ListRunning => {
            push_str(out, "Failed to get container information");
        },
        RuntimeCall::VolumeRemove => {
            push_str(out, "Failed to remove minecraft server volume: ");
            push_optional(out, detail);
        },
        _ => {
            match op {
                Operation::Create => {
                    push_str(out, "Failed to start containers. Stack creation rolled back");
                },
                Operation::UpdateStatus => {
                    push_str(out, "Failed to update stack ");
                    write_id(out, id);
                    push_str(out, " status: ");
                    push_optional(out, detail);
                },
                _ => {
                    match call {
                        RuntimeCall::ComposeUp => push_str(out, "Failed to start stack "),
                        _ => push_str(out, "Failed to stop stack "),
                    }
                    write_id(out, id);
                    push_str(out, ": ");
                    push_optional(out, detail);
                },
            }
        },
    }
}

fn write_step_failed(out: &mut Vec<u8>, step: FsStep)
    ensures
        final(out)@ == old(out)@ + step_failed_text(step),
{
    proof {
        reveal_strlit("Failed to read stacks directory: ");
        reveal_strlit("Failed to create stack directory: ");
        reveal_strlit("Failed to write .env file: ");
        reveal_strlit("Failed to write compose.yaml: ");
        reveal_strlit("Failed to remove stack directory: ");
        reveal_strlit("Failed to cleanup failed stack: ");
    }
    match step {
        FsStep::ScanRoot => push_str(out, "Failed to read stacks directory: "),
        FsStep::CreateDirectory => push_str(out, "Failed to create stack directory: "),
        FsStep::WriteConfig => push_str(out, "Failed to write .env file: "),
        FsStep::WriteManifest => push_str(out, "Failed to write compose.yaml: "),
        FsStep::RemoveDirectory => push_str(out, "Failed to remove stack directory: "),
        FsStep::RollBack => push_str(out, "Failed to cleanup failed stack: "),
    }
}

impl StackError {
    /// What to tell the caller: what failed, for which stack, and the reason
    /// where there is one. The reason is passed on as it was given, be it the
    /// words of the runtime or of the operating system; a caller that answers
    /// strangers may prefer to keep it to itself.
    pub open spec fn message_text(self) -> Seq<u8> {
        match self {
            StackError::ValidationError(invalid) => invalid.message_text(),
            StackError::StackNotFound(stack) => ascii("Stack ") + encode_utf8(stack@) + ascii(
                " does not exist",
            ),
            StackError::InvalidStatus(status) => ascii("Invalid status value: '") + encode_utf8(
                status@,
            ) + ascii("'. Must be 'running' or 'stopped'"),
            StackError::DockerError { op, call, id, how, detail } => match how {
                CallFailure::Exited => call_failed_text(
                    op,
                    call,
                    id_text(id),
                    text_or_empty(detail),
                ),
                CallFailure::NotLaunched => not_launched_text(op, call) + text_or_empty(detail),
                CallFailure::TimedOut => not_launched_text(op, call) + ascii("timed out"),
            },
            StackError::FileSystemError { op, step, id, detail } => step_failed_text(step)
                + text_or_empty(detail),
        }
    }

    /// Writes what to tell the caller.
    pub fn message(&self) -> (r: Vec<u8>)
        ensures
            r@ == self.message_text(),
    {
        proof {
            reveal_strlit("Stack ");
            reveal_strlit(" does not exist");
            reveal_strlit("Invalid status value: '");
            reveal_strlit("'. Must be 'running' or 'stopped'");
            reveal_strlit("timed out");
        }
        let mut out: Vec<u8> = Vec::new();
        match self {
            StackError::ValidationError(invalid) => {
                invalid.write_message(&mut out);
            },
            StackError::StackNotFound(stack) => {
                push_str(&mut out, "Stack ");
                push_bytes(&mut out, string_bytes(stack));
                push_str(&mut out, " does not exist");
            },
            StackError::InvalidStatus(status) => {
                push_str(&mut out, "Invalid status value: '");
                push_bytes(&mut out, string_bytes(status));
                push_str(&mut out, "'. Must be 'running' or 'stopped'");
            },
            StackError::DockerError { op, call, id, how, detail } => {
                match how {
                    CallFailure::Exited => {
                        write_call_failed(&mut out, *op, *call, *id, detail);
                    },
                    CallFailure::NotLaunched => {
                        write_not_launched(&mut out, *op, *call);
                        push_optional(&mut out, detail);
                    },
                    CallFailure::TimedOut => {
                        write_not_launched(&mut out, *op, *call);
                        push_str(&mut out, "timed out");
                    },
                }
            },
            StackError::FileSystemError { op, step, id, detail } => {
                write_step_failed(&mut out, *step);
                push_optional(&mut out, detail);
            },
        }
        out
    }
}

} // verus!
