//! The stack operations as step-by-step protocols.
//!
//! An operation never touches the filesystem or the container runtime. It
//! names the next effect it needs; the caller performs the effect and answers
//! with the event that tells how it went; the operation then names the next
//! effect, until it names [`Effect::Finish`] with its result. Whatever answer
//! does not report success counts as a failure of the effect.
//!
//! A caller drives a creation like this, and the other operations alike:
//!
//! ```text
//! let (mut state, mut effect) = create_stack();
//! loop {
//!     if let Effect::Finish(result) = effect {
//!         return result;
//!     }
//!     let event = perform(&effect);   // on the disk, or through the runtime
//!     (state, effect) = create_step(state, event, &config);
//! }
//! ```
//!
//! What an effect means on the disk and for the runtime is told by
//! [`Effect::path`], [`Effect::content`] and [`Effect::command`]. A creation
//! must not overlap with another: what it plans depends on the entries of the
//! root that it was shown, so the caller lets one creation end before it lets
//! the next one begin.

use vstd::prelude::*;
use vstd::utf8::encode_utf8;
use crate::errors::{CallFailure, FsStep, Invalid, Operation, RuntimeCall, StackError};
use crate::registry::{
    config_file_path, config_path, declared, get_compose_file_path, highest, manifest_path,
    next_id, occupied, parse_stack_id, stack_dir_path, stack_path, text_id, DirEntry, Registry,
};
use crate::runtime::{
    compose_down, compose_down_args, compose_up, compose_up_args, get_running_containers,
    list_running, list_running_args, running_containers, volume_remove, volume_remove_args,
    Command, ContainerView, ProcessOutput,
};
use crate::status::{
    report_of, report_views, stack_reports, status_named, ReportView, StackReport, StackStatus,
    StatusUpdate,
};
use crate::template::{
    compute_ports, parse_env_template, ports_of, read_template, render_config, render_manifest,
    rendered_config, Ports,
};
use crate::text::{
    ascii, decimal_text, push_decimal, push_str, string_bytes, to_vec, view_of, views,
};

verus! {

/// What the caller sets once, when it starts.
#[derive(Debug, PartialEq, Eq)]
pub struct Config {
    /// The directory under which the stack directories lie.
    pub root: Vec<u8>,
    /// The text of the configuration template.
    pub env_template: Vec<u8>,
    /// The text of the compose manifest.
    pub compose_template: Vec<u8>,
    /// How many stacks may exist at a time.
    pub max_stacks: usize,
    /// How many seconds a call of the runtime may take.
    pub call_timeout_secs: u64,
}

/// What an operation asks its caller to do next.
#[derive(Debug, PartialEq, Eq)]
pub enum Effect {
    /// List the entries of the stacks root. Answered by [`Event::Scanned`].
    ScanRoot,
    /// Create the directory of stack `id`. Answered by [`Event::Done`].
    CreateDirectory { id: i32 },
    /// Write the configuration file of stack `id`. Answered by [`Event::Done`].
    WriteConfig { id: i32, ports: Ports },
    /// Write the manifest of stack `id`. Answered by [`Event::Done`].
    WriteManifest { id: i32 },
    /// Remove the directory of stack `id` and all in it. Answered by
    /// [`Event::Done`].
    RemoveDirectory { id: i32 },
    /// Tell whether stack `id` has a manifest. Answered by [`Event::Probed`].
    ProbeManifest { id: i32 },
    /// Bring up the containers of stack `id`. Answered by [`Event::Exited`].
    ComposeUp { id: i32 },
    /// Take down the containers of stack `id`. Answered by [`Event::Exited`].
    ComposeDown { id: i32 },
    /// Remove the volume of stack `id`. Answered by [`Event::Exited`].
    RemoveVolume { id: i32 },
    /// List the running containers. Answered by [`Event::Exited`].
    ListRunning,
    /// Nothing more: the operation has ended with this result.
    Finish(Result<Reply, StackError>),
    /// Nothing at all: the operation had ended before.
    Idle,
}

/// How an effect went.
#[derive(Debug, PartialEq, Eq)]
pub enum Event {
    /// The effect was carried out.
    Done,
    /// The effect failed, for the reason given.
    Failed(Vec<u8>),
    /// The entries of the stacks root.
    Scanned(Vec<DirEntry>),
    /// Whether the manifest is there.
    Probed(bool),
    /// The runtime ran and ended.
    Exited(ProcessOutput),
    /// The runtime could not be started, for the reason given.
    NotLaunched(Vec<u8>),
    /// The runtime did not end within the time it was given, and was stopped.
    TimedOut,
}

/// The result of an operation that went well.
#[derive(Debug, PartialEq, Eq)]
pub enum Reply {
    Created { id: i32, ports: Ports },
    Started { id: i32 },
    Stopped { id: i32 },
    StatusUpdated,
    Deleted { id: i32 },
    /// The status of each declared stack, lowest identifier first.
    Listing(Vec<StackReport>),
    /// No stack is declared.
    NoStacks,
}

/// `num_cpus::get`: the number of processors that this process may use.
///
/// Nothing is claimed of the number: it depends on the machine and on the
/// limits set for the process.
#[verifier::external_body]
fn host_parallelism() -> (r: usize) {
    num_cpus::get()
}

impl Config {
    /// A configuration that allows as many stacks as the host has processors
    /// for this process.
    pub fn for_host(
        root: Vec<u8>,
        env_template: Vec<u8>,
        compose_template: Vec<u8>,
        call_timeout_secs: u64,
    ) -> (r: Config)
        ensures
            r.root == root,
            r.env_template == env_template,
            r.compose_template == compose_template,
            r.call_timeout_secs == call_timeout_secs,
    {
        Config {
            root,
            env_template,
            compose_template,
            max_stacks: host_parallelism(),
            call_timeout_secs,
        }
    }
}

impl Reply {
    /// What to tell the caller of a start, a stop or a deletion that went
    /// well. The other results have no message: they are told by their fields.
    pub open spec fn message_text(self) -> Option<Seq<u8>> {
        match self {
            Reply::Started { id } => Some(
                ascii("Stack ") + decimal_text(id as int) + ascii(" has been successfully started"),
            ),
            Reply::Stopped { id } => Some(
                ascii("Stack ") + decimal_text(id as int) + ascii(" has been successfully stopped"),
            ),
            Reply::Deleted { id } => Some(
                ascii("Stack ") + decimal_text(id as int) + ascii(" has been successfully deleted"),
            ),
            _ => None,
        }
    }

    /// Writes what to tell the caller, where the result has a message.
    pub fn message(&self) -> (r: Option<Vec<u8>>)
        ensures
            view_of(r) == self.message_text(),
    {
        proof {
            reveal_strlit("Stack ");
            reveal_strlit(" has been successfully started");
            reveal_strlit(" has been successfully stopped");
            reveal_strlit(" has been successfully deleted");
        }
        let mut out: Vec<u8> = Vec::new();
        push_str(&mut out, "Stack ");
        match self {
            Reply::Started { id } => {
                push_decimal(&mut out, *id as i64);
                push_str(&mut out, " has been successfully started");
                Some(out)
            },
            Reply::Stopped { id } => {
                push_decimal(&mut out, *id as i64);
                push_str(&mut out, " has been successfully stopped");
                Some(out)
            },
            Reply::Deleted { id } => {
                push_decimal(&mut out, *id as i64);
                push_str(&mut out, " has been successfully deleted");
                Some(out)
            },
            _ => None,
        }
    }

    /// The HTTP status that stands for this result: 201 for a new stack, 204
    /// where there is nothing to say, 200 otherwise.
    pub open spec fn status(self) -> u16 {
        match self {
            Reply::Created { .. } => 201,
            Reply::StatusUpdated => 204,
            Reply::NoStacks => 204,
            _ => 200,
        }
    }

    /// The HTTP status to answer with.
    pub fn status_code(&self) -> (r: u16)
        ensures
            r == self.status(),
    {
        match self {
            Reply::Created { .. } => 201,
            Reply::StatusUpdated => 204,
            Reply::NoStacks => 204,
            _ => 200,
        }
    }
}

/// Why a filesystem effect failed, if it did: any answer but `Done` is a
/// failure, and only `Failed` gives a reason.
pub open spec fn step_failure(event: Event) -> Option<Option<Vec<u8>>> {
    match event {
        Event::Done => None,
        Event::Failed(reason) => Some(Some(reason)),
        _ => Some(None),
    }
}

/// How and why a call of the runtime failed, if it did. The runtime succeeds
/// only if it ran and ended with status 0; where it ended otherwise, the
/// reason is what it wrote to its error stream. A call that took too long has
/// failed, and so has one that was answered in any other way.
pub open spec fn call_failure(event: Event) -> Option<(CallFailure, Option<Vec<u8>>)> {
    match event {
        Event::Exited(output) => if output.success {
            None
        } else {
            Some((CallFailure::Exited, Some(output.stderr)))
        },
        Event::TimedOut => Some((CallFailure::TimedOut, None)),
        Event::NotLaunched(reason) => Some((CallFailure::NotLaunched, Some(reason))),
        Event::Failed(reason) => Some((CallFailure::NotLaunched, Some(reason))),
        _ => Some((CallFailure::NotLaunched, None)),
    }
}

fn check_step(event: Event) -> (r: Option<Option<Vec<u8>>>)
    ensures
        r == step_failure(event),
{
    match event {
        Event::Done => None,
        Event::Failed(reason) => Some(Some(reason)),
        _ => Some(None),
    }
}

fn check_call(event: Event) -> (r: Option<(CallFailure, Option<Vec<u8>>)>)
    ensures
        r == call_failure(event),
{
    match event {
        Event::Exited(output) => if output.success {
            None
        } else {
            Some((CallFailure::Exited, Some(output.stderr)))
        },
        Event::TimedOut => Some((CallFailure::TimedOut, None)),
        Event::NotLaunched(reason) => Some((CallFailure::NotLaunched, Some(reason))),
        Event::Failed(reason) => Some((CallFailure::NotLaunched, Some(reason))),
        _ => Some((CallFailure::NotLaunched, None)),
    }
}

/// Where the creation of a stack stands.
#[derive(Debug, PartialEq, Eq)]
pub enum CreateState {
    /// The entries of the root were asked for.
    Scanning,
    /// The directory of the new stack is being created.
    MakingDirectory { id: i32, ports: Ports },
    /// The configuration file is being written.
    WritingConfig { id: i32, ports: Ports },
    /// The manifest is being written.
    WritingManifest { id: i32, ports: Ports },
    /// The containers are being brought up.
    Launching { id: i32, ports: Ports },
    /// The directory is being removed again, because of `cause`.
    RollingBack { id: i32, cause: StackError },
    /// The operation has ended.
    Finished,
}

/// The end of a creation, with its failure.
pub open spec fn create_failed(e: StackError) -> (CreateState, Effect) {
    (CreateState::Finished, Effect::Finish(Err(e)))
}

/// The start of the rollback of a creation.
pub open spec fn create_undo(id: i32, cause: StackError) -> (CreateState, Effect) {
    (CreateState::RollingBack { id, cause }, Effect::RemoveDirectory { id })
}

/// What a creation decides once it knows the entries of the root. It is
/// refused where as many identifiers are in use as stacks are allowed, where
/// the highest identifier is the last there is, and where the template lacks
/// a port. Otherwise the new stack gets the identifier after the highest in
/// use and the ports that go with it, and its directory is created first.
pub open spec fn create_planned(entries: Seq<DirEntry>, config: Config) -> (CreateState, Effect) {
    if occupied(entries).len() >= config.max_stacks {
        create_failed(
            StackError::ValidationError(Invalid::CapacityReached { max_stacks: config.max_stacks }),
        )
    } else if highest(occupied(entries)) >= i32::MAX {
        create_failed(StackError::ValidationError(Invalid::IdsExhausted))
    } else {
        match read_template(config.env_template@) {
            Err(e) => create_failed(e),
            Ok(template) => (
                CreateState::MakingDirectory {
                    id: next_id(occupied(entries)) as i32,
                    ports: ports_of(template, next_id(occupied(entries))),
                },
                Effect::CreateDirectory { id: next_id(occupied(entries)) as i32 },
            ),
        }
    }
}

/// The next state of a creation and the effect it asks for, given the answer
/// to the effect it asked for last.
///
/// The directory comes first, then the configuration file, the manifest, and
/// the containers. Once the directory exists, whatever fails has the
/// directory removed again before the failure is reported; if the removal
/// fails too, that is what is reported.
pub open spec fn create_next(state: CreateState, event: Event, config: Config) -> (
    CreateState,
    Effect,
) {
    match state {
        CreateState::Scanning => match event {
            Event::Scanned(entries) => create_planned(entries@, config),
            Event::Failed(reason) => create_failed(
                StackError::FileSystemError {
                    op: Operation::Create,
                    step: FsStep::ScanRoot,
                    id: None,
                    detail: Some(reason),
                },
            ),
            _ => create_failed(
                StackError::FileSystemError {
                    op: Operation::Create,
                    step: FsStep::ScanRoot,
                    id: None,
                    detail: None,
                },
            ),
        },
        CreateState::MakingDirectory { id, ports } => match step_failure(event) {
            None => (CreateState::WritingConfig { id, ports }, Effect::WriteConfig { id, ports }),
            Some(detail) => create_failed(
                StackError::FileSystemError {
                    op: Operation::Create,
                    step: FsStep::CreateDirectory,
                    id: Some(id),
                    detail,
                },
            ),
        },
        CreateState::WritingConfig { id, ports } => match step_failure(event) {
            None => (CreateState::WritingManifest { id, ports }, Effect::WriteManifest { id }),
            Some(detail) => create_undo(
                id,
                StackError::FileSystemError {
                    op: Operation::Create,
                    step: FsStep::WriteConfig,
                    id: Some(id),
                    detail,
                },
            ),
        },
        CreateState::WritingManifest { id, ports } => match step_failure(event) {
            None => (CreateState::Launching { id, ports }, Effect::ComposeUp { id }),
            Some(detail) => create_undo(
                id,
                StackError::FileSystemError {
                    op: Operation::Create,
                    step: FsStep::WriteManifest,
                    id: Some(id),
                    detail,
                },
            ),
        },
        CreateState::Launching { id, ports } => match call_failure(event) {
            None => (CreateState::Finished, Effect::Finish(Ok(Reply::Created { id, ports }))),
            Some((how, detail)) => create_undo(
                id,
                StackError::DockerError {
                    op: Operation::Create,
                    call: RuntimeCall::ComposeUp,
                    id: Some(id),
                    how,
                    detail,
                },
            ),
        },
        CreateState::RollingBack { id, cause } => match step_failure(event) {
            None => create_failed(cause),
            Some(detail) => create_failed(
                StackError::FileSystemError {
                    op: Operation::Create,
                    step: FsStep::RollBack,
                    id: Some(id),
                    detail,
                },
            ),
        },
        CreateState::Finished => (CreateState::Finished, Effect::Idle),
    }
}

/// Starts the creation of a stack: the entries of the root are asked for.
pub fn create_stack() -> (r: (CreateState, Effect))
    ensures
        r == (CreateState::Scanning, Effect::ScanRoot),
{
    (CreateState::Scanning, Effect::ScanRoot)
}

/// Decides what a creation does once it knows the entries of the root.
pub fn plan_create(entries: &Vec<DirEntry>, config: &Config) -> (r: (CreateState, Effect))
    ensures
        r == create_planned(entries@, *config),
{
    let registry = Registry::occupied(entries);
    if registry.len() >= config.max_stacks {
        return (
            CreateState::Finished,
            Effect::Finish(
                Err(
                    StackError::ValidationError(
                        Invalid::CapacityReached { max_stacks: config.max_stacks },
                    ),
                ),
            ),
        );
    }
    let id = match registry.next_id() {
        Ok(id) => id,
        Err(e) => {
            return (CreateState::Finished, Effect::Finish(Err(e)));
        },
    };
    let template = match parse_env_template(config.env_template.as_slice()) {
        Ok(template) => template,
        Err(e) => {
            return (CreateState::Finished, Effect::Finish(Err(e)));
        },
    };
    match compute_ports(&template, id) {
        Ok(ports) => (CreateState::MakingDirectory { id, ports }, Effect::CreateDirectory { id }),
        Err(e) => (CreateState::Finished, Effect::Finish(Err(e))),
    }
}

/// Takes a creation one step further: given the answer to the effect it asked
/// for last, the next state and the next effect.
pub fn create_step(state: CreateState, event: Event, config: &Config) -> (r: (CreateState, Effect))
    ensures
        r == create_next(state, event, *config),
{
    match state {
        CreateState::Scanning => match event {
            Event::Scanned(entries) => plan_create(&entries, config),
            Event::Failed(reason) => (
                CreateState::Finished,
                Effect::Finish(
                    Err(
                        StackError::FileSystemError {
                            op: Operation::Create,
                            step: FsStep::ScanRoot,
                            id: None,
                            detail: Some(reason),
                        },
                    ),
                ),
            ),
            _ => (
                CreateState::Finished,
                Effect::Finish(
                    Err(
                        StackError::FileSystemError {
                            op: Operation::Create,
                            step: FsStep::ScanRoot,
                            id: None,
                            detail: None,
                        },
                    ),
                ),
            ),
        },
        CreateState::MakingDirectory { id, ports } => match check_step(event) {
            None => (CreateState::WritingConfig { id, ports }, Effect::WriteConfig { id, ports }),
            Some(detail) => (
                CreateState::Finished,
                Effect::Finish(
                    Err(
                        StackError::FileSystemError {
                            op: Operation::Create,
                            step: FsStep::CreateDirectory,
                            id: Some(id),
                            detail,
                        },
                    ),
                ),
            ),
        },
        CreateState::WritingConfig { id, ports } => match check_step(event) {
            None => (CreateState::WritingManifest { id, ports }, Effect::WriteManifest { id }),
            Some(detail) => (
                CreateState::RollingBack {
                    id,
                    cause: StackError::FileSystemError {
                        op: Operation::Create,
                        step: FsStep::WriteConfig,
                        id: Some(id),
                        detail,
                    },
                },
                Effect::RemoveDirectory { id },
            ),
        },
        CreateState::WritingManifest { id, ports } => match check_step(event) {
            None => (CreateState::Launching { id, ports }, Effect::ComposeUp { id }),
            Some(detail) => (
                CreateState::RollingBack {
                    id,
                    cause: StackError::FileSystemError {
                        op: Operation::Create,
                        step: FsStep::WriteManifest,
                        id: Some(id),
                        detail,
                    },
                },
                Effect::RemoveDirectory { id },
            ),
        },
        CreateState::Launching { id, ports } => match check_call(event) {
            None => (CreateState::Finished, Effect::Finish(Ok(Reply::Created { id, ports }))),
            Some((how, detail)) => (
                CreateState::RollingBack {
                    id,
                    cause: StackError::DockerError {
                        op: Operation::Create,
                        call: RuntimeCall::ComposeUp,
                        id: Some(id),
                        how,
                        detail,
                    },
                },
                Effect::RemoveDirectory { id },
            ),
        },
        CreateState::RollingBack { id, cause } => match check_step(event) {
            None => (CreateState::Finished, Effect::Finish(Err(cause))),
            Some(detail) => (
                CreateState::Finished,
                Effect::Finish(
                    Err(
                        StackError::FileSystemError {
                            op: Operation::Create,
                            step: FsStep::RollBack,
                            id: Some(id),
                            detail,
                        },
                    ),
                ),
            ),
        },
        CreateState::Finished => (CreateState::Finished, Effect::Idle),
    }
}

/// Where the starting or stopping of a stack stands.
#[derive(Debug, PartialEq, Eq)]
pub enum SwitchState {
    /// The manifest is being looked for. `stack` is the identifier as it was
    /// given.
    Probing { op: Operation, target: StackStatus, stack: String, id: i32 },
    /// The runtime is bringing the containers up or down.
    Switching { op: Operation, target: StackStatus, id: i32 },
    /// The operation has ended.
    Finished,
}

/// The end of a switch, with its failure.
pub open spec fn switch_failed(e: StackError) -> (SwitchState, Effect) {
    (SwitchState::Finished, Effect::Finish(Err(e)))
}

/// The start of a switch of the stack that `stack` names to the status
/// `target`. A text that is no identifier names no stack; otherwise the
/// manifest of the stack is looked for first.
pub open spec fn switch_begun(op: Operation, target: StackStatus, stack: String) -> (
    SwitchState,
    Effect,
) {
    match text_id(encode_utf8(stack@)) {
        Some(id) => (SwitchState::Probing { op, target, stack, id }, Effect::ProbeManifest { id }),
        None => switch_failed(StackError::StackNotFound(stack)),
    }
}

/// The start of a status update: an unknown status is refused before anything
/// is looked for.
pub open spec fn update_begun(stack: String, update: StatusUpdate) -> (SwitchState, Effect) {
    match status_named(update.status) {
        Ok(target) => switch_begun(Operation::UpdateStatus, target, stack),
        Err(e) => switch_failed(e),
    }
}

/// The call of the runtime that brings a stack to the status `target`.
pub open spec fn switch_call(target: StackStatus) -> RuntimeCall {
    match target {
        StackStatus::Running => RuntimeCall::ComposeUp,
        StackStatus::Stopped => RuntimeCall::ComposeDown,
    }
}

/// The effect that brings stack `id` to the status `target`.
pub open spec fn switch_effect(target: StackStatus, id: i32) -> Effect {
    match target {
        StackStatus::Running => Effect::ComposeUp { id },
        StackStatus::Stopped => Effect::ComposeDown { id },
    }
}

/// The result of a switch that went well.
pub open spec fn switch_reply(op: Operation, id: i32) -> Reply {
    match op {
        Operation::Start => Reply::Started { id },
        Operation::Stop => Reply::Stopped { id },
        _ => Reply::StatusUpdated,
    }
}

/// The next state of a switch and the effect it asks for. A stack whose
/// manifest is not reported to be there is not found. The directory and the
/// manifest are never touched.
pub open spec fn switch_next(state: SwitchState, event: Event) -> (SwitchState, Effect) {
    match state {
        SwitchState::Probing { op, target, stack, id } => match event {
            Event::Probed(true) => (
                SwitchState::Switching { op, target, id },
                switch_effect(target, id),
            ),
            _ => switch_failed(StackError::StackNotFound(stack)),
        },
        SwitchState::Switching { op, target, id } => match call_failure(event) {
            None => (SwitchState::Finished, Effect::Finish(Ok(switch_reply(op, id)))),
            Some((how, detail)) => switch_failed(
                StackError::DockerError {
                    op,
                    call: switch_call(target),
                    id: Some(id),
                    how,
                    detail,
                },
            ),
        },
        SwitchState::Finished => (SwitchState::Finished, Effect::Idle),
    }
}

fn begin_switch(op: Operation, target: StackStatus, stack: String) -> (r: (SwitchState, Effect))
    ensures
        r == switch_begun(op, target, stack),
{
    match parse_stack_id(string_bytes(&stack)) {
        Some(id) => (SwitchState::Probing { op, target, stack, id }, Effect::ProbeManifest { id }),
        None => (SwitchState::Finished, Effect::Finish(Err(StackError::StackNotFound(stack)))),
    }
}

/// Starts the starting of the stack that `stack` names.
pub fn start_stack(stack: String) -> (r: (SwitchState, Effect))
    ensures
        r == switch_begun(Operation::Start, StackStatus::Running, stack),
{
    begin_switch(Operation::Start, StackStatus::Running, stack)
}

/// Starts the stopping of the stack that `stack` names.
pub fn stop_stack(stack: String) -> (r: (SwitchState, Effect))
    ensures
        r == switch_begun(Operation::Stop, StackStatus::Stopped, stack),
{
    begin_switch(Operation::Stop, StackStatus::Stopped, stack)
}

/// Starts the update of the stack that `stack` names to the status asked for.
pub fn update_stack_status(stack: String, update: StatusUpdate) -> (r: (SwitchState, Effect))
    ensures
        r == update_begun(stack, update),
{
    match StackStatus::try_from(update.status) {
        Ok(target) => begin_switch(Operation::UpdateStatus, target, stack),
        Err(e) => (SwitchState::Finished, Effect::Finish(Err(e))),
    }
}

/// Takes a start, a stop or a status update one step further.
pub fn switch_step(state: SwitchState, event: Event) -> (r: (SwitchState, Effect))
    ensures
        r == switch_next(state, event),
{
    match state {
        SwitchState::Probing { op, target, stack, id } => match event {
            Event::Probed(true) => {
                let effect = match target {
                    StackStatus::Running => Effect::ComposeUp { id },
                    StackStatus::Stopped => Effect::ComposeDown { id },
                };
                (SwitchState::Switching { op, target, id }, effect)
            },
            _ => (SwitchState::Finished, Effect::Finish(Err(StackError::StackNotFound(stack)))),
        },
        SwitchState::Switching { op, target, id } => match check_call(event) {
            None => {
                let reply = match op {
                    Operation::Start => Reply::Started { id },
                    Operation::Stop => Reply::Stopped { id },
                    _ => Reply::StatusUpdated,
                };
                (SwitchState::Finished, Effect::Finish(Ok(reply)))
            },
            Some((how, detail)) => {
                let call = match target {
                    StackStatus::Running => RuntimeCall::ComposeUp,
                    StackStatus::Stopped => RuntimeCall::ComposeDown,
                };
                (
                    SwitchState::Finished,
                    Effect::Finish(
                        Err(StackError::DockerError { op, call, id: Some(id), how, detail }),
                    ),
                )
            },
        },
        SwitchState::Finished => (SwitchState::Finished, Effect::Idle),
    }
}

/// Where the deletion of a stack stands.
#[derive(Debug, PartialEq, Eq)]
pub enum DeleteState {
    /// The manifest is being looked for. `stack` is the identifier as it was
    /// given.
    Probing { stack: String, id: i32 },
    /// The containers are being taken down.
    Stopping { id: i32 },
    /// The volume is being removed.
    RemovingVolume { id: i32 },
    /// The directory is being removed.
    RemovingDirectory { id: i32 },
    /// The operation has ended.
    Finished,
}

/// The end of a deletion, with its failure.
pub open spec fn delete_failed(e: StackError) -> (DeleteState, Effect) {
    (DeleteState::Finished, Effect::Finish(Err(e)))
}

/// The failure of a call of the runtime during a deletion.
pub open spec fn delete_call_failed(
    call: RuntimeCall,
    id: i32,
    how: CallFailure,
    detail: Option<Vec<u8>>,
) -> (DeleteState, Effect) {
    delete_failed(
        StackError::DockerError { op: Operation::Delete, call, id: Some(id), how, detail },
    )
}

/// The start of the deletion of the stack that `stack` names.
pub open spec fn delete_begun(stack: String) -> (DeleteState, Effect) {
    match text_id(encode_utf8(stack@)) {
        Some(id) => (DeleteState::Probing { stack, id }, Effect::ProbeManifest { id }),
        None => delete_failed(StackError::StackNotFound(stack)),
    }
}

/// The next state of a deletion and the effect it asks for.
///
/// The containers are taken down, then the volume is removed, then the
/// directory. The first of these that fails ends the deletion with its
/// failure; nothing that was done before is undone.
pub open spec fn delete_next(state: DeleteState, event: Event) -> (DeleteState, Effect) {
    match state {
        DeleteState::Probing { stack, id } => match event {
            Event::Probed(true) => (DeleteState::Stopping { id }, Effect::ComposeDown { id }),
            _ => delete_failed(StackError::StackNotFound(stack)),
        },
        DeleteState::Stopping { id } => match call_failure(event) {
            None => (DeleteState::RemovingVolume { id }, Effect::RemoveVolume { id }),
            Some((how, detail)) => delete_call_failed(
                RuntimeCall::ComposeDown,
                id,
                how,
                detail,
            ),
        },
        DeleteState::RemovingVolume { id } => match call_failure(event) {
            None => (DeleteState::RemovingDirectory { id }, Effect::RemoveDirectory { id }),
            Some((how, detail)) => delete_call_failed(
                RuntimeCall::VolumeRemove,
                id,
                how,
                detail,
            ),
        },
        DeleteState::RemovingDirectory { id } => match step_failure(event) {
            None => (DeleteState::Finished, Effect::Finish(Ok(Reply::Deleted { id }))),
            Some(detail) => delete_failed(
                StackError::FileSystemError {
                    op: Operation::Delete,
                    step: FsStep::RemoveDirectory,
                    id: Some(id),
                    detail,
                },
            ),
        },
        DeleteState::Finished => (DeleteState::Finished, Effect::Idle),
    }
}

/// Starts the deletion of the stack that `stack` names.
pub fn delete_stack(stack: String) -> (r: (DeleteState, Effect))
    ensures
        r == delete_begun(stack),
{
    match parse_stack_id(string_bytes(&stack)) {
        Some(id) => (DeleteState::Probing { stack, id }, Effect::ProbeManifest { id }),
        None => (DeleteState::Finished, Effect::Finish(Err(StackError::StackNotFound(stack)))),
    }
}

fn fail_delete_call(call: RuntimeCall, id: i32, how: CallFailure, detail: Option<Vec<u8>>) -> (r: (
    DeleteState,
    Effect,
))
    ensures
        r == delete_call_failed(call, id, how, detail),
{
    (
        DeleteState::Finished,
        Effect::Finish(
            Err(
                StackError::DockerError {
                    op: Operation::Delete,
                    call,
                    id: Some(id),
                    how,
                    detail,
                },
            ),
        ),
    )
}

/// Takes a deletion one step further.
pub fn delete_step(state: DeleteState, event: Event) -> (r: (DeleteState, Effect))
    ensures
        r == delete_next(state, event),
{
    match state {
        DeleteState::Probing { stack, id } => match event {
            Event::Probed(true) => (DeleteState::Stopping { id }, Effect::ComposeDown { id }),
            _ => (DeleteState::Finished, Effect::Finish(Err(StackError::StackNotFound(stack)))),
        },
        DeleteState::Stopping { id } => match check_call(event) {
            None => (DeleteState::RemovingVolume { id }, Effect::RemoveVolume { id }),
            Some((how, detail)) => fail_delete_call(
                RuntimeCall::ComposeDown,
                id,
                how,
                detail,
            ),
        },
        DeleteState::RemovingVolume { id } => match check_call(event) {
            None => (DeleteState::RemovingDirectory { id }, Effect::RemoveDirectory { id }),
            Some((how, detail)) => fail_delete_call(
                RuntimeCall::VolumeRemove,
                id,
                how,
                detail,
            ),
        },
        DeleteState::RemovingDirectory { id } => match check_step(event) {
            None => (DeleteState::Finished, Effect::Finish(Ok(Reply::Deleted { id }))),
            Some(detail) => (
                DeleteState::Finished,
                Effect::Finish(
                    Err(
                        StackError::FileSystemError {
                            op: Operation::Delete,
                            step: FsStep::RemoveDirectory,
                            id: Some(id),
                            detail,
                        },
                    ),
                ),
            ),
        },
        DeleteState::Finished => (DeleteState::Finished, Effect::Idle),
    }
}

/// Where the listing of the stacks stands.
#[derive(Debug, PartialEq, Eq)]
pub enum ListState {
    /// The entries of the root were asked for.
    Scanning,
    /// The running containers were asked for.
    Querying { entries: Vec<DirEntry> },
    /// The operation has ended.
    Finished,
}

/// The end of a listing, with its failure.
pub open spec fn list_failed(e: StackError) -> (ListState, Effect) {
    (ListState::Finished, Effect::Finish(Err(e)))
}

/// `reports` tells the status of exactly the stacks `stacks`, each once and
/// lowest identifier first, as the running containers `containers` show it.
pub open spec fn is_listing(
    reports: Seq<ReportView>,
    stacks: Set<int>,
    containers: Seq<ContainerView>,
) -> bool {
    &&& forall|i: int, j: int| 0 <= i < j < reports.len() ==> reports[i].id < reports[j].id
    &&& forall|i: int|
        0 <= i < reports.len() ==> stacks.contains((#[trigger] reports[i]).id) && reports[i]
            == report_of(reports[i].id, containers)
    &&& forall|id: int|
        stacks.contains(id) ==> exists|i: int|
            0 <= i < reports.len() && (#[trigger] reports[i]).id == id
}

/// `x` rises strictly.
pub open spec fn rises(x: Seq<int>) -> bool {
    forall|i: int, j: int| 0 <= i < j < x.len() ==> x[i] < x[j]
}

/// Two strictly rising sequences with the same members are the same sequence.
pub proof fn lemma_rising_sequences_agree(x: Seq<int>, y: Seq<int>)
    requires
        rises(x),
        rises(y),
        forall|v: int| x.contains(v) <==> y.contains(v),
    ensures
        x == y,
    decreases x.len(),
{
    if x.len() == 0 {
        if y.len() > 0 {
            assert(y.contains(y[0]));
        }
    } else {
        let m = x.last();
        assert(x.contains(m));
        let t = y.last();
        assert(y.contains(t));
        let x0 = x.drop_last();
        let y0 = y.drop_last();
        assert forall|v: int| x0.contains(v) implies y0.contains(v) by {
            assert(x.contains(v));
            let j = choose|j: int| 0 <= j < y.len() && y[j] == v;
            assert(y0[j] == v);
        }
        assert forall|v: int| y0.contains(v) implies x0.contains(v) by {
            assert(y.contains(v));
            let i = choose|i: int| 0 <= i < x.len() && x[i] == v;
            assert(x0[i] == v);
        }
        lemma_rising_sequences_agree(x0, y0);
        assert(x =~= x0.push(m));
    }
}

/// The identifiers of a list of reports, in their order.
pub open spec fn report_ids(reports: Seq<ReportView>) -> Seq<int> {
    Seq::new(reports.len(), |i: int| reports[i].id)
}

/// The identifiers of a listing rise strictly, and are those of the stacks.
proof fn lemma_listing_ids(
    reports: Seq<ReportView>,
    stacks: Set<int>,
    containers: Seq<ContainerView>,
)
    requires
        is_listing(reports, stacks, containers),
    ensures
        rises(report_ids(reports)),
        forall|v: int| report_ids(reports).contains(v) <==> stacks.contains(v),
{
    let x = report_ids(reports);
    assert forall|v: int| stacks.contains(v) implies x.contains(v) by {
        let i = choose|i: int| 0 <= i < reports.len() && (#[trigger] reports[i]).id == v;
        assert(x[i] == v);
    }
}

/// There is one listing only of given stacks against given containers.
pub proof fn lemma_listing_is_unique(
    a: Seq<ReportView>,
    b: Seq<ReportView>,
    stacks: Set<int>,
    containers: Seq<ContainerView>,
)
    requires
        is_listing(a, stacks, containers),
        is_listing(b, stacks, containers),
    ensures
        a == b,
{
    lemma_listing_ids(a, stacks, containers);
    lemma_listing_ids(b, stacks, containers);
    lemma_rising_sequences_agree(report_ids(a), report_ids(b));
}

/// Whether `next` is the state and the effect that follow in a listing, given
/// the answer to the effect it asked for last.
///
/// Where no stack is declared the listing ends at once, and the runtime is not
/// asked anything. Otherwise the running containers are asked for, once for
/// all stacks, and each declared stack is reported as they show it.
pub open spec fn list_follows(state: ListState, event: Event, next: (ListState, Effect)) -> bool {
    match state {
        ListState::Scanning => match event {
            Event::Scanned(entries) => if declared(entries@) == Set::<int>::empty() {
                next == (ListState::Finished, Effect::Finish(Ok(Reply::NoStacks)))
            } else {
                next == (ListState::Querying { entries }, Effect::ListRunning)
            },
            Event::Failed(reason) => next == list_failed(
                StackError::FileSystemError {
                    op: Operation::List,
                    step: FsStep::ScanRoot,
                    id: None,
                    detail: Some(reason),
                },
            ),
            _ => next == list_failed(
                StackError::FileSystemError {
                    op: Operation::List,
                    step: FsStep::ScanRoot,
                    id: None,
                    detail: None,
                },
            ),
        },
        ListState::Querying { entries } => match call_failure(event) {
            Some((how, detail)) => next == list_failed(
                StackError::DockerError {
                    op: Operation::List,
                    call: RuntimeCall::ListRunning,
                    id: None,
                    how,
                    detail,
                },
            ),
            None => next.0 == ListState::Finished && match next.1 {
                Effect::Finish(Ok(Reply::Listing(reports))) => is_listing(
                    report_views(reports@),
                    declared(entries@),
                    running_containers(event->Exited_0.stdout@),
                ),
                _ => false,
            },
        },
        ListState::Finished => next == (ListState::Finished, Effect::Idle),
    }
}

/// Starts the listing of the stacks: the entries of the root are asked for.
pub fn list_stacks() -> (r: (ListState, Effect))
    ensures
        r == (ListState::Scanning, Effect::ScanRoot),
{
    (ListState::Scanning, Effect::ScanRoot)
}

/// Reports the status of each declared stack, lowest identifier first, as the
/// runtime's list of running containers shows it.
pub fn aggregate(entries: &Vec<DirEntry>, stdout: &[u8]) -> (r: Vec<StackReport>)
    ensures
        is_listing(report_views(r@), declared(entries@), running_containers(stdout@)),
{
    let containers = get_running_containers(stdout);
    let ids = Registry::declared(entries).ids();
    let reports = stack_reports(&ids, &containers);
    proof {
        let views = report_views(reports@);
        assert forall|id: int| declared(entries@).contains(id) implies exists|i: int|
            0 <= i < views.len() && (#[trigger] views[i]).id == id by {
            let k = choose|k: int| 0 <= k < ids@.len() && #[trigger] ids@[k] == id;
            assert(views[k].id == id);
        }
    }
    reports
}

fn fail_list_call(how: CallFailure, detail: Option<Vec<u8>>) -> (r: (ListState, Effect))
    ensures
        r == list_failed(
            StackError::DockerError {
                op: Operation::List,
                call: RuntimeCall::ListRunning,
                id: None,
                how,
                detail,
            },
        ),
{
    (
        ListState::Finished,
        Effect::Finish(
            Err(
                StackError::DockerError {
                    op: Operation::List,
                    call: RuntimeCall::ListRunning,
                    id: None,
                    how,
                    detail,
                },
            ),
        ),
    )
}

/// Takes a listing one step further.
pub fn list_step(state: ListState, event: Event) -> (r: (ListState, Effect))
    ensures
        list_follows(state, event, r),
{
    match state {
        ListState::Scanning => match event {
            Event::Scanned(entries) => {
                if Registry::declared(&entries).is_empty() {
                    (ListState::Finished, Effect::Finish(Ok(Reply::NoStacks)))
                } else {
                    (ListState::Querying { entries }, Effect::ListRunning)
                }
            },
            Event::Failed(reason) => (
                ListState::Finished,
                Effect::Finish(
                    Err(
                        StackError::FileSystemError {
                            op: Operation::List,
                            step: FsStep::ScanRoot,
                            id: None,
                            detail: Some(reason),
                        },
                    ),
                ),
            ),
            _ => (
                ListState::Finished,
                Effect::Finish(
                    Err(
                        StackError::FileSystemError {
                            op: Operation::List,
                            step: FsStep::ScanRoot,
                            id: None,
                            detail: None,
                        },
                    ),
                ),
            ),
        },
        ListState::Querying { entries } => match event {
            Event::Exited(output) => {
                if output.success {
                    let reports = aggregate(&entries, output.stdout.as_slice());
                    (ListState::Finished, Effect::Finish(Ok(Reply::Listing(reports))))
                } else {
                    fail_list_call(CallFailure::Exited, Some(output.stderr))
                }
            },
            Event::TimedOut => fail_list_call(CallFailure::TimedOut, None),
            Event::NotLaunched(reason) => fail_list_call(CallFailure::NotLaunched, Some(reason)),
            Event::Failed(reason) => fail_list_call(CallFailure::NotLaunched, Some(reason)),
            _ => fail_list_call(CallFailure::NotLaunched, None),
        },
        ListState::Finished => (ListState::Finished, Effect::Idle),
    }
}

impl Effect {
    /// The path that the effect is about, under the stacks root `root`: the
    /// root itself for a scan, the stack's directory where it is created or
    /// removed, the stack's configuration file or manifest where one is
    /// written or looked for. The calls of the runtime have no path of their
    /// own.
    pub open spec fn target(self, root: Seq<u8>) -> Option<Seq<u8>> {
        match self {
            Effect::ScanRoot => Some(root),
            Effect::CreateDirectory { id } => Some(stack_path(root, id as int)),
            Effect::RemoveDirectory { id } => Some(stack_path(root, id as int)),
            Effect::WriteConfig { id, .. } => Some(config_path(root, id as int)),
            Effect::WriteManifest { id } => Some(manifest_path(root, id as int)),
            Effect::ProbeManifest { id } => Some(manifest_path(root, id as int)),
            _ => None,
        }
    }

    /// What the effect writes: the rendered configuration, or the manifest.
    pub open spec fn payload(self, config: Config) -> Option<Seq<u8>> {
        match self {
            Effect::WriteConfig { id, ports } => Some(
                rendered_config(config.env_template@, id as int, ports),
            ),
            Effect::WriteManifest { .. } => Some(config.compose_template@),
            _ => None,
        }
    }

    /// The arguments with which the effect calls `docker`.
    pub open spec fn arguments(self, root: Seq<u8>) -> Option<Seq<Seq<u8>>> {
        match self {
            Effect::ComposeUp { id } => Some(compose_up_args(manifest_path(root, id as int))),
            Effect::ComposeDown { id } => Some(compose_down_args(manifest_path(root, id as int))),
            Effect::RemoveVolume { id } => Some(volume_remove_args(id as int)),
            Effect::ListRunning => Some(list_running_args()),
            _ => None,
        }
    }

    /// Builds the path that the effect is about.
    pub fn path(&self, config: &Config) -> (r: Option<Vec<u8>>)
        ensures
            view_of(r) == self.target(config.root@),
    {
        let root = config.root.as_slice();
        match self {
            Effect::ScanRoot => Some(to_vec(root)),
            Effect::CreateDirectory { id } => Some(stack_dir_path(root, *id)),
            Effect::RemoveDirectory { id } => Some(stack_dir_path(root, *id)),
            Effect::WriteConfig { id, .. } => Some(config_file_path(root, *id)),
            Effect::WriteManifest { id } => Some(get_compose_file_path(root, *id)),
            Effect::ProbeManifest { id } => Some(get_compose_file_path(root, *id)),
            _ => None,
        }
    }

    /// Builds what the effect writes.
    pub fn content(&self, config: &Config) -> (r: Option<Vec<u8>>)
        ensures
            view_of(r) == self.payload(*config),
    {
        match self {
            Effect::WriteConfig { id, ports } => Some(
                render_config(config.env_template.as_slice(), *id, ports),
            ),
            Effect::WriteManifest { .. } => Some(render_manifest(config.compose_template.as_slice())),
            _ => None,
        }
    }

    /// Builds the command with which the effect calls the runtime. The command
    /// may take as long as the configuration allows.
    pub fn command(&self, config: &Config) -> (r: Option<Command>)
        ensures
            match r {
                Some(c) => {
                    &&& c.program@ == ascii("docker")
                    &&& self.arguments(config.root@) == Some(views(c.args@))
                    &&& c.timeout_secs == config.call_timeout_secs
                },
                None => self.arguments(config.root@) is None,
            },
    {
        let root = config.root.as_slice();
        let limit = config.call_timeout_secs;
        match self {
            Effect::ComposeUp { id } => {
                let manifest = get_compose_file_path(root, *id);
                Some(compose_up(manifest.as_slice(), limit))
            },
            Effect::ComposeDown { id } => {
                let manifest = get_compose_file_path(root, *id);
                Some(compose_down(manifest.as_slice(), limit))
            },
            Effect::RemoveVolume { id } => Some(volume_remove(*id, limit)),
            Effect::ListRunning => Some(list_running(limit)),
            _ => None,
        }
    }
}

} // verus!
