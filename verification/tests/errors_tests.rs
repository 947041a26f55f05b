use stack_manager::errors::{
    CallFailure, FsStep, Invalid, Operation, PortKey, RuntimeCall, StackError,
};

fn message(e: &StackError) -> String {
    String::from_utf8(e.message()).unwrap()
}

fn docker(
    op: Operation,
    call: RuntimeCall,
    id: Option<i32>,
    launched: bool,
    detail: Option<&str>,
) -> StackError {
    StackError::DockerError {
        op,
        call,
        id,
        how: if launched { CallFailure::Exited } else { CallFailure::NotLaunched },
        detail: detail.map(|s| s.as_bytes().to_vec()),
    }
}

#[test]
fn status_codes() {
    assert_eq!(StackError::ValidationError(Invalid::IdsExhausted).status_code(), 403);
    assert_eq!(
        StackError::ValidationError(Invalid::CapacityReached { max_stacks: 8 }).status_code(),
        403
    );
    assert_eq!(StackError::InvalidStatus("x".to_string()).status_code(), 400);
    assert_eq!(StackError::StackNotFound("3".to_string()).status_code(), 404);
    assert_eq!(
        docker(Operation::Start, RuntimeCall::ComposeUp, Some(3), true, None).status_code(),
        500
    );
    assert_eq!(
        StackError::FileSystemError {
            op: Operation::List,
            step: FsStep::ScanRoot,
            id: None,
            detail: None,
        }
        .status_code(),
        500
    );
}

#[test]
fn validation_messages() {
    assert_eq!(
        message(&StackError::ValidationError(Invalid::CapacityReached { max_stacks: 16 })),
        "Maximum number of stacks (16) reached"
    );
    assert_eq!(
        message(&StackError::ValidationError(Invalid::CapacityReached { max_stacks: 0 })),
        "Maximum number of stacks (0) reached"
    );
    assert_eq!(
        message(&StackError::ValidationError(Invalid::MissingPortKey(PortKey::Server))),
        "SERVER_PORT not found in env template"
    );
    assert_eq!(
        message(&StackError::ValidationError(Invalid::MissingPortKey(PortKey::Rcon))),
        "RCON_PORT not found in env template"
    );
    assert_eq!(
        message(&StackError::ValidationError(Invalid::MissingPortKey(PortKey::Sftp))),
        "SFTP_SERVER_PORT not found in env template"
    );
    assert_eq!(
        message(&StackError::ValidationError(Invalid::NonPositiveId(0))),
        "Stack identifiers start at 1"
    );
    assert_eq!(
        message(&StackError::ValidationError(Invalid::IdsExhausted)),
        "No stack identifier is left"
    );
}

#[test]
fn not_found_and_invalid_status_messages() {
    assert_eq!(message(&StackError::StackNotFound("7".to_string())), "Stack 7 does not exist");
    assert_eq!(message(&StackError::StackNotFound("abc".to_string())), "Stack abc does not exist");
    assert_eq!(
        message(&StackError::StackNotFound("caf\u{00e9}".to_string())),
        "Stack caf\u{00e9} does not exist"
    );
    assert_eq!(
        message(&StackError::InvalidStatus("Paused".to_string())),
        "Invalid status value: 'Paused'. Must be 'running' or 'stopped'"
    );
}

#[test]
fn runtime_not_started_messages() {
    let e = Some("No such file");
    assert_eq!(
        message(&docker(Operation::Start, RuntimeCall::ComposeUp, Some(1), false, e)),
        "Failed to execute docker compose: No such file"
    );
    assert_eq!(
        message(&docker(Operation::Stop, RuntimeCall::ComposeDown, Some(1), false, e)),
        "Failed to execute docker compose: No such file"
    );
    assert_eq!(
        message(&docker(Operation::Delete, RuntimeCall::ComposeDown, Some(1), false, e)),
        "Failed to execute docker compose down: No such file"
    );
    assert_eq!(
        message(&docker(Operation::Delete, RuntimeCall::VolumeRemove, Some(1), false, e)),
        "Failed to remove docker volume: No such file"
    );
    assert_eq!(
        message(&docker(Operation::List, RuntimeCall::ListRunning, None, false, e)),
        "Failed to execute docker ps: No such file"
    );
    assert_eq!(
        message(&docker(Operation::List, RuntimeCall::ListRunning, None, false, None)),
        "Failed to execute docker ps: "
    );
}

#[test]
fn runtime_failure_messages() {
    let e = Some("boom");
    assert_eq!(
        message(&docker(Operation::Create, RuntimeCall::ComposeUp, Some(4), true, e)),
        "Failed to start containers. Stack creation rolled back"
    );
    assert_eq!(
        message(&docker(Operation::Start, RuntimeCall::ComposeUp, Some(4), true, e)),
        "Failed to start stack 4: boom"
    );
    assert_eq!(
        message(&docker(Operation::Stop, RuntimeCall::ComposeDown, Some(4), true, e)),
        "Failed to stop stack 4: boom"
    );
    assert_eq!(
        message(&docker(Operation::UpdateStatus, RuntimeCall::ComposeUp, Some(4), true, e)),
        "Failed to update stack 4 status: boom"
    );
    assert_eq!(
        message(&docker(Operation::UpdateStatus, RuntimeCall::ComposeDown, Some(4), true, e)),
        "Failed to update stack 4 status: boom"
    );
    assert_eq!(
        message(&docker(Operation::Delete, RuntimeCall::ComposeDown, Some(4), true, e)),
        "Failed to stop stack 4: boom"
    );
    assert_eq!(
        message(&docker(Operation::Delete, RuntimeCall::VolumeRemove, Some(4), true, e)),
        "Failed to remove minecraft server volume: boom"
    );
    assert_eq!(
        message(&docker(Operation::List, RuntimeCall::ListRunning, None, true, e)),
        "Failed to get container information"
    );
}

#[test]
fn filesystem_messages() {
    let fs = |step: FsStep| {
        message(&StackError::FileSystemError {
            op: Operation::Create,
            step,
            id: Some(4),
            detail: Some(b"denied".to_vec()),
        })
    };
    assert_eq!(fs(FsStep::ScanRoot), "Failed to read stacks directory: denied");
    assert_eq!(fs(FsStep::CreateDirectory), "Failed to create stack directory: denied");
    assert_eq!(fs(FsStep::WriteConfig), "Failed to write .env file: denied");
    assert_eq!(fs(FsStep::WriteManifest), "Failed to write compose.yaml: denied");
    assert_eq!(fs(FsStep::RemoveDirectory), "Failed to remove stack directory: denied");
    assert_eq!(fs(FsStep::RollBack), "Failed to cleanup failed stack: denied");
}

#[test]
fn timeout_messages() {
    let timed_out = |op: Operation, call: RuntimeCall| {
        message(&StackError::DockerError {
            op,
            call,
            id: Some(3),
            how: CallFailure::TimedOut,
            detail: None,
        })
    };
    assert_eq!(
        timed_out(Operation::Create, RuntimeCall::ComposeUp),
        "Failed to execute docker compose: timed out"
    );
    assert_eq!(
        timed_out(Operation::Delete, RuntimeCall::ComposeDown),
        "Failed to execute docker compose down: timed out"
    );
    assert_eq!(
        timed_out(Operation::Delete, RuntimeCall::VolumeRemove),
        "Failed to remove docker volume: timed out"
    );
    assert_eq!(
        timed_out(Operation::List, RuntimeCall::ListRunning),
        "Failed to execute docker ps: timed out"
    );
}
