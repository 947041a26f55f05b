use stack_manager::runtime::ProcessOutput;
use stack_manager::scripts::{execute_script, script_command, ScriptResponse, ScriptRun};

fn exited(success: bool, stdout: &[u8], stderr: &[u8]) -> ScriptRun {
    ScriptRun::Exited(ProcessOutput { success, stdout: stdout.to_vec(), stderr: stderr.to_vec() })
}

#[test]
fn script_command_with_and_without_argument() {
    let command = script_command(b"backup", Some(b"3"), 20);
    assert_eq!(command.timeout_secs, 20);
    assert_eq!(command.program, b"./scripts/backup.sh".to_vec());
    assert_eq!(command.args, vec![b"3".to_vec()]);
    let command = script_command(b"status", None, 5);
    assert_eq!(command.timeout_secs, 5);
    assert_eq!(command.program, b"./scripts/status.sh".to_vec());
    assert_eq!(command.args, Vec::<Vec<u8>>::new());
}

#[test]
fn script_output_is_passed_on() {
    assert_eq!(
        execute_script(b"status", exited(true, b"{\"ok\":true}", b"noise")),
        ScriptResponse { status: 200, json: true, body: b"{\"ok\":true}".to_vec() }
    );
    assert_eq!(
        execute_script(b"status", exited(true, "é €".as_bytes(), b"")),
        ScriptResponse { status: 200, json: true, body: "é €".as_bytes().to_vec() }
    );
    assert_eq!(
        execute_script(b"status", exited(true, b"", b"")),
        ScriptResponse { status: 200, json: true, body: Vec::new() }
    );
}

#[test]
fn script_failure_answers_with_its_error_output() {
    assert_eq!(
        execute_script(b"status", exited(false, b"partial", b"{\"error\":1}")),
        ScriptResponse { status: 500, json: true, body: b"{\"error\":1}".to_vec() }
    );
}

#[test]
fn script_output_that_is_not_utf8_is_not_passed_on() {
    assert_eq!(
        execute_script(b"status", exited(true, b"ok \xff", b"")),
        ScriptResponse { status: 500, json: false, body: b"Invalid UTF-8 in stdout".to_vec() }
    );
    assert_eq!(
        execute_script(b"status", exited(false, b"", b"\xc3")),
        ScriptResponse { status: 500, json: false, body: b"Invalid UTF-8 in stderr".to_vec() }
    );
    assert_eq!(
        execute_script(b"status", exited(true, b"\xed\xa0\x80", b"")),
        ScriptResponse { status: 500, json: false, body: b"Invalid UTF-8 in stdout".to_vec() }
    );
}

#[test]
fn script_that_did_not_run() {
    assert_eq!(
        execute_script(b"backup", ScriptRun::NotLaunched(b"Permission denied".to_vec())),
        ScriptResponse {
            status: 500,
            json: false,
            body: b"Failed to execute backup: Permission denied".to_vec(),
        }
    );
}

#[test]
fn script_that_did_not_end_in_time() {
    assert_eq!(
        execute_script(b"backup", ScriptRun::TimedOut),
        ScriptResponse {
            status: 500,
            json: false,
            body: b"Failed to execute backup: timed out".to_vec(),
        }
    );
}
