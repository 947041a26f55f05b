//! Running a script of the `scripts` directory and answering with what it
//! wrote.

use vstd::prelude::*;
use vstd::utf8::valid_utf8;
use crate::runtime::{Command, ProcessOutput};
use crate::text::{ascii, push_bytes, push_str, to_vec, views};

verus! {

/// The path of the script `name`.
pub open spec fn script_path(name: Seq<u8>) -> Seq<u8> {
    ascii("./scripts/") + name + ascii(".sh")
}

/// The arguments of a script: the one it is given, or none.
pub open spec fn script_args(args: Option<Seq<u8>>) -> Seq<Seq<u8>> {
    match args {
        Some(a) => seq![a],
        None => Seq::empty(),
    }
}

/// Builds the command that runs the script `name`, with one argument or none.
pub fn script_command(name: &[u8], args: Option<&[u8]>, timeout_secs: u64) -> (r: Command)
    ensures
        r.timeout_secs == timeout_secs,
        r.program@ == script_path(name@),
        views(r.args@) == script_args(
            match args {
                Some(a) => Some(a@),
                None => None,
            },
        ),
{
    proof {
        reveal_strlit("./scripts/");
        reveal_strlit(".sh");
    }
    let mut program: Vec<u8> = Vec::new();
    push_str(&mut program, "./scripts/");
    push_bytes(&mut program, name);
    push_str(&mut program, ".sh");
    let mut list: Vec<Vec<u8>> = Vec::new();
    match args {
        Some(a) => {
            list.push(to_vec(a));
        },
        None => {},
    }
    Command { program, args: list, timeout_secs }
}

/// How a script ended, or why it did not.
#[derive(Debug, PartialEq, Eq)]
pub enum ScriptRun {
    Exited(ProcessOutput),
    NotLaunched(Vec<u8>),
    TimedOut,
}

/// The answer to a request that ran a script.
#[derive(Debug, PartialEq, Eq)]
pub struct ScriptResponse {
    /// The HTTP status.
    pub status: u16,
    /// Whether the body is what the script wrote, to be taken as JSON, rather
    /// than a plain message.
    pub json: bool,
    pub body: Vec<u8>,
}

/// The answer to a request that ran a script, with its body as a byte string.
pub struct ScriptResponseView {
    pub status: u16,
    pub json: bool,
    pub body: Seq<u8>,
}

impl View for ScriptResponse {
    type V = ScriptResponseView;

    open spec fn view(&self) -> ScriptResponseView {
        ScriptResponseView { status: self.status, json: self.json, body: self.body@ }
    }
}

/// The answer for a script that ended: with status 200 and its output where it
/// succeeded, with status 500 and its error output where it failed. Output
/// that is not UTF-8 is not passed on: the answer is then status 500 with a
/// plain message. A script that did not run, or did not end in time, is
/// answered with status 500 and the reason.
pub open spec fn script_answer(name: Seq<u8>, run: ScriptRun) -> ScriptResponseView {
    match run {
        ScriptRun::NotLaunched(reason) => ScriptResponseView {
            status: 500,
            json: false,
            body: ascii("Failed to execute ") + name + ascii(": ") + reason@,
        },
        ScriptRun::TimedOut => ScriptResponseView {
            status: 500,
            json: false,
            body: ascii("Failed to execute ") + name + ascii(": timed out"),
        },
        ScriptRun::Exited(output) => if output.success {
            if valid_utf8(output.stdout@) {
                ScriptResponseView { status: 200, json: true, body: output.stdout@ }
            } else {
                ScriptResponseView { status: 500, json: false, body: ascii("Invalid UTF-8 in stdout") }
            }
        } else {
            if valid_utf8(output.stderr@) {
                ScriptResponseView { status: 500, json: true, body: output.stderr@ }
            } else {
                ScriptResponseView { status: 500, json: false, body: ascii("Invalid UTF-8 in stderr") }
            }
        },
    }
}

/// `core::str::from_utf8`, asked only whether it succeeds.
///
/// Trusted: that it succeeds exactly on the byte strings that are well-formed
/// UTF-8, as its documentation says.
#[verifier::external_body]
fn is_utf8(bytes: &[u8]) -> (r: bool)
    ensures
        r == valid_utf8(bytes@),
{
    core::str::from_utf8(bytes).is_ok()
}

/// Answers a request that ran the script `name`.
pub fn execute_script(name: &[u8], run: ScriptRun) -> (r: ScriptResponse)
    ensures
        r@ == script_answer(name@, run),
{
    proof {
        reveal_strlit("Failed to execute ");
        reveal_strlit(": ");
        reveal_strlit(": timed out");
        reveal_strlit("Invalid UTF-8 in stdout");
        reveal_strlit("Invalid UTF-8 in stderr");
    }
    match run {
        ScriptRun::NotLaunched(reason) => {
            let mut body: Vec<u8> = Vec::new();
            push_str(&mut body, "Failed to execute ");
            push_bytes(&mut body, name);
            push_str(&mut body, ": ");
            push_bytes(&mut body, reason.as_slice());
            ScriptResponse { status: 500, json: false, body }
        },
        ScriptRun::TimedOut => {
            let mut body: Vec<u8> = Vec::new();
            push_str(&mut body, "Failed to execute ");
            push_bytes(&mut body, name);
            push_str(&mut body, ": timed out");
            ScriptResponse { status: 500, json: false, body }
        },
        ScriptRun::Exited(output) => {
            if output.success {
                if is_utf8(output.stdout.as_slice()) {
                    ScriptResponse { status: 200, json: true, body: output.stdout }
                } else {
                    let mut body: Vec<u8> = Vec::new();
                    push_str(&mut body, "Invalid UTF-8 in stdout");
                    ScriptResponse { status: 500, json: false, body }
                }
            } else {
                if is_utf8(output.stderr.as_slice()) {
                    ScriptResponse { status: 500, json: true, body: output.stderr }
                } else {
                    let mut body: Vec<u8> = Vec::new();
                    push_str(&mut body, "Invalid UTF-8 in stderr");
                    ScriptResponse { status: 500, json: false, body }
                }
            }
        },
    }
}

} // verus!
