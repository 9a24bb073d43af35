//! Shell sessions opened from the user interface: how the pod is attached,
//! how input is checked before it is sent, and the sessions' table.
use vstd::prelude::*;
use crate::ordering::views;
use crate::security::shell_validator::{
    rejection, sanitized_input, validation_error_text, ShellValidator,
    ValidationError,
};
use crate::table::KeyedTable;
use crate::text::{concat, owned};

verus! {

/// How a pod is attached for a shell: with standard input and output on a
/// terminal (standard error then goes to the output), in the named
/// container if any, running `command`.
#[derive(Debug)]
pub struct AttachPlan {
    pub stdin: bool,
    pub stdout: bool,
    pub stderr: bool,
    pub tty: bool,
    pub container: Option<String>,
    pub command: Vec<String>,
}

/// The attachment of a new shell session: a terminal with input and
/// output, the validator's initial command, in the named container.
pub fn shell_attach_plan(validator: &ShellValidator, container_name: Option<String>) -> (r: AttachPlan)
    ensures
        r.stdin && r.stdout && !r.stderr && r.tty,
        r.container == container_name,
        views(r.command@) == seq![
            "/bin/bash"@,
            "-c"@,
            "export TERM=xterm-256color; exec /bin/bash -i"@,
        ],
{
    AttachPlan {
        stdin: true,
        stdout: true,
        stderr: false,
        tty: true,
        container: container_name,
        command: validator.get_initial_command(),
    }
}

/// The error of an attachment that failed.
pub fn attach_failed(error: &str) -> (r: String)
    ensures
        r@ == "Failed to attach to pod: "@ + error@,
{
    concat("Failed to attach to pod: ", error)
}

/// What checking shell input of `len` bytes gives: the text passed on, or
/// the text of the refusal.
pub open spec fn input_check(max_len: nat, len: nat, input: Seq<char>) -> Result<Seq<char>, Seq<char>> {
    if len > max_len {
        Err(validation_error_text(ValidationError::InputTooLong))
    } else {
        match rejection(input) {
            Some(p) => Err("Dangerous pattern detected: "@ + p),
            None => Ok(sanitized_input(input)),
        }
    }
}

/// The input to send to the session `session_id`: it must pass the
/// validator, and the session must exist. Gives the session's handle and
/// the checked input.
pub fn route_shell_input<'a, H>(
    sessions: &'a KeyedTable<H>,
    validator: &ShellValidator,
    session_id: &str,
    data: &str,
) -> (r: Result<(&'a H, String), String>)
    ensures
        match input_check(validator.max_length(), data.len() as nat, data@) {
            Err(t) => r matches Err(m) && m@ == "Invalid shell input: "@ + t,
            Ok(text) => if sessions@.contains_key(session_id@) {
                r matches Ok((h, c)) && *h == sessions@[session_id@] && c@ == text
            } else {
                r matches Err(m) && m@ == "Session not found"@
            },
        },
{
    let checked = match validator.validate_input(data) {
        Ok(s) => s,
        Err(e) => return Err(concat("Invalid shell input: ", e.message().as_str())),
    };
    match sessions.get(session_id) {
        Some(h) => Ok((h, checked)),
        None => Err(owned("Session not found")),
    }
}

/// The error of input that could not be delivered.
pub fn send_failed(error: &str) -> (r: String)
    ensures
        r@ == "Failed to send input: "@ + error@,
{
    concat("Failed to send input: ", error)
}

/// Removes the session `session_id` and hands back its handle (its task is
/// then stopped); an unknown session is not found.
pub fn stop_pod_shell<H>(sessions: &mut KeyedTable<H>, session_id: &str) -> (r: Result<H, String>)
    ensures
        final(sessions)@ == old(sessions)@.remove(session_id@),
        match r {
            Ok(h) => old(sessions)@.contains_key(session_id@) && h == old(sessions)@[session_id@],
            Err(m) => !old(sessions)@.contains_key(session_id@) && m@ == "Session not found"@,
        },
{
    match sessions.remove(session_id) {
        Some(h) => Ok(h),
        None => Err(owned("Session not found")),
    }
}

} // verus!
