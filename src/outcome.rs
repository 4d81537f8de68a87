//! What the helpers decide from the backend's answers: whether an object was
//! created, whether a compile or link succeeded, and which text reports a
//! failure.
use vstd::prelude::*;

verus! {

/// The kinds of backend object that the helpers ask for.
#[derive(Clone, Copy, Debug, PartialEq, Eq, Structural)]
pub enum GlObject {
    Buffer,
    Shader,
    Program,
}

/// The error text returned when the backend refuses to create an object.
pub open spec fn creation_failure(kind: GlObject) -> Seq<char> {
    match kind {
        GlObject::Buffer => "Failed to create WebGlBuffer"@,
        GlObject::Shader => "Failed to create WebGlShader"@,
        GlObject::Program => "Failed to create WebGlProgram"@,
    }
}

/// The error text returned when a compile or link fails and the backend has
/// no log to give.
pub open spec fn unknown_failure(kind: GlObject) -> Seq<char> {
    match kind {
        GlObject::Buffer => "Unknown error creating WebGlBuffer"@,
        GlObject::Shader => "Unknown error creating WebGlShader"@,
        GlObject::Program => "Unknown error creating WebGlProgram"@,
    }
}

/// The diagnostic for a failed compile or link: the backend's log where it
/// gave some text, the generic text otherwise. It is never empty.
pub open spec fn diagnostic_text(kind: GlObject, log: Option<String>) -> Seq<char> {
    match log {
        Some(text) if text@.len() > 0 => text@,
        _ => unknown_failure(kind),
    }
}

/// A failed compile or link always reports some text: the backend's log, or
/// the generic text where the log is missing or empty.
pub proof fn lemma_diagnostic_not_empty(kind: GlObject, log: Option<String>)
    ensures
        diagnostic_text(kind, log).len() > 0,
{
    reveal_strlit("Unknown error creating WebGlBuffer");
    reveal_strlit("Unknown error creating WebGlShader");
    reveal_strlit("Unknown error creating WebGlProgram");
}

/// A status query counts as success only when it answered the boolean `true`.
pub open spec fn status_ok(status: Option<bool>) -> bool {
    status == Some(true)
}

fn creation_failure_message(kind: GlObject) -> (r: String)
    ensures
        r@ == creation_failure(kind),
{
    match kind {
        GlObject::Buffer => "Failed to create WebGlBuffer".to_owned(),
        GlObject::Shader => "Failed to create WebGlShader".to_owned(),
        GlObject::Program => "Failed to create WebGlProgram".to_owned(),
    }
}

fn unknown_failure_message(kind: GlObject) -> (r: String)
    ensures
        r@ == unknown_failure(kind),
{
    match kind {
        GlObject::Buffer => "Unknown error creating WebGlBuffer".to_owned(),
        GlObject::Shader => "Unknown error creating WebGlShader".to_owned(),
        GlObject::Program => "Unknown error creating WebGlProgram".to_owned(),
    }
}

/// Turns the backend's answer to a create request into a result: the object
/// itself, or the error that names the kind it refused to create.
pub fn created<T>(obj: Option<T>, kind: GlObject) -> (r: Result<T, String>)
    ensures
        match obj {
            Some(o) => r == Ok::<T, String>(o),
            None => r matches Err(e) && e@ == creation_failure(kind),
        },
{
    match obj {
        Some(o) => Ok(o),
        None => Err(creation_failure_message(kind)),
    }
}

/// Reads a compile or link status: anything but a boolean `true` is failure.
pub fn succeeded(status: Option<bool>) -> (r: bool)
    ensures
        r == status_ok(status),
{
    status.unwrap_or(false)
}

/// The error text for a failed compile or link of an object of `kind`.
pub fn diagnostic(kind: GlObject, log: Option<String>) -> (r: String)
    ensures
        r@ == diagnostic_text(kind, log),
{
    match log {
        Some(text) => {
            if text.as_str().is_empty() {
                unknown_failure_message(kind)
            } else {
                text
            }
        },
        None => unknown_failure_message(kind),
    }
}

/// Settles a compile or link of `obj` from the status the backend reported
/// and the log it gave: the object where the status read `true`, the
/// diagnostic otherwise.
pub fn checked<T>(obj: T, kind: GlObject, status: Option<bool>, log: Option<String>) -> (r: Result<
    T,
    String,
>)
    ensures
        status_ok(status) ==> r == Ok::<T, String>(obj),
        !status_ok(status) ==> (r matches Err(e) && e@ == diagnostic_text(kind, log)),
{
    if succeeded(status) {
        Ok(obj)
    } else {
        Err(diagnostic(kind, log))
    }
}

} // verus!
