//! The capture filter: synthesize the default port filter, or accept a
//! custom expression once the capture backend has dry-compiled it against a
//! detached context. An expression the backend rejected must never reach the
//! live session, so rejection is surfaced as a startup error naming the
//! expression and the backend's reason.

use vstd::prelude::*;
use vstd::string::StringExecFns;
use crate::text::{append_dec_u16, dec_str};

verus! {

/// A custom filter expression the capture backend refused, with the
/// backend's reason.
#[derive(Debug)]
pub struct FilterError {
    pub expression: String,
    pub reason: String,
}

/// The synthesized default filter: all UDP traffic touching the target port.
pub open spec fn default_filter_text(port: u16) -> Seq<char> {
    "udp port "@ + dec_str(port as int)
}

/// The startup error line for a refused custom filter expression.
pub open spec fn filter_error_text(expression: Seq<char>, reason: Seq<char>) -> Seq<char> {
    "Failed to compile custom-bpf '"@ + expression + "': "@ + reason
}

/// Build the synthesized default filter for the target port.
pub fn default_filter(port: u16) -> (s: String)
    ensures
        s@ == default_filter_text(port),
{
    let mut s = String::from_str("udp port ");
    append_dec_u16(&mut s, port);
    s
}

/// Decide the one active filter. Without a custom expression the synthesized
/// port filter is owed; with one, the expression stands or falls with the
/// backend's dry compile, whose outcome the caller hands in: success adopts
/// the expression exactly, failure reports it with the backend's reason.
pub fn resolve_filter(
    port: u16,
    custom: Option<String>,
    compile_result: Option<Result<(), String>>,
) -> (r: Result<String, FilterError>)
    requires
        custom is Some <==> compile_result is Some,
    ensures
        custom is None ==> (r matches Ok(s) && s@ == default_filter_text(port)),
        (custom matches Some(expr) && compile_result matches Some(c) && c is Ok) ==> (r matches Ok(
            s,
        ) && s@ == custom->0@),
        (custom matches Some(expr) && compile_result matches Some(c) && c matches Err(reason))
            ==> (r matches Err(e) && e.expression@ == custom->0@ && e.reason@
            == compile_result->0->Err_0@),
{
    match (custom, compile_result) {
        (Some(expression), Some(outcome)) => match outcome {
            Ok(_) => Ok(expression),
            Err(reason) => Err(FilterError { expression, reason }),
        },
        _ => Ok(default_filter(port)),
    }
}

/// Render a refused custom filter as its startup error line.
pub fn build_filter_error_line(e: &FilterError) -> (s: String)
    ensures
        s@ == filter_error_text(e.expression@, e.reason@),
{
    let mut s = String::from_str("Failed to compile custom-bpf '");
    s.append(e.expression.as_str());
    s.append("': ");
    s.append(e.reason.as_str());
    proof {
        assert(s@ =~= filter_error_text(e.expression@, e.reason@));
    }
    s
}

} // verus!
