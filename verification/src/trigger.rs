//! Trigger logic: given a server's kind and a file event, decide whether the
//! enabling command is owed for the file's package and, if so, produce the
//! request to dispatch.
//!
//! The decision runs synchronously and never fails; all it ever does to the
//! world is record the claim. Dispatching the returned request (and observing
//! its outcome, which is logged and never acted on) is the host's job, off
//! the calling thread, so the caller never blocks on a server round-trip.

use vstd::prelude::*;
use vstd::string::StringExecFns;

use crate::paths::{parent_dir, parent_of};
use crate::registry::{after_claim, after_reset, claim_granted, ActivationTracker};

verus! {

/// The kind identity of the tracked server: the Go tooling server.
pub open spec fn gopls_name() -> Seq<char> {
    "gopls"@
}

/// The fixed command, understood by the tracked server kind, that enables the
/// extended diagnostics for a package.
pub open spec fn gc_details_command() -> Seq<char> {
    "gopls.gc_details"@
}

/// The kind identity of a language server, a stable comparable name.
pub struct ServerName {
    name: String,
}

impl View for ServerName {
    type V = Seq<char>;

    closed spec fn view(&self) -> Seq<char> {
        self.name@
    }
}

impl ServerName {
    pub fn new(name: String) -> (server_name: ServerName)
        ensures
            server_name@ == name@,
    {
        ServerName { name }
    }

    /// The name of the tracked server kind.
    pub fn gopls() -> (server_name: ServerName)
        ensures
            server_name@ == gopls_name(),
    {
        ServerName { name: String::from_str("gopls") }
    }

    /// Whether this is the tracked server kind.
    pub fn is_gopls(&self) -> (matches_tracked: bool)
        ensures
            matches_tracked == (self@ == gopls_name()),
    {
        let gopls = String::from_str("gopls");
        self.name == gopls
    }
}

/// One command request to submit to a server: a fixed command name and its
/// argument list.
pub struct CommandRequest {
    pub command: String,
    pub arguments: Vec<String>,
}

/// Primary entry point, called whenever a file becomes associated with a
/// server instance: decides eligibility, records the claim, and when the
/// claim is granted yields the one request to dispatch.
///
/// A server of another kind, or a file path without a derivable package
/// directory, is a silent no-op that leaves the tracker untouched. For an
/// eligible file, the package is claimed; a request is returned exactly when
/// the package had not been claimed before, and it carries the fixed command
/// name with the file's resource identifier as its sole argument.
pub fn enable_gc_details_for_buffer(
    tracker: &mut ActivationTracker,
    server_name: &ServerName,
    file_uri: &str,
    file_path: &str,
) -> (request: Option<CommandRequest>)
    requires
        old(tracker).wf(),
    ensures
        final(tracker).wf(),
        server_name@ != gopls_name() ==> *final(tracker) == *old(tracker) && request is None,
        server_name@ == gopls_name() && parent_of(file_path@) is None ==> *final(tracker) == *old(
            tracker,
        ) && request is None,
        server_name@ == gopls_name() ==> (parent_of(file_path@) matches Some(package) ==> {
            &&& final(tracker).is_initialized()
            &&& final(tracker)@ == after_claim(old(tracker)@, package)
            &&& (request is Some <==> claim_granted(old(tracker)@, package))
            &&& (request matches Some(command_request) ==> {
                &&& command_request.command@ == gc_details_command()
                &&& command_request.arguments@.len() == 1
                &&& command_request.arguments@[0]@ == file_uri@
            })
        }),
{
    if !server_name.is_gopls() {
        return None;
    }
    let package = match parent_dir(file_path) {
        Some(directory) => directory,
        None => {
            return None;
        },
    };
    tracker.ensure_initialized();
    if tracker.try_claim(&package) {
        let mut arguments: Vec<String> = Vec::new();
        arguments.push(file_uri.to_owned());
        Some(CommandRequest { command: String::from_str("gopls.gc_details"), arguments })
    } else {
        None
    }
}

/// Registration hook: a server of the tracked kind announcing itself ensures
/// the registry exists, independent of any file event; claimed keys are
/// never affected, and servers of other kinds are ignored.
pub fn register_notifications(tracker: &mut ActivationTracker, server_name: &ServerName)
    requires
        old(tracker).wf(),
    ensures
        final(tracker).wf(),
        final(tracker)@ == old(tracker)@,
        server_name@ == gopls_name() ==> final(tracker).is_initialized(),
        server_name@ != gopls_name() ==> *final(tracker) == *old(tracker),
        old(tracker).is_initialized() ==> *final(tracker) == *old(tracker),
{
    if !server_name.is_gopls() {
        return;
    }
    tracker.ensure_initialized();
}

/// Teardown hook: a server of the tracked kind going down resets the
/// registry, so a replacement instance can receive fresh activation signals
/// for the same packages. The registry object, once created, survives the
/// reset; servers of other kinds are ignored.
pub fn clear_state_for_server(tracker: &mut ActivationTracker, server_name: &ServerName)
    requires
        old(tracker).wf(),
    ensures
        final(tracker).wf(),
        final(tracker).is_initialized() == old(tracker).is_initialized(),
        server_name@ == gopls_name() ==> final(tracker)@ == after_reset(old(tracker)@),
        server_name@ != gopls_name() ==> *final(tracker) == *old(tracker),
{
    if server_name.is_gopls() {
        tracker.reset();
    }
}

} // verus!
