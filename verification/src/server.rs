use vstd::prelude::*;
use crate::address::Capabilities;
use crate::address::SocketUrl;
use crate::address::Transport;
use crate::address::resolve_spec;
use crate::error::ServerError;

verus! {

/// The lifecycle of a server: routes may only be registered while it is
/// `Configured`; `start` moves it through `Starting` to `Serving` when a
/// binder's parameters resolve, or to `Stopped` when they do not; and the
/// end of the active binder moves it from `Serving` to `Stopped`, the
/// terminal state.
#[derive(Debug, Clone, Copy, PartialEq, Eq, Structural)]
pub enum ServerState {
    /// The URL is set; routes are still mutable; no binder has run.
    Configured,
    /// Scheme dispatch is in progress.
    Starting,
    /// Exactly one transport binder is active.
    Serving,
    /// Terminal: the binder returned, or dispatch failed.
    Stopped,
}

/// Declares triggered::Trigger, the fire-once half of the shutdown pair,
/// as an opaque outside type.
#[verifier::external_type_specification]
#[verifier::external_body]
pub struct ExTrigger(triggered::Trigger);

/// Declares triggered::Listener, the clonable waiting half of the
/// shutdown pair, as an opaque outside type.
#[verifier::external_type_specification]
#[verifier::external_body]
pub struct ExListener(triggered::Listener);

/// Declares tonic::service::RoutesBuilder, the accumulating route table,
/// as an opaque outside type.
#[verifier::external_type_specification]
#[verifier::external_body]
pub struct ExRoutesBuilder(tonic::service::RoutesBuilder);

/// Relies on triggered::trigger: returns a connected pair. Firing the
/// trigger once resolves the listener and every clone of it, current or
/// future; further firings do nothing.
#[verifier::external_body]
fn new_shutdown_pair() -> (r: (triggered::Trigger, triggered::Listener)) {
    triggered::trigger()
}

/// Relies on tonic::service::RoutesBuilder::default: a route table with no
/// services registered yet.
#[verifier::external_body]
fn empty_routes() -> (r: tonic::service::RoutesBuilder) {
    tonic::service::RoutesBuilder::default()
}

/// What `start` reports when the server has already left `Configured`.
pub open spec fn already_started_message() -> Seq<char> {
    "server already started"@
}

/// A single RPC service host: one socket URL, one shutdown trigger and
/// listener pair, one mutable route table, and the lifecycle state that
/// guarantees at most one transport binder ever runs for it.
pub struct Server {
    /// The configuration URL that selects the transport binder.
    pub socket_url: SocketUrl,
    /// Which binders are available to dispatch to.
    pub capabilities: Capabilities,
    /// Fired, once, to stop the server; firing is idempotent.
    pub stop_trigger: triggered::Trigger,
    /// Resolves when the trigger fires; the active binder holds a clone.
    pub stop_listener: triggered::Listener,
    /// The registered request routes, mutable until `start`, then frozen.
    pub routes: tonic::service::RoutesBuilder,
    /// Where the server stands in its lifecycle.
    pub state: ServerState,
}

impl Server {
    /// A freshly configured server for the given URL: a new shutdown
    /// pair, an empty route table, every transport available, and no
    /// binder started.
    pub fn new(socket_url: SocketUrl) -> (r: Server)
        ensures
            r.socket_url == socket_url,
            r.capabilities == Capabilities::all_enabled(),
            r.state is Configured,
    {
        let (trigger, listener) = new_shutdown_pair();
        Server {
            socket_url,
            capabilities: Capabilities::default(),
            stop_trigger: trigger,
            stop_listener: listener,
            routes: empty_routes(),
            state: ServerState::Configured,
        }
    }

    /// Dispatches on the URL scheme: a `Configured` server resolves its
    /// URL into the parameters of exactly one transport binder and
    /// becomes `Serving`, or reports why it cannot and becomes `Stopped`.
    /// On any server that already left `Configured` the attempt fails
    /// with an `Io` error and changes nothing, so no second binder can be
    /// obtained for the same server. The caller runs the returned binder
    /// until the shutdown listener resolves, then calls `finish`.
    pub fn start(&mut self) -> (r: Result<Transport, ServerError>)
        ensures
            final(self).socket_url == old(self).socket_url,
            final(self).capabilities == old(self).capabilities,
            final(self).stop_trigger == old(self).stop_trigger,
            final(self).stop_listener == old(self).stop_listener,
            final(self).routes == old(self).routes,
            old(self).state is Configured ==> r == resolve_spec(
                old(self).socket_url,
                old(self).capabilities,
            ),
            old(self).state is Configured && r is Ok ==> final(self).state is Serving,
            old(self).state is Configured && r is Err ==> final(self).state is Stopped,
            !(old(self).state is Configured) ==> final(self).state == old(self).state && (
            r matches Err(e) && e matches ServerError::Io(m) && m@ == already_started_message()),
    {
        match self.state {
            ServerState::Configured => {},
            _ => {
                return Err(ServerError::Io("server already started".to_owned()));
            },
        }
        self.state = ServerState::Starting;
        let r = self.socket_url.resolve(&self.capabilities);
        match r {
            Ok(t) => {
                self.state = ServerState::Serving;
                Ok(t)
            },
            Err(e) => {
                self.state = ServerState::Stopped;
                Err(e)
            },
        }
    }

    /// Marks the end of the active binder: a `Serving` server becomes
    /// `Stopped`. In any other state there is no active binder and
    /// nothing changes.
    pub fn finish(&mut self)
        ensures
            final(self).socket_url == old(self).socket_url,
            final(self).capabilities == old(self).capabilities,
            final(self).stop_trigger == old(self).stop_trigger,
            final(self).stop_listener == old(self).stop_listener,
            final(self).routes == old(self).routes,
            old(self).state is Serving ==> final(self).state is Stopped,
            !(old(self).state is Serving) ==> final(self).state == old(self).state,
    {
        match self.state {
            ServerState::Serving => {
                self.state = ServerState::Stopped;
            },
            _ => {},
        }
    }
}

} // verus!
