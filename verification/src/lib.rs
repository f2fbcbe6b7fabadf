//! The dispatch engine of a mock HTTP server for tests: a pool of ports,
//! handlers that describe the requests a test expects, the queue they wait
//! in, and the life of one server from setup to teardown.
//!
//! The engine decides; it does not listen. Whoever owns the listener hands
//! each request to [`HttpTestContext::handle`] and sends back the response,
//! fires the shutdown signal when [`HttpTestContext::begin_teardown`] says
//! so, and calls [`HttpTestContext::finish_teardown`] once the listener is
//! closed.

pub mod handler;
pub mod headers;
pub mod message;
pub mod ports;
pub mod queue;
pub mod text;

pub use crate::ports::{release_port, take_port};
pub use crate::queue::run_service;

use crate::handler::{Handler, HandlerView};
use crate::message::{Request, Response};
use crate::ports::{PoolState, PortPool};
use crate::queue::{after_next, next_handler, HandlerQueue};
use crate::text::{format_uri, parse_port, port_of, uri_text};
use hyper::http::uri::InvalidUri;
use hyper::Uri;
use vstd::prelude::*;

verus! {

/// The environment variable that names a fixed port for the server.
pub const TOKIOTEST_HTTP_PORT_ENV: &'static str = "TOKIOTEST_HTTP_PORT";

/// hyper's `Uri`, carried through as it is.
#[verifier::external_type_specification]
#[verifier::external_body]
pub struct ExUri(Uri);

/// The error of hyper's URI parser, carried through as it is.
#[verifier::external_type_specification]
#[verifier::external_body]
pub struct ExInvalidUri(InvalidUri);

/// The URI that hyper reads from `text`, or `None` where it refuses the text.
pub uninterp spec fn parsed_uri(text: Seq<char>) -> Option<Uri>;

/// `Uri::from_str`: the URI read from `text`, or the error.
#[verifier::external_body]
fn parse_uri(text: &str) -> (parsed: Result<Uri, InvalidUri>)
    ensures
        parsed.ok() == parsed_uri(text@),
{
    text.parse::<Uri>()
}

/// Why a server could not be set up.
#[derive(Clone, Copy, Debug, PartialEq, Eq, Structural)]
pub enum SetupError {
    /// No port of the pool is free.
    PoolExhausted,
    /// A fixed port was asked for, and its text does not write a port.
    InvalidPortOverride,
}

/// Where a server is in its life. It only moves forward: from `Running` to
/// `Draining` when teardown begins, from `Draining` to `Stopped` when the
/// listener is closed.
#[derive(Clone, Copy, Debug, PartialEq, Eq, Structural)]
pub enum ServerState {
    /// The server accepts connections.
    Running,
    /// The shutdown signal was fired: no new connection is accepted, and the
    /// requests in flight are answered.
    Draining,
    /// The listener is closed and the port is given back.
    Stopped,
}

impl ServerState {
    /// How far a server is in its life.
    pub open spec fn rank(self) -> nat {
        match self {
            ServerState::Running => 0,
            ServerState::Draining => 1,
            ServerState::Stopped => 2,
        }
    }

    /// The state after teardown has begun: a running server drains, any
    /// other stays as it is.
    pub open spec fn after_begin_teardown(self) -> ServerState {
        match self {
            ServerState::Running => ServerState::Draining,
            _ => self,
        }
    }

    /// The state after the listener has closed: a draining server has
    /// stopped, any other stays as it is.
    pub open spec fn after_finish_teardown(self) -> ServerState {
        match self {
            ServerState::Draining => ServerState::Stopped,
            _ => self,
        }
    }
}

/// A server only moves forward, one state at a time, and a stopped server
/// stays stopped: there is no restart.
pub proof fn lemma_state_moves_forward(state: ServerState)
    ensures
        state.rank() <= state.after_begin_teardown().rank() <= state.rank() + 1,
        state.rank() <= state.after_finish_teardown().rank() <= state.rank() + 1,
        state.after_begin_teardown().after_begin_teardown() == state.after_begin_teardown(),
        state.after_finish_teardown().after_finish_teardown() == state.after_finish_teardown(),
        ServerState::Stopped.after_begin_teardown() == ServerState::Stopped,
        ServerState::Stopped.after_finish_teardown() == ServerState::Stopped,
        ServerState::Running.after_begin_teardown().after_finish_teardown()
            == ServerState::Stopped,
{
}

/// What one server instance is.
pub struct ContextView {
    pub port: u16,
    pub pooled: bool,
    pub state: ServerState,
    pub waiting: Seq<HandlerView>,
}

/// One server instance: its port, the handlers that wait for requests, and
/// where it is in its life.
pub struct HttpTestContext {
    port: u16,
    handlers: HandlerQueue,
    pooled: bool,
    state: ServerState,
}

impl View for HttpTestContext {
    type V = ContextView;

    closed spec fn view(&self) -> ContextView {
        ContextView {
            port: self.port,
            pooled: self.pooled,
            state: self.state,
            waiting: self.handlers@,
        }
    }
}

/// The pool after a server on `port` has been torn down: the port is back if
/// it came from the pool and is checked out; otherwise the pool is untouched.
pub open spec fn pool_after_teardown(pool: PoolState, port: u16, pooled: bool) -> PoolState {
    if pooled && pool.checked_out(port) {
        pool.with(port)
    } else {
        pool
    }
}

/// Teardown gives the port back: a port that a server took from the pool is
/// free again once the server is torn down, so that the next server can take
/// it, and the pool is what it was before the server was set up.
pub proof fn lemma_teardown_frees_port(pool: PoolState, port: u16)
    requires
        pool.wf(),
        pool.free.contains(port),
    ensures
        pool_after_teardown(pool.without(port), port, true).free.contains(port),
        pool_after_teardown(pool.without(port), port, true) == pool,
{
}

/// A server on a fixed port leaves the pool alone at teardown.
pub proof fn lemma_fixed_port_bypasses_pool(pool: PoolState, port: u16)
    ensures
        pool_after_teardown(pool, port, false) == pool,
{
}

impl HttpTestContext {
    /// Chooses the port and makes the instance, with an empty queue, in the
    /// state `Running`. With `port_override` the port is the one that the
    /// text writes and the pool is left alone; without it the port is taken
    /// from the pool.
    pub fn setup(port_override: Option<&str>, pool: &mut PortPool) -> (made: Result<
        HttpTestContext,
        SetupError,
    >)
        requires
            old(pool).wf(),
        ensures
            final(pool).wf(),
            match made {
                Ok(context) => {
                    &&& context@.state == ServerState::Running
                    &&& context@.waiting == Seq::<HandlerView>::empty()
                    &&& context@.pooled == port_override.is_none()
                    &&& match port_override {
                        Some(text) => port_of(text@) == Some(context@.port) && final(pool)@ == old(
                            pool,
                        )@,
                        None => old(pool)@.is_next(context@.port) && final(pool)@ == old(
                            pool,
                        )@.without(context@.port),
                    }
                },
                Err(error) => {
                    &&& final(pool)@ == old(pool)@
                    &&& match port_override {
                        Some(text) => error == SetupError::InvalidPortOverride && port_of(text@)
                            is None,
                        None => error == SetupError::PoolExhausted && old(pool)@.free
                            =~= Set::empty(),
                    }
                },
            },
    {
        let (port, pooled) = match port_override {
            Some(text) => match parse_port(text) {
                Some(port) => (port, false),
                None => {
                    return Err(SetupError::InvalidPortOverride);
                },
            },
            None => match take_port(pool) {
                Ok(port) => (port, true),
                Err(_) => {
                    return Err(SetupError::PoolExhausted);
                },
            },
        };
        Ok(HttpTestContext { port, handlers: HandlerQueue::new(), pooled, state: ServerState::Running })
    }

    /// The port that the server listens on.
    pub fn port(&self) -> (port: u16)
        ensures
            port == self@.port,
    {
        self.port
    }

    /// The handlers that wait for requests.
    pub fn handlers(&self) -> (handlers: &HandlerQueue)
        ensures
            handlers@ == self@.waiting,
    {
        &self.handlers
    }

    /// Whether the port was taken from the pool.
    pub fn is_pooled(&self) -> (pooled: bool)
        ensures
            pooled == self@.pooled,
    {
        self.pooled
    }

    /// Where the server is in its life.
    pub fn state(&self) -> (state: ServerState)
        ensures
            state == self@.state,
    {
        self.state
    }

    /// Registers `handler` behind those that wait.
    pub fn add(&mut self, handler: Handler)
        ensures
            final(self)@ == (ContextView { waiting: old(self)@.waiting.push(handler@), ..old(self)@ }),
    {
        self.handlers.register(handler);
    }

    /// The text of the URI of `path` on this server.
    pub fn uri_text(&self, path: &str) -> (text: String)
        ensures
            text@ == uri_text(self@.port, path@),
    {
        format_uri(self.port, path)
    }

    /// The URI of `path` on this server, or `None` where hyper refuses its
    /// text as a URI.
    pub fn uri(&self, path: &str) -> (uri: Option<Uri>)
        ensures
            uri == parsed_uri(uri_text(self@.port, path@)),
    {
        let text = format_uri(self.port, path);
        parse_uri(text.as_str()).ok()
    }

    /// Removes the head handler and returns it, for the request that has
    /// just arrived. With no handler waiting the fallback is returned.
    pub fn next_or_default(&mut self) -> (handler: Handler)
        ensures
            handler@ == next_handler(old(self)@.waiting),
            final(self)@ == (ContextView { waiting: after_next(old(self)@.waiting), ..old(self)@ }),
    {
        self.handlers.next_or_default()
    }

    /// Answers one request from the head of the queue, and uses that
    /// handler up.
    pub fn handle(&mut self, request: &Request) -> (response: Response)
        ensures
            response@ == next_handler(old(self)@.waiting).respond(request@),
            final(self)@ == (ContextView { waiting: after_next(old(self)@.waiting), ..old(self)@ }),
    {
        self.handlers.dispatch(request)
    }

    /// Begins teardown. Returns whether the shutdown signal is to be fired
    /// now: `true` the first time, on a running server, which then drains;
    /// `false` on a server that drains or has stopped, which stays as it is.
    pub fn begin_teardown(&mut self) -> (fire: bool)
        ensures
            fire == (old(self)@.state == ServerState::Running),
            final(self)@ == (ContextView {
                state: old(self)@.state.after_begin_teardown(),
                ..old(self)@
            }),
    {
        match self.state {
            ServerState::Running => {
                self.state = ServerState::Draining;
                true
            },
            _ => false,
        }
    }

    /// Ends teardown, once the listener is closed: a draining server stops,
    /// and its port goes back to the pool if it came from there. Returns
    /// whether a port went back. On a server that does not drain nothing
    /// happens.
    pub fn finish_teardown(&mut self, pool: &mut PortPool) -> (released: bool)
        requires
            old(pool).wf(),
        ensures
            final(pool).wf(),
            final(self)@ == (ContextView {
                state: old(self)@.state.after_finish_teardown(),
                ..old(self)@
            }),
            old(self)@.state == ServerState::Draining ==> {
                &&& final(pool)@ == pool_after_teardown(
                    old(pool)@,
                    old(self)@.port,
                    old(self)@.pooled,
                )
                &&& released == (old(self)@.pooled && old(pool)@.checked_out(old(self)@.port))
            },
            old(self)@.state != ServerState::Draining ==> final(pool)@ == old(pool)@ && !released,
    {
        match self.state {
            ServerState::Draining => {
                self.state = ServerState::Stopped;
                if self.pooled {
                    release_port(pool, self.port).is_ok()
                } else {
                    false
                }
            },
            _ => false,
        }
    }
}

} // verus!
