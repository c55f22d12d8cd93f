//! The accept loop: one connection at a time, each served to its end before
//! the next is accepted; a connection that fails is let go, a listener that
//! fails ends the loop.

use crate::address::BoundAddress;
use crate::connection::{
    read_and_write, ChannelAction, ChannelActionView, ChannelEvent, ChannelEventView,
    ConnectionContext, ConnectionContextView,
};
use crate::error::{AcceptError, IoError, OsError};
use crate::handle::{SocketHandle, SocketHandleView};
use vstd::prelude::*;

verus! {

/// What happened to the request that the loop made last.
#[derive(Debug, PartialEq, Eq)]
pub enum LoopEvent {
    /// A connection from this peer was accepted.
    Accepted(BoundAddress),
    /// The platform failed to accept.
    AcceptFailed(OsError),
    /// The channel of the connection in service answered.
    Channel(ChannelEvent),
    /// The channel of the connection in service was released.
    Released,
}

/// A [`LoopEvent`] as contracts see it.
pub enum LoopEventView {
    Accepted(BoundAddress),
    AcceptFailed(OsError),
    Channel(ChannelEventView),
    Released,
}

impl View for LoopEvent {
    type V = LoopEventView;

    open spec fn view(&self) -> LoopEventView {
        match *self {
            LoopEvent::Accepted(peer) => LoopEventView::Accepted(peer),
            LoopEvent::AcceptFailed(cause) => LoopEventView::AcceptFailed(cause),
            LoopEvent::Channel(event) => LoopEventView::Channel(event@),
            LoopEvent::Released => LoopEventView::Released,
        }
    }
}

/// What the loop asks its caller to do next.
#[derive(Debug, PartialEq, Eq)]
pub enum LoopAction {
    /// Wait for the next connection.
    Accept,
    /// Read once from the connection in service, at most `capacity` bytes.
    Read { capacity: usize },
    /// Write these bytes to the connection in service, or as many of them as
    /// its channel takes.
    Write { bytes: Vec<u8> },
    /// Release the channel of the connection in service, whose handler has
    /// returned this; a failure is to be reported and goes no further.
    Release(Result<(), IoError>),
    /// Stop serving and hand this error to whoever started the loop.
    Stop(AcceptError),
}

/// A [`LoopAction`] as contracts see it.
pub enum LoopActionView {
    Accept,
    Read { capacity: usize },
    Write { bytes: Seq<u8> },
    Release(Result<(), IoError>),
    Stop(AcceptError),
}

impl View for LoopAction {
    type V = LoopActionView;

    open spec fn view(&self) -> LoopActionView {
        match *self {
            LoopAction::Accept => LoopActionView::Accept,
            LoopAction::Read { capacity } => LoopActionView::Read { capacity },
            LoopAction::Write { bytes } => LoopActionView::Write { bytes: bytes@ },
            LoopAction::Release(result) => LoopActionView::Release(result),
            LoopAction::Stop(error) => LoopActionView::Stop(error),
        }
    }
}

/// What the loop is doing.
pub enum LoopStateView {
    /// It waits for a connection.
    Waiting,
    /// It serves this connection.
    Serving(ConnectionContextView),
    /// It has ended with this error.
    Stopped(AcceptError),
}

/// An [`AcceptLoop`] as contracts see it.
pub struct AcceptLoopView {
    pub listener: SocketHandleView,
    pub state: LoopStateView,
}

impl AcceptLoopView {
    /// What every loop satisfies, whatever events it went through.
    pub open spec fn well_formed(self) -> bool {
        &&& self.listener.well_formed()
        &&& self.listener.phase is Accepting
        &&& self.state matches LoopStateView::Serving(context) ==> context.well_formed()
    }

    /// The loop at its start, on a listening handle.
    pub open spec fn start(listener: SocketHandleView) -> AcceptLoopView {
        AcceptLoopView { listener: listener.accepting(), state: LoopStateView::Waiting }
    }

    /// What the loop asks for next. It asks for a connection only while it
    /// serves none.
    pub open spec fn action(self) -> LoopActionView {
        match self.state {
            LoopStateView::Waiting => LoopActionView::Accept,
            LoopStateView::Serving(context) => match context.action() {
                ChannelActionView::Read { capacity } => LoopActionView::Read { capacity },
                ChannelActionView::Write { bytes } => LoopActionView::Write { bytes },
                ChannelActionView::Return(result) => LoopActionView::Release(result),
            },
            LoopStateView::Stopped(error) => LoopActionView::Stop(error),
        }
    }

    /// The loop after `event`. An event that is no answer to what the loop
    /// asked for changes nothing.
    pub open spec fn step(self, event: LoopEventView) -> AcceptLoopView {
        match (self.state, event) {
            (LoopStateView::Waiting, LoopEventView::Accepted(peer)) => AcceptLoopView {
                state: LoopStateView::Serving(ConnectionContextView::fresh(peer)),
                ..self
            },
            (LoopStateView::Waiting, LoopEventView::AcceptFailed(cause)) => AcceptLoopView {
                state: LoopStateView::Stopped(AcceptError::Os(cause)),
                ..self
            },
            (LoopStateView::Serving(context), LoopEventView::Channel(event)) => AcceptLoopView {
                state: LoopStateView::Serving(context.step(event)),
                ..self
            },
            (LoopStateView::Serving(context), LoopEventView::Released) => if context.action() is Return {
                AcceptLoopView { state: LoopStateView::Waiting, ..self }
            } else {
                self
            },
            _ => self,
        }
    }

    /// Whether `event` makes the loop take a new connection into service.
    pub open spec fn takes(self, event: LoopEventView) -> bool {
        self.state is Waiting && event is Accepted
    }

    /// Whether `event` makes the loop let go of the connection in service.
    pub open spec fn lets_go(self, event: LoopEventView) -> bool {
        self.state is Serving && event is Released && self.action() is Release
    }

    /// Whether the loop has a connection in service, as a number.
    pub open spec fn in_service(self) -> nat {
        if self.state is Serving {
            1
        } else {
            0
        }
    }

    /// The loop after a run of events, the first of them first.
    pub open spec fn run(self, events: Seq<LoopEventView>) -> AcceptLoopView
        decreases events.len(),
    {
        if events.len() == 0 {
            self
        } else {
            self.step(events.first()).run(events.drop_first())
        }
    }

    /// How many connections the loop takes into service in a run of events.
    pub open spec fn taken(self, events: Seq<LoopEventView>) -> nat
        decreases events.len(),
    {
        if events.len() == 0 {
            0
        } else {
            let count: nat = if self.takes(events.first()) {
                1
            } else {
                0
            };
            count + self.step(events.first()).taken(events.drop_first())
        }
    }

    /// How many connections the loop lets go of in a run of events.
    pub open spec fn let_go(self, events: Seq<LoopEventView>) -> nat
        decreases events.len(),
    {
        if events.len() == 0 {
            0
        } else {
            let count: nat = if self.lets_go(events.first()) {
                1
            } else {
                0
            };
            count + self.step(events.first()).let_go(events.drop_first())
        }
    }
}

#[derive(Debug)]
enum LoopState {
    Waiting,
    Serving(ConnectionContext),
    Stopped(AcceptError),
}

impl View for LoopState {
    type V = LoopStateView;

    closed spec fn view(&self) -> LoopStateView {
        match *self {
            LoopState::Waiting => LoopStateView::Waiting,
            LoopState::Serving(context) => LoopStateView::Serving(context@),
            LoopState::Stopped(error) => LoopStateView::Stopped(error),
        }
    }
}

/// The accept loop of one listener. It owns the handle of the listener and,
/// while a connection is in service, the context of that connection.
#[derive(Debug)]
pub struct AcceptLoop {
    listener: SocketHandle,
    state: LoopState,
}

impl View for AcceptLoop {
    type V = AcceptLoopView;

    closed spec fn view(&self) -> AcceptLoopView {
        AcceptLoopView { listener: self.listener@, state: self.state@ }
    }
}

impl AcceptLoop {
    #[verifier::type_invariant]
    closed spec fn loop_holds(&self) -> bool {
        self@.well_formed()
    }

    /// Starts the loop on `listener`, which must be listening.
    pub fn new(listener: SocketHandle) -> (result: Result<AcceptLoop, AcceptError>)
        ensures
            match listener@.accept_refusal() {
                Some(refusal) => result == Err::<AcceptLoop, AcceptError>(refusal),
                None => result matches Ok(server) && server@ == AcceptLoopView::start(listener@)
                    && server@.well_formed(),
            },
    {
        match listener.accept_refusal() {
            Some(refusal) => Err(refusal),
            None => Ok(AcceptLoop { listener: listener.into_accepting(), state: LoopState::Waiting }),
        }
    }

    /// The handle of the listener.
    pub fn listener(&self) -> (listener: &SocketHandle)
        ensures
            listener@ == self@.listener,
    {
        &self.listener
    }

    /// The connection in service, if there is one.
    pub fn serving(&self) -> (context: Option<&ConnectionContext>)
        ensures
            match self@.state {
                LoopStateView::Serving(serving) => context matches Some(context) && context@
                    == serving,
                _ => context is None,
            },
    {
        match &self.state {
            LoopState::Serving(context) => Some(context),
            _ => None,
        }
    }

    /// What the loop asks its caller to do next.
    pub fn action(&self) -> (action: LoopAction)
        ensures
            action@ == self@.action(),
    {
        match &self.state {
            LoopState::Waiting => LoopAction::Accept,
            LoopState::Serving(context) => match context.action() {
                ChannelAction::Read { capacity } => LoopAction::Read { capacity },
                ChannelAction::Write { bytes } => LoopAction::Write { bytes },
                ChannelAction::Return(result) => LoopAction::Release(result),
            },
            LoopState::Stopped(error) => LoopAction::Stop(*error),
        }
    }
}

/// Takes the accept loop one step further: `event` is what came of the action
/// that `server` asked for.
pub fn accept_connections(server: AcceptLoop, event: LoopEvent) -> (next: AcceptLoop)
    ensures
        next@ == server@.step(event@),
        next@.well_formed(),
{
    proof {
        use_type_invariant(&server);
    }
    let AcceptLoop { listener, state } = server;
    match state {
        LoopState::Waiting => match event {
            LoopEvent::Accepted(peer) => AcceptLoop {
                listener,
                state: LoopState::Serving(ConnectionContext::new(peer)),
            },
            LoopEvent::AcceptFailed(cause) => AcceptLoop {
                listener,
                state: LoopState::Stopped(AcceptError::Os(cause)),
            },
            _ => AcceptLoop { listener, state: LoopState::Waiting },
        },
        LoopState::Serving(context) => match event {
            LoopEvent::Channel(event) => AcceptLoop {
                listener,
                state: LoopState::Serving(read_and_write(context, event)),
            },
            LoopEvent::Released => {
                if context.has_returned() {
                    AcceptLoop { listener, state: LoopState::Waiting }
                } else {
                    AcceptLoop { listener, state: LoopState::Serving(context) }
                }
            },
            _ => AcceptLoop { listener, state: LoopState::Serving(context) },
        },
        LoopState::Stopped(error) => AcceptLoop { listener, state: LoopState::Stopped(error) },
    }
}

/// Every event keeps a loop well formed, and leaves the handle of its
/// listener as it is.
pub proof fn lemma_loop_keeps_well_formed(server: AcceptLoopView, event: LoopEventView)
    requires
        server.well_formed(),
    ensures
        server.step(event).well_formed(),
        server.step(event).listener == server.listener,
{
}

/// A loop starts only on a listening handle, hence on a stream socket that
/// was bound, and starts by asking for a connection.
pub proof fn lemma_loop_starts_by_accepting(listener: SocketHandleView)
    requires
        listener.well_formed(),
    ensures
        listener.accept_refusal() is None <==> listener.phase is Listening,
        listener.phase is Listening ==> {
            &&& listener.requested is Some
            &&& listener.socket_type is Stream
            &&& AcceptLoopView::start(listener).well_formed()
            &&& AcceptLoopView::start(listener).action() == LoopActionView::Accept
        },
{
}

/// One connection at a time: the loop asks for a connection exactly while
/// it serves none. While one is in service, a connection or an accept
/// failure that is reported all the same changes nothing, and the loop goes
/// back to waiting only when the channel of that connection is released
/// after its handler has returned.
pub proof fn lemma_one_connection_at_a_time(server: AcceptLoopView, event: LoopEventView)
    ensures
        server.action() is Accept <==> server.state is Waiting,
        server.state is Serving && (event is Accepted || event is AcceptFailed) ==> server.step(
            event,
        ) == server,
        server.state is Serving && server.step(event).state is Waiting ==> event is Released
            && server.state->Serving_0.action() is Return,
{
}

/// A failure on a connection is never fatal: no event that reaches the loop
/// while a connection is in service stops it. Where the handler has failed,
/// the loop asks for the release of the channel with that failure, and for
/// the next connection once the channel is released.
pub proof fn lemma_connection_failure_is_not_fatal(server: AcceptLoopView, event: LoopEventView)
    requires
        server.state is Serving,
    ensures
        !(server.step(event).state is Stopped),
        server.state->Serving_0.action() matches ChannelActionView::Return(result) ==> {
            &&& server.action() == LoopActionView::Release(result)
            &&& server.step(LoopEventView::Released).action() == LoopActionView::Accept
        },
{
}

/// A failure to accept is fatal: the loop stops with the platform's error,
/// asks for nothing but to hand that error on, and no later event revives it.
/// Nothing else stops a loop.
pub proof fn lemma_accept_failure_is_fatal(
    server: AcceptLoopView,
    cause: OsError,
    event: LoopEventView,
)
    ensures
        server.state is Waiting ==> {
            let stopped = server.step(LoopEventView::AcceptFailed(cause));
            &&& stopped.action() == LoopActionView::Stop(AcceptError::Os(cause))
            &&& stopped.step(event) == stopped
        },
        server.state is Stopped ==> server.step(event) == server,
        server.step(event).state is Stopped && !(server.state is Stopped) ==> server.state is Waiting
            && event is AcceptFailed,
{
}

/// Connections are served in turn: over any run of events, the connections
/// taken into service are as many as those let go, and one more where one
/// is in service at the end. So each is let go before the next is taken.
pub proof fn lemma_connections_are_served_in_turn(
    server: AcceptLoopView,
    events: Seq<LoopEventView>,
)
    ensures
        server.in_service() + server.taken(events) == server.let_go(events) + server.run(
            events,
        ).in_service(),
    decreases events.len(),
{
    if events.len() > 0 {
        lemma_connections_are_served_in_turn(server.step(events.first()), events.drop_first());
    }
}

} // verus!
