//! The exchange on one accepted connection: one bounded read, then the whole
//! of a fixed response, however many writes it takes.

use crate::address::BoundAddress;
use crate::error::{IoError, OsError};
use vstd::prelude::*;

verus! {

/// The most bytes that the one read of a connection takes.
pub const READ_CAPACITY: usize = 64;

/// The length of the response.
pub const RESPONSE_LEN: usize = 5;

/// The bytes that every connection is answered with: `world`.
pub open spec fn response() -> Seq<u8> {
    seq![0x77u8, 0x6fu8, 0x72u8, 0x6cu8, 0x64u8]
}

/// How far the exchange on a connection has come.
#[derive(Clone, Copy, Debug, PartialEq, Eq, Structural)]
pub enum Stage {
    /// Nothing was read yet.
    Reading,
    /// The read is done and part of the response is still to be sent.
    Writing,
    /// The whole response was sent.
    Done,
    /// The read or a write failed.
    Failed(IoError),
}

/// What the channel of a connection answered to the last request.
#[derive(Debug, PartialEq, Eq)]
pub enum ChannelEvent {
    /// The read returned these bytes; none at the end of the stream.
    Received(Vec<u8>),
    /// The read failed.
    ReadFailed(OsError),
    /// The write took this many of the bytes it was given.
    Wrote(usize),
    /// The write was interrupted before it took any byte.
    WriteInterrupted,
    /// The write failed.
    WriteFailed(OsError),
}

/// A [`ChannelEvent`] as contracts see it.
pub enum ChannelEventView {
    Received(Seq<u8>),
    ReadFailed(OsError),
    Wrote(usize),
    WriteInterrupted,
    WriteFailed(OsError),
}

impl View for ChannelEvent {
    type V = ChannelEventView;

    open spec fn view(&self) -> ChannelEventView {
        match *self {
            ChannelEvent::Received(bytes) => ChannelEventView::Received(bytes@),
            ChannelEvent::ReadFailed(cause) => ChannelEventView::ReadFailed(cause),
            ChannelEvent::Wrote(count) => ChannelEventView::Wrote(count),
            ChannelEvent::WriteInterrupted => ChannelEventView::WriteInterrupted,
            ChannelEvent::WriteFailed(cause) => ChannelEventView::WriteFailed(cause),
        }
    }
}

/// What the handler of a connection does next.
#[derive(Debug, PartialEq, Eq)]
pub enum ChannelAction {
    /// Read once, at most `capacity` bytes.
    Read { capacity: usize },
    /// Write these bytes, or as many of them as the channel takes.
    Write { bytes: Vec<u8> },
    /// Return with this result. The channel is not closed by the handler.
    Return(Result<(), IoError>),
}

/// A [`ChannelAction`] as contracts see it.
pub enum ChannelActionView {
    Read { capacity: usize },
    Write { bytes: Seq<u8> },
    Return(Result<(), IoError>),
}

impl View for ChannelAction {
    type V = ChannelActionView;

    open spec fn view(&self) -> ChannelActionView {
        match *self {
            ChannelAction::Read { capacity } => ChannelActionView::Read { capacity },
            ChannelAction::Write { bytes } => ChannelActionView::Write { bytes: bytes@ },
            ChannelAction::Return(result) => ChannelActionView::Return(result),
        }
    }
}

/// A [`ConnectionContext`] as contracts see it: one accepted connection, as
/// far as its handling has come.
pub struct ConnectionContextView {
    pub peer: BoundAddress,
    /// What the one read returned, cut to the capacity.
    pub request: Seq<u8>,
    /// How many bytes of the response the channel has taken.
    pub sent: nat,
    pub stage: Stage,
}

impl ConnectionContextView {
    /// What every context satisfies, whatever events it went through.
    pub open spec fn well_formed(self) -> bool {
        &&& self.request.len() <= READ_CAPACITY
        &&& self.sent <= RESPONSE_LEN
        &&& self.stage is Reading ==> self.sent == 0 && self.request.len() == 0
        &&& self.stage is Writing || self.stage is Failed ==> self.sent < RESPONSE_LEN
        &&& self.stage is Done ==> self.sent == RESPONSE_LEN
    }

    /// A connection that was just accepted from `peer`.
    pub open spec fn fresh(peer: BoundAddress) -> ConnectionContextView {
        ConnectionContextView { peer, request: Seq::empty(), sent: 0, stage: Stage::Reading }
    }

    /// The part of the response that the channel has taken so far.
    pub open spec fn delivered(self) -> Seq<u8> {
        response().take(self.sent as int)
    }

    /// The part of the response that is still to be sent.
    pub open spec fn unsent(self) -> Seq<u8> {
        response().skip(self.sent as int)
    }

    /// What the handler does next: the one read, then writes of what is
    /// left of the response until nothing is left, then it returns.
    pub open spec fn action(self) -> ChannelActionView {
        match self.stage {
            Stage::Reading => ChannelActionView::Read { capacity: READ_CAPACITY },
            Stage::Writing => ChannelActionView::Write { bytes: self.unsent() },
            Stage::Done => ChannelActionView::Return(Ok(())),
            Stage::Failed(error) => ChannelActionView::Return(Err(error)),
        }
    }

    /// The context after the channel answered `event` to that action. An
    /// event that is no answer to it changes nothing. An answer that claims
    /// more bytes than were asked for is cut to what was asked for.
    pub open spec fn step(self, event: ChannelEventView) -> ConnectionContextView {
        match (self.stage, event) {
            (Stage::Reading, ChannelEventView::Received(bytes)) => ConnectionContextView {
                request: if bytes.len() <= READ_CAPACITY {
                    bytes
                } else {
                    bytes.take(READ_CAPACITY as int)
                },
                stage: Stage::Writing,
                ..self
            },
            (Stage::Reading, ChannelEventView::ReadFailed(cause)) => ConnectionContextView {
                stage: Stage::Failed(IoError::Read(cause)),
                ..self
            },
            (Stage::Writing, ChannelEventView::Wrote(count)) => if count == 0 {
                ConnectionContextView { stage: Stage::Failed(IoError::WriteZero), ..self }
            } else if self.sent + count >= RESPONSE_LEN {
                ConnectionContextView { sent: RESPONSE_LEN as nat, stage: Stage::Done, ..self }
            } else {
                ConnectionContextView { sent: (self.sent + count) as nat, ..self }
            },
            (Stage::Writing, ChannelEventView::WriteFailed(cause)) => ConnectionContextView {
                stage: Stage::Failed(IoError::Write(cause)),
                ..self
            },
            _ => self,
        }
    }

    /// The bytes of the response that the channel takes by `event`: none
    /// unless the event answers a write.
    pub open spec fn taken(self, event: ChannelEventView) -> Seq<u8> {
        match (self.stage, event) {
            (Stage::Writing, ChannelEventView::Wrote(count)) => if count >= self.unsent().len() {
                self.unsent()
            } else {
                self.unsent().take(count as int)
            },
            _ => Seq::empty(),
        }
    }

    /// The context after a run of events, the first of them first.
    pub open spec fn run(self, events: Seq<ChannelEventView>) -> ConnectionContextView
        decreases events.len(),
    {
        if events.len() == 0 {
            self
        } else {
            self.step(events.first()).run(events.drop_first())
        }
    }

    /// All the bytes that the channel takes in a run of events, in the order
    /// in which it takes them: what the peer gets to see.
    pub open spec fn transmitted(self, events: Seq<ChannelEventView>) -> Seq<u8>
        decreases events.len(),
    {
        if events.len() == 0 {
            Seq::empty()
        } else {
            self.taken(events.first()) + self.step(events.first()).transmitted(
                events.drop_first(),
            )
        }
    }
}

/// One accepted connection: the address of the peer, and how far the exchange
/// with it has come. The channel itself stays with the caller, who releases
/// it when the handler has returned, whatever it returned.
#[derive(Debug)]
pub struct ConnectionContext {
    peer: BoundAddress,
    request: Vec<u8>,
    sent: usize,
    stage: Stage,
}

impl View for ConnectionContext {
    type V = ConnectionContextView;

    closed spec fn view(&self) -> ConnectionContextView {
        ConnectionContextView {
            peer: self.peer,
            request: self.request@,
            sent: self.sent as nat,
            stage: self.stage,
        }
    }
}

/// The response as bytes to send.
pub fn response_bytes() -> (bytes: Vec<u8>)
    ensures
        bytes@ == response(),
{
    let mut bytes: Vec<u8> = Vec::new();
    bytes.push(0x77u8);
    bytes.push(0x6fu8);
    bytes.push(0x72u8);
    bytes.push(0x6cu8);
    bytes.push(0x64u8);
    bytes
}

impl ConnectionContext {
    #[verifier::type_invariant]
    closed spec fn exchange_holds(&self) -> bool {
        self@.well_formed()
    }

    /// The context of a connection that was just accepted from `peer`.
    pub fn new(peer: BoundAddress) -> (context: ConnectionContext)
        ensures
            context@ == ConnectionContextView::fresh(peer),
            context@.well_formed(),
    {
        ConnectionContext { peer, request: Vec::new(), sent: 0, stage: Stage::Reading }
    }

    pub fn peer(&self) -> (peer: BoundAddress)
        ensures
            peer == self@.peer,
    {
        self.peer
    }

    /// What the one read returned, cut to the capacity.
    pub fn request(&self) -> (request: &Vec<u8>)
        ensures
            request@ == self@.request,
    {
        &self.request
    }

    /// How many bytes of the response the channel has taken.
    pub fn sent(&self) -> (sent: usize)
        ensures
            sent == self@.sent,
    {
        self.sent
    }

    pub fn stage(&self) -> (stage: Stage)
        ensures
            stage == self@.stage,
    {
        self.stage
    }

    /// Whether the handler has returned.
    pub fn has_returned(&self) -> (returned: bool)
        ensures
            returned == (self@.action() is Return),
    {
        match self.stage {
            Stage::Done | Stage::Failed(_) => true,
            _ => false,
        }
    }

    /// What the handler does next.
    pub fn action(&self) -> (action: ChannelAction)
        ensures
            action@ == self@.action(),
    {
        proof {
            use_type_invariant(self);
        }
        match self.stage {
            Stage::Reading => ChannelAction::Read { capacity: READ_CAPACITY },
            Stage::Writing => {
                let mut bytes = response_bytes();
                let rest = bytes.split_off(self.sent);
                ChannelAction::Write { bytes: rest }
            },
            Stage::Done => ChannelAction::Return(Ok(())),
            Stage::Failed(error) => ChannelAction::Return(Err(error)),
        }
    }
}

/// Takes the exchange on a connection one step further: `event` is what the
/// channel answered to the action that `context` asked for.
pub fn read_and_write(context: ConnectionContext, event: ChannelEvent) -> (next: ConnectionContext)
    ensures
        next@ == context@.step(event@),
        next@.well_formed(),
{
    proof {
        use_type_invariant(&context);
    }
    match context.stage {
        Stage::Reading => match event {
            ChannelEvent::Received(bytes) => {
                let mut request = bytes;
                request.truncate(READ_CAPACITY);
                assert(request@ =~= context@.step(event@).request);
                ConnectionContext { peer: context.peer, request, sent: 0, stage: Stage::Writing }
            },
            ChannelEvent::ReadFailed(cause) => ConnectionContext {
                peer: context.peer,
                request: context.request,
                sent: context.sent,
                stage: Stage::Failed(IoError::Read(cause)),
            },
            _ => context,
        },
        Stage::Writing => match event {
            ChannelEvent::Wrote(count) => {
                if count == 0 {
                    ConnectionContext {
                        peer: context.peer,
                        request: context.request,
                        sent: context.sent,
                        stage: Stage::Failed(IoError::WriteZero),
                    }
                } else if count >= RESPONSE_LEN - context.sent {
                    ConnectionContext {
                        peer: context.peer,
                        request: context.request,
                        sent: RESPONSE_LEN,
                        stage: Stage::Done,
                    }
                } else {
                    ConnectionContext {
                        peer: context.peer,
                        request: context.request,
                        sent: context.sent + count,
                        stage: Stage::Writing,
                    }
                }
            },
            ChannelEvent::WriteFailed(cause) => ConnectionContext {
                peer: context.peer,
                request: context.request,
                sent: context.sent,
                stage: Stage::Failed(IoError::Write(cause)),
            },
            _ => context,
        },
        _ => context,
    }
}

/// The response is the five bytes `world`.
pub proof fn lemma_response_is_world()
    ensures
        response().len() == RESPONSE_LEN,
        response() =~= seq![0x77u8, 0x6fu8, 0x72u8, 0x6cu8, 0x64u8],
        response()[0] == 0x77u8,
        response()[1] == 0x6fu8,
        response()[2] == 0x72u8,
        response()[3] == 0x6cu8,
        response()[4] == 0x64u8,
{
}

/// Every event keeps a context well formed.
pub proof fn lemma_step_keeps_well_formed(context: ConnectionContextView, event: ChannelEventView)
    requires
        context.well_formed(),
    ensures
        context.step(event).well_formed(),
{
}

/// There is exactly one read: a context asks for it until it is answered,
/// and never again. What it returned stays the request, cut to the capacity.
pub proof fn lemma_one_bounded_read(context: ConnectionContextView, event: ChannelEventView)
    requires
        context.well_formed(),
    ensures
        context.action() is Read <==> context.stage is Reading,
        context.action() is Read ==> context.action()->capacity == READ_CAPACITY,
        !(context.stage is Reading) ==> !(context.step(event).stage is Reading) && context.step(
            event,
        ).request == context.request,
        context.stage is Reading && event is Received ==> {
            &&& context.step(event).request.len() <= READ_CAPACITY
            &&& context.step(event).request.is_prefix_of(event->Received_0)
            &&& event->Received_0.len() <= READ_CAPACITY ==> context.step(event).request
                == event->Received_0
            &&& context.step(event).action() == (ChannelActionView::Write { bytes: response() })
        },
{
    assert(response().skip(0) =~= response());
}

/// A write that took some bytes brings the exchange forward by as many,
/// and is followed by a write of the rest, or by the return once nothing
/// is left. Only a write that took nothing or failed ends the exchange early.
pub proof fn lemma_short_writes_are_resumed(context: ConnectionContextView, count: usize)
    requires
        context.well_formed(),
        context.stage is Writing,
        count > 0,
    ensures
        ({
            let next = context.step(ChannelEventView::Wrote(count));
            &&& next.sent > context.sent
            &&& next.delivered() == context.delivered() + context.taken(
                ChannelEventView::Wrote(count),
            )
            &&& count < context.unsent().len() ==> next.action() == (ChannelActionView::Write {
                bytes: context.unsent().skip(count as int),
            })
            &&& count >= context.unsent().len() ==> next.action() == ChannelActionView::Return(
                Ok(()),
            )
        }),
{
    let event = ChannelEventView::Wrote(count);
    let next = context.step(event);
    assert(next.delivered() =~= context.delivered() + context.taken(event));
    assert(count < context.unsent().len() ==> next.unsent() =~= context.unsent().skip(
        count as int,
    ));
}

/// Once the handler has returned, no event changes its result.
pub proof fn lemma_return_is_final(context: ConnectionContextView, event: ChannelEventView)
    requires
        context.action() is Return,
    ensures
        context.step(event) == context,
{
}

/// Whatever the events, what the peer gets to see is the part of the
/// response that the context counts as delivered.
pub proof fn lemma_transmitted_is_delivered(
    context: ConnectionContextView,
    events: Seq<ChannelEventView>,
)
    requires
        context.well_formed(),
    ensures
        context.run(events).well_formed(),
        context.delivered() + context.transmitted(events) == context.run(events).delivered(),
    decreases events.len(),
{
    if events.len() == 0 {
        assert(context.delivered() + context.transmitted(events) =~= context.delivered());
    } else {
        let event = events.first();
        let next = context.step(event);
        lemma_transmitted_is_delivered(next, events.drop_first());
        assert(next.delivered() =~= context.delivered() + context.taken(event));
        assert(context.delivered() + context.transmitted(events) =~= next.delivered()
            + next.transmitted(events.drop_first()));
    }
}

/// A connection whose handler returns without error has been sent the whole
/// response, once and in order, however the channel split the writes; one
/// whose handler has not, a proper prefix of it.
pub proof fn lemma_peer_receives_response(peer: BoundAddress, events: Seq<ChannelEventView>)
    ensures
        ({
            let context = ConnectionContextView::fresh(peer);
            &&& context.transmitted(events).is_prefix_of(response())
            &&& context.run(events).action() == ChannelActionView::Return(Ok(()))
                <==> context.transmitted(events) == response()
        }),
{
    let context = ConnectionContextView::fresh(peer);
    lemma_transmitted_is_delivered(context, events);
    assert(context.delivered() + context.transmitted(events) =~= context.transmitted(events));
    let last = context.run(events);
    if last.stage is Done {
        assert(last.delivered() =~= response());
    }
}

} // verus!
