//! The socket handle and the one-way path it takes from creation to listening.

use crate::address::{AddressSpec, BoundAddress, Domain};
use crate::error::{
    AcceptError, AllocationError, BindError, ConfigError, ListenError, OsError, SysReturn,
    UnboundError,
};
use vstd::prelude::*;

verus! {

/// The kind of socket.
#[derive(Clone, Copy, Debug, PartialEq, Eq, Structural)]
pub enum SocketType {
    Stream,
    Datagram,
}

/// The protocol, where the caller names one. The common ones have a name of
/// their own; any other goes by the number that the platform knows it by.
#[derive(Clone, Copy, Debug, PartialEq, Eq, Structural)]
pub enum Protocol {
    Tcp,
    Udp,
    Icmpv4,
    Icmpv6,
    Other(i32),
}

/// Where a handle stands in its lifecycle. A handle only ever moves forward:
/// `Created`, `Configured`, `Bound`, `Listening`, `Accepting`; `ShutDown` can
/// be entered from anywhere and is never left.
#[derive(Clone, Copy, Debug, PartialEq, Eq, Structural)]
pub enum Phase {
    Created,
    Configured,
    Bound,
    Listening,
    Accepting,
    ShutDown,
}

impl Phase {
    /// How far along the lifecycle a phase lies.
    pub open spec fn rank(self) -> nat {
        match self {
            Phase::Created => 0,
            Phase::Configured => 1,
            Phase::Bound => 2,
            Phase::Listening => 3,
            Phase::Accepting => 4,
            Phase::ShutDown => 5,
        }
    }
}

/// The value that the address-reuse option is set to.
pub const REUSE_ADDRESS_ON: i32 = 1;

/// How many pending connections the platform is asked to queue.
pub const LISTEN_BACKLOG: i32 = 128;

/// A [`SocketHandle`] as contracts see it: what the lifecycle of the handle
/// has recorded so far.
pub struct SocketHandleView {
    pub domain: Domain,
    pub socket_type: SocketType,
    pub protocol: Option<Protocol>,
    pub phase: Phase,
    /// Whether the address-reuse option is set on the socket.
    pub reuse_address: bool,
    /// Whether the option was set already when the socket was bound: only
    /// then did it govern the bind.
    pub reuse_at_bind: bool,
    /// The address of the successful bind.
    pub requested: Option<AddressSpec>,
}

impl SocketHandleView {
    /// What every handle satisfies, whatever calls it went through.
    pub open spec fn well_formed(self) -> bool {
        &&& self.phase is Created ==> !self.reuse_address && self.requested is None
        &&& self.phase is Configured ==> self.reuse_address && self.requested is None
        &&& self.phase is Bound || self.phase is Listening || self.phase is Accepting
            ==> self.requested is Some
        &&& self.phase is Listening || self.phase is Accepting ==> self.socket_type is Stream
        &&& self.requested matches Some(address) ==> address.family() == self.domain
        &&& self.reuse_at_bind ==> self.reuse_address && self.requested is Some
    }

    /// The handle of a socket that the platform has just handed out.
    pub open spec fn fresh(
        domain: Domain,
        socket_type: SocketType,
        protocol: Option<Protocol>,
    ) -> SocketHandleView {
        SocketHandleView {
            domain,
            socket_type,
            protocol,
            phase: Phase::Created,
            reuse_address: false,
            reuse_at_bind: false,
            requested: None,
        }
    }

    /// The handle after the platform answered `ret` to setting address reuse.
    /// Where the platform accepted, the option is on from then, in whatever
    /// phase the handle is. The phase moves only from `Created`, to
    /// `Configured`; on a handle that is bound already the option comes too
    /// late to govern the bind, and what is recorded of the bind stays.
    pub open spec fn after_configure(self, ret: SysReturn) -> SocketHandleView {
        if configure_result(ret) is Ok {
            SocketHandleView {
                phase: if self.phase is Created {
                    Phase::Configured
                } else {
                    self.phase
                },
                reuse_address: true,
                ..self
            }
        } else {
            self
        }
    }

    /// Why this handle cannot be bound to `address`, if it cannot: it must not
    /// have been bound before, and the address must be of its family.
    pub open spec fn bind_refusal(self, address: AddressSpec) -> Option<BindError> {
        if !(self.phase is Created || self.phase is Configured) {
            Some(BindError::WrongPhase(self.phase))
        } else if address.family() != self.domain {
            Some(BindError::FamilyMismatch)
        } else {
            None
        }
    }

    /// What binding to `address` comes to, given the platform's answer. A
    /// handle that cannot be bound fails whatever the platform said.
    pub open spec fn bind_result(
        self,
        address: AddressSpec,
        reply: Result<(), OsError>,
    ) -> Result<(), BindError> {
        match self.bind_refusal(address) {
            Some(error) => Err(error),
            None => match reply {
                Ok(()) => Ok(()),
                Err(cause) => Err(BindError::Os(cause)),
            },
        }
    }

    /// The handle after that bind: if it succeeded, bound to `address`, with
    /// address reuse in force at the bind exactly if the option was on; as it
    /// was before if not.
    pub open spec fn after_bind(
        self,
        address: AddressSpec,
        reply: Result<(), OsError>,
    ) -> SocketHandleView {
        if self.bind_result(address, reply) is Ok {
            SocketHandleView {
                phase: Phase::Bound,
                reuse_at_bind: self.reuse_address,
                requested: Some(address),
                ..self
            }
        } else {
            self
        }
    }

    /// The local address of the handle, given the platform's answer to the
    /// query. A handle that was never bound has none. Of a bound handle the
    /// platform's answer is passed on only where the bind can have produced
    /// it.
    pub open spec fn local_address(
        self,
        reply: Result<Option<BoundAddress>, OsError>,
    ) -> Result<BoundAddress, UnboundError> {
        match self.requested {
            None => Err(UnboundError::NotBound),
            Some(requested) => match reply {
                Err(cause) => Err(UnboundError::Os(cause)),
                Ok(None) => Err(UnboundError::Unresolved),
                Ok(Some(reported)) => if requested.resolves_to(reported) {
                    Ok(reported)
                } else {
                    Err(UnboundError::Unresolved)
                },
            },
        }
    }

    /// Why this handle cannot start to listen, if it cannot: it must be
    /// bound and not yet listening, and it must be a stream socket.
    pub open spec fn listen_refusal(self) -> Option<ListenError> {
        if !(self.phase is Bound) {
            Some(ListenError::WrongPhase(self.phase))
        } else if !(self.socket_type is Stream) {
            Some(ListenError::WrongSocketType)
        } else {
            None
        }
    }

    /// What starting to listen comes to, given the platform's answer: the
    /// call succeeded exactly if it returned 0.
    pub open spec fn listen_result(self, ret: SysReturn) -> Result<(), ListenError> {
        match self.listen_refusal() {
            Some(error) => Err(error),
            None => if ret.value != 0 {
                Err(ListenError::Os(ret.error()))
            } else {
                Ok(())
            },
        }
    }

    /// The handle after that attempt.
    pub open spec fn after_listen(self, ret: SysReturn) -> SocketHandleView {
        if self.listen_result(ret) is Ok {
            SocketHandleView { phase: Phase::Listening, ..self }
        } else {
            self
        }
    }

    /// The handle after it was shut down.
    pub open spec fn after_shutdown(self) -> SocketHandleView {
        SocketHandleView { phase: Phase::ShutDown, ..self }
    }

    /// Why connections cannot be accepted on this handle, if they cannot: it
    /// must be listening.
    pub open spec fn accept_refusal(self) -> Option<AcceptError> {
        if !(self.phase is Listening) {
            Some(AcceptError::NotListening(self.phase))
        } else {
            None
        }
    }

    /// The handle once it is given to an accept loop.
    pub open spec fn accepting(self) -> SocketHandleView {
        SocketHandleView { phase: Phase::Accepting, ..self }
    }
}

/// What setting address reuse comes to, given the platform's answer: the call
/// failed exactly if it returned -1.
pub open spec fn configure_result(ret: SysReturn) -> Result<(), ConfigError> {
    if ret.value == -1 {
        Err(ConfigError { cause: ret.error() })
    } else {
        Ok(())
    }
}

/// The record that accompanies one platform socket through its lifecycle.
/// There is one handle per socket, and no way to copy it.
#[derive(Debug)]
pub struct SocketHandle {
    domain: Domain,
    socket_type: SocketType,
    protocol: Option<Protocol>,
    phase: Phase,
    reuse_address: bool,
    reuse_at_bind: bool,
    requested: Option<AddressSpec>,
}

impl View for SocketHandle {
    type V = SocketHandleView;

    closed spec fn view(&self) -> SocketHandleView {
        SocketHandleView {
            domain: self.domain,
            socket_type: self.socket_type,
            protocol: self.protocol,
            phase: self.phase,
            reuse_address: self.reuse_address,
            reuse_at_bind: self.reuse_at_bind,
            requested: self.requested,
        }
    }
}

impl SocketHandle {
    #[verifier::type_invariant]
    closed spec fn lifecycle_holds(&self) -> bool {
        self@.well_formed()
    }

    fn with(
        &self,
        phase: Phase,
        reuse_address: bool,
        reuse_at_bind: bool,
        requested: Option<AddressSpec>,
    ) -> (handle: SocketHandle)
        requires
            (SocketHandleView {
                phase,
                reuse_address,
                reuse_at_bind,
                requested,
                ..self@
            }).well_formed(),
        ensures
            handle@ == (SocketHandleView {
                phase,
                reuse_address,
                reuse_at_bind,
                requested,
                ..self@
            }),
    {
        SocketHandle {
            domain: self.domain,
            socket_type: self.socket_type,
            protocol: self.protocol,
            phase,
            reuse_address,
            reuse_at_bind,
            requested,
        }
    }

    pub fn domain(&self) -> (domain: Domain)
        ensures
            domain == self@.domain,
    {
        self.domain
    }

    pub fn socket_type(&self) -> (socket_type: SocketType)
        ensures
            socket_type == self@.socket_type,
    {
        self.socket_type
    }

    pub fn protocol(&self) -> (protocol: Option<Protocol>)
        ensures
            protocol == self@.protocol,
    {
        self.protocol
    }

    pub fn phase(&self) -> (phase: Phase)
        ensures
            phase == self@.phase,
    {
        self.phase
    }

    /// Whether the address-reuse option is set on the socket.
    pub fn reuse_address(&self) -> (reuse_address: bool)
        ensures
            reuse_address == self@.reuse_address,
    {
        self.reuse_address
    }

    /// Whether the address-reuse option was set already when the socket was
    /// bound.
    pub fn reuse_at_bind(&self) -> (reuse_at_bind: bool)
        ensures
            reuse_at_bind == self@.reuse_at_bind,
    {
        self.reuse_at_bind
    }

    /// The address that the handle was bound to, if it was bound.
    pub fn requested(&self) -> (requested: Option<AddressSpec>)
        ensures
            requested == self@.requested,
    {
        self.requested
    }

    /// Tells why the handle cannot be bound to `address`, before the platform
    /// is asked.
    pub fn bind_refusal(&self, address: AddressSpec) -> (refusal: Option<BindError>)
        ensures
            refusal == self@.bind_refusal(address),
    {
        match self.phase {
            Phase::Created | Phase::Configured => {
                if address.domain() != self.domain {
                    Some(BindError::FamilyMismatch)
                } else {
                    None
                }
            },
            phase => Some(BindError::WrongPhase(phase)),
        }
    }

    /// Tells why the handle cannot start to listen, before the platform is
    /// asked.
    pub fn listen_refusal(&self) -> (refusal: Option<ListenError>)
        ensures
            refusal == self@.listen_refusal(),
    {
        match self.phase {
            Phase::Bound => match self.socket_type {
                SocketType::Stream => None,
                SocketType::Datagram => Some(ListenError::WrongSocketType),
            },
            phase => Some(ListenError::WrongPhase(phase)),
        }
    }

    /// Tells why connections cannot be accepted on the handle, before the
    /// platform is asked.
    pub fn accept_refusal(&self) -> (refusal: Option<AcceptError>)
        ensures
            refusal == self@.accept_refusal(),
    {
        match self.phase {
            Phase::Listening => None,
            phase => Some(AcceptError::NotListening(phase)),
        }
    }

    /// Hands a listening handle over to the accept loop.
    pub(crate) fn into_accepting(self) -> (handle: SocketHandle)
        requires
            self@.phase is Listening,
        ensures
            handle@ == self@.accepting(),
            handle@.well_formed(),
    {
        proof {
            use_type_invariant(&self);
        }
        self.with(Phase::Accepting, self.reuse_address, self.reuse_at_bind, self.requested)
    }
}

/// Records the platform's answer to a request for a socket of the given
/// family, kind and protocol.
pub fn create_socket(
    domain: Domain,
    socket_type: SocketType,
    protocol: Option<Protocol>,
    reply: Result<(), OsError>,
) -> (result: Result<SocketHandle, AllocationError>)
    ensures
        match reply {
            Ok(()) => result matches Ok(handle) && handle@ == SocketHandleView::fresh(
                domain,
                socket_type,
                protocol,
            ) && handle@.well_formed(),
            Err(cause) => result matches Err(error) && error == (AllocationError { cause }),
        },
{
    match reply {
        Ok(()) => Ok(
            SocketHandle {
                domain,
                socket_type,
                protocol,
                phase: Phase::Created,
                reuse_address: false,
                reuse_at_bind: false,
                requested: None,
            },
        ),
        Err(cause) => Err(AllocationError { cause }),
    }
}

/// Records the platform's answer to setting the address-reuse option
/// (value [`REUSE_ADDRESS_ON`]) on the socket behind `socket`.
pub fn configure_socket(
    socket: &mut SocketHandle,
    ret: SysReturn,
) -> (result: Result<(), ConfigError>)
    ensures
        result == configure_result(ret),
        final(socket)@ == old(socket)@.after_configure(ret),
        final(socket)@.well_formed(),
{
    proof {
        use_type_invariant(&*socket);
    }
    if ret.value == -1 {
        return Err(ConfigError { cause: ret.os_error() });
    }
    let phase = match socket.phase {
        Phase::Created => Phase::Configured,
        phase => phase,
    };
    *socket = socket.with(phase, true, socket.reuse_at_bind, socket.requested);
    Ok(())
}

/// Records the platform's answer to binding the socket behind `socket` to
/// `addr`. Where [`SocketHandle::bind_refusal`] gives a reason, the platform
/// should not have been asked, and its answer counts for nothing.
pub fn bind_socket(
    addr: AddressSpec,
    socket: &mut SocketHandle,
    reply: Result<(), OsError>,
) -> (result: Result<(), BindError>)
    ensures
        result == old(socket)@.bind_result(addr, reply),
        final(socket)@ == old(socket)@.after_bind(addr, reply),
        final(socket)@.well_formed(),
{
    proof {
        use_type_invariant(&*socket);
    }
    if let Some(refusal) = socket.bind_refusal(addr) {
        return Err(refusal);
    }
    match reply {
        Ok(()) => {
            *socket = socket.with(Phase::Bound, socket.reuse_address, socket.reuse_address, Some(addr));
            Ok(())
        },
        Err(cause) => Err(BindError::Os(cause)),
    }
}

/// Gives the local address of the socket behind `socket`, from the
/// platform's answer to the query: `Ok(None)` where the platform named an
/// address that is no internet address.
pub fn get_socket_address(
    socket: &SocketHandle,
    reply: Result<Option<BoundAddress>, OsError>,
) -> (result: Result<BoundAddress, UnboundError>)
    ensures
        result == socket@.local_address(reply),
{
    match socket.requested {
        None => Err(UnboundError::NotBound),
        Some(requested) => match reply {
            Err(cause) => Err(UnboundError::Os(cause)),
            Ok(None) => Err(UnboundError::Unresolved),
            Ok(Some(reported)) => {
                if requested.accepts(reported) {
                    Ok(reported)
                } else {
                    Err(UnboundError::Unresolved)
                }
            },
        },
    }
}

/// Records the platform's answer to making the socket behind `socket` listen
/// with a backlog of [`LISTEN_BACKLOG`]. Where
/// [`SocketHandle::listen_refusal`] gives a reason, the platform should not
/// have been asked, and its answer counts for nothing.
pub fn listen(socket: &mut SocketHandle, ret: SysReturn) -> (result: Result<(), ListenError>)
    ensures
        result == old(socket)@.listen_result(ret),
        final(socket)@ == old(socket)@.after_listen(ret),
        final(socket)@.well_formed(),
{
    proof {
        use_type_invariant(&*socket);
    }
    if let Some(refusal) = socket.listen_refusal() {
        return Err(refusal);
    }
    if ret.value != 0 {
        return Err(ListenError::Os(ret.os_error()));
    }
    *socket = socket.with(
        Phase::Listening,
        socket.reuse_address,
        socket.reuse_at_bind,
        socket.requested,
    );
    Ok(())
}

/// Records that the socket behind `socket` was shut down. Nothing can be
/// started on the handle afterwards.
pub fn shutdown_socket(socket: &mut SocketHandle)
    ensures
        final(socket)@ == old(socket)@.after_shutdown(),
        final(socket)@.well_formed(),
{
    proof {
        use_type_invariant(&*socket);
    }
    *socket = socket.with(
        Phase::ShutDown,
        socket.reuse_address,
        socket.reuse_at_bind,
        socket.requested,
    );
}

/// Every step of the lifecycle keeps a handle well formed.
pub proof fn lemma_lifecycle_keeps_well_formed(
    handle: SocketHandleView,
    address: AddressSpec,
    reply: Result<(), OsError>,
    ret: SysReturn,
)
    requires
        handle.well_formed(),
    ensures
        handle.after_configure(ret).well_formed(),
        handle.after_bind(address, reply).well_formed(),
        handle.after_listen(ret).well_formed(),
        handle.after_shutdown().well_formed(),
        handle.phase is Listening ==> handle.accepting().well_formed(),
{
}

/// The lifecycle is one-way: no step takes a handle back to an earlier
/// phase, and a handle that was shut down stays shut down.
pub proof fn lemma_lifecycle_is_one_way(
    handle: SocketHandleView,
    address: AddressSpec,
    reply: Result<(), OsError>,
    ret: SysReturn,
)
    ensures
        handle.phase.rank() <= handle.after_configure(ret).phase.rank(),
        handle.phase.rank() <= handle.after_bind(address, reply).phase.rank(),
        handle.phase.rank() <= handle.after_listen(ret).phase.rank(),
        handle.phase.rank() <= handle.after_shutdown().phase.rank(),
        handle.phase is Listening ==> handle.phase.rank() <= handle.accepting().phase.rank(),
        handle.phase is ShutDown ==> {
            &&& handle.after_configure(ret).phase is ShutDown
            &&& handle.after_bind(address, reply) == handle
            &&& handle.after_listen(ret) == handle
            &&& handle.after_shutdown() == handle
            &&& handle.accept_refusal() is Some
        },
{
}

/// Each phase has one way in: a handle becomes `Configured` only from
/// `Created` by a configure that succeeded, `Bound` only from `Created` or
/// `Configured` by a bind that succeeded, and `Listening` only from `Bound`
/// by a listen that succeeded. A step that fails leaves the phase alone.
pub proof fn lemma_phases_are_entered_in_order(
    handle: SocketHandleView,
    address: AddressSpec,
    reply: Result<(), OsError>,
    ret: SysReturn,
)
    ensures
        handle.after_configure(ret).phase != handle.phase ==> {
            &&& handle.phase is Created
            &&& handle.after_configure(ret).phase is Configured
            &&& ret.value != -1
        },
        handle.after_bind(address, reply).phase != handle.phase ==> {
            &&& handle.phase is Created || handle.phase is Configured
            &&& handle.after_bind(address, reply).phase is Bound
            &&& reply is Ok
        },
        handle.after_listen(ret).phase != handle.phase ==> {
            &&& handle.phase is Bound
            &&& handle.after_listen(ret).phase is Listening
            &&& ret.value == 0
        },
        configure_result(ret) is Err ==> handle.after_configure(ret) == handle,
        handle.bind_result(address, reply) is Err ==> handle.after_bind(address, reply) == handle,
        handle.listen_result(ret) is Err ==> handle.after_listen(ret) == handle,
{
}

/// A handle that was just created is well formed and has no local address:
/// the query fails with `NotBound` whatever the platform answers.
pub proof fn lemma_created_handle_is_unbound(
    domain: Domain,
    socket_type: SocketType,
    protocol: Option<Protocol>,
    reply: Result<Option<BoundAddress>, OsError>,
)
    ensures
        SocketHandleView::fresh(domain, socket_type, protocol).well_formed(),
        SocketHandleView::fresh(domain, socket_type, protocol).local_address(reply) == Err::<
            BoundAddress,
            UnboundError,
        >(UnboundError::NotBound),
{
}

/// A handle has a local address only after a successful bind: as long as it
/// is `Created` or `Configured`, the query fails with `NotBound` whatever the
/// platform answers.
pub proof fn lemma_no_address_before_bind(
    handle: SocketHandleView,
    reply: Result<Option<BoundAddress>, OsError>,
)
    requires
        handle.well_formed(),
        handle.phase is Created || handle.phase is Configured,
    ensures
        handle.local_address(reply) == Err::<BoundAddress, UnboundError>(UnboundError::NotBound),
{
}

/// A bind that failed leaves the handle without a local address, as it was.
pub proof fn lemma_failed_bind_leaves_unbound(
    handle: SocketHandleView,
    address: AddressSpec,
    bind_reply: Result<(), OsError>,
    reply: Result<Option<BoundAddress>, OsError>,
)
    requires
        handle.well_formed(),
        handle.phase is Created || handle.phase is Configured,
        handle.bind_result(address, bind_reply) is Err,
    ensures
        handle.after_bind(address, bind_reply) == handle,
        handle.after_bind(address, bind_reply).local_address(reply) == Err::<
            BoundAddress,
            UnboundError,
        >(UnboundError::NotBound),
{
}

/// After a successful bind, a local address that the handle gives is on the
/// requested host, hence of the family of the request and of the handle; its
/// port is not zero, and is the requested port unless the choice was left
/// to the platform.
pub proof fn lemma_local_address_matches_bind(
    handle: SocketHandleView,
    address: AddressSpec,
    bind_reply: Result<(), OsError>,
    reply: Result<Option<BoundAddress>, OsError>,
)
    requires
        handle.bind_result(address, bind_reply) is Ok,
        handle.after_bind(address, bind_reply).local_address(reply) is Ok,
    ensures
        ({
            let resolved = handle.after_bind(address, bind_reply).local_address(reply)->Ok_0;
            &&& reply == Ok::<Option<BoundAddress>, OsError>(Some(resolved))
            &&& resolved.port != 0
            &&& resolved.host == address.host
            &&& resolved.host.family() == address.family()
            &&& resolved.host.family() == handle.domain
            &&& !address.ephemeral() ==> resolved.port == address.port
        }),
{
}

/// The bind of a handle that can be bound succeeds exactly if the platform
/// accepted it, and fails with the platform's error if not: whether an
/// address is free is for the platform to say.
pub proof fn lemma_bind_follows_platform(
    handle: SocketHandleView,
    address: AddressSpec,
    reply: Result<(), OsError>,
)
    requires
        handle.phase is Created || handle.phase is Configured,
        address.family() == handle.domain,
    ensures
        reply is Ok ==> handle.bind_result(address, reply) is Ok,
        reply matches Err(cause) ==> handle.bind_result(address, reply) == Err::<(), BindError>(
            BindError::Os(cause),
        ),
{
}

/// A configure that the platform accepted sets the option, in whatever
/// phase the handle is, and touches nothing else but the phase of a handle
/// that was `Created`. A second one leaves the handle as the first left it.
/// One that the platform refused changes nothing.
pub proof fn lemma_configure_sets_the_option(
    handle: SocketHandleView,
    ret: SysReturn,
    again: SysReturn,
)
    ensures
        ret.value != -1 ==> {
            let configured = handle.after_configure(ret);
            &&& configured.reuse_address
            &&& configured == (SocketHandleView {
                phase: configured.phase,
                reuse_address: true,
                ..handle
            })
            &&& configured.phase == if handle.phase is Created {
                Phase::Configured
            } else {
                handle.phase
            }
            &&& again.value != -1 ==> configured.after_configure(again) == configured
        },
        ret.value == -1 ==> handle.after_configure(ret) == handle,
{
}

/// Address reuse governs a bind only if it was set before: the bound handle
/// records reuse at the bind exactly if the option was on when the bind
/// came, which is to say if the handle was `Configured`. A configure that
/// comes after the bind still sets the option, and leaves what is recorded
/// of the bind as it is.
pub proof fn lemma_reuse_is_settled_at_bind(
    handle: SocketHandleView,
    address: AddressSpec,
    reply: Result<(), OsError>,
    ret: SysReturn,
)
    requires
        handle.well_formed(),
        handle.bind_result(address, reply) is Ok,
    ensures
        ({
            let bound = handle.after_bind(address, reply);
            let late = bound.after_configure(ret);
            &&& bound.reuse_at_bind == handle.reuse_address
            &&& bound.reuse_at_bind == (handle.phase is Configured)
            &&& bound.reuse_address == handle.reuse_address
            &&& late.reuse_at_bind == bound.reuse_at_bind
            &&& late.phase == bound.phase
            &&& late.requested == bound.requested
            &&& late.reuse_address == (bound.reuse_address || ret.value != -1)
        }),
{
}

/// To listen, a handle must be bound and nothing must have followed the
/// bind: on a handle that was never bound, that listens already or that was
/// shut down, `listen` fails with `WrongPhase` and changes nothing, whatever
/// the platform answers.
pub proof fn lemma_listen_needs_fresh_bind(handle: SocketHandleView, ret: SysReturn)
    requires
        !(handle.phase is Bound),
    ensures
        handle.listen_result(ret) == Err::<(), ListenError>(ListenError::WrongPhase(handle.phase)),
        handle.after_listen(ret) == handle,
{
}

/// A stream handle that was just bound listens as soon as the platform
/// returns 0, and cannot be made to listen a second time.
pub proof fn lemma_listen_once(handle: SocketHandleView, ret: SysReturn, again: SysReturn)
    requires
        handle.phase is Bound,
        handle.socket_type is Stream,
        ret.value == 0,
    ensures
        handle.listen_result(ret) is Ok,
        handle.after_listen(ret).phase is Listening,
        handle.after_listen(ret).listen_result(again) == Err::<(), ListenError>(
            ListenError::WrongPhase(Phase::Listening),
        ),
        handle.after_listen(ret).after_listen(again) == handle.after_listen(ret),
{
}

} // verus!
