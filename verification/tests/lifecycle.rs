use memdb_socket::{
    bind_socket, configure_socket, create_socket, get_socket_address, listen, shutdown_socket,
    AddressSpec, AllocationError, BindError, BoundAddress, ConfigError, Domain, IpAddress,
    ListenError, OsError, Phase, Protocol, SocketHandle, SocketType, SysReturn, UnboundError,
    LISTEN_BACKLOG, REUSE_ADDRESS_ON,
};
use rand::Rng;
use std::mem::drop;

const EADDRINUSE: i32 = 98;
const EACCES: i32 = 13;
const EMFILE: i32 = 24;
const ENOPROTOOPT: i32 = 92;

fn random_port() -> u16 {
    rand::thread_rng().gen_range(1024..65535)
}

fn done() -> SysReturn {
    SysReturn { value: 0, errno: 0 }
}

fn failed(errno: i32) -> SysReturn {
    SysReturn { value: -1, errno }
}

fn loopback_v4(port: u16) -> AddressSpec {
    AddressSpec::new(IpAddress::V4(127, 0, 0, 1), port)
}

fn loopback_v6(port: u16) -> AddressSpec {
    AddressSpec::new(IpAddress::V6(0, 0, 0, 0, 0, 0, 0, 1), port)
}

fn reported(address: AddressSpec, port: u16) -> Result<Option<BoundAddress>, OsError> {
    Ok(Some(BoundAddress { host: address.host, port }))
}

fn tcp_v4() -> SocketHandle {
    create_socket(Domain::Ipv4, SocketType::Stream, Some(Protocol::Tcp), Ok(())).unwrap()
}

fn bound_tcp_v4(port: u16) -> SocketHandle {
    let mut socket = tcp_v4();
    bind_socket(loopback_v4(port), &mut socket, Ok(())).unwrap();
    socket
}

#[test]
fn test_create_socket_ipv4_tcp() {
    let socket =
        create_socket(Domain::Ipv4, SocketType::Stream, Some(Protocol::Tcp), Ok(())).unwrap();
    drop(socket);
    assert!(true);
}

#[test]
fn test_create_socket_ipv6_udp() {
    let socket =
        create_socket(Domain::Ipv6, SocketType::Datagram, Some(Protocol::Udp), Ok(())).unwrap();
    drop(socket);
    assert!(true);
}

#[test]
fn test_socket_address() {
    let socket =
        create_socket(Domain::Ipv4, SocketType::Stream, Some(Protocol::Tcp), Ok(())).unwrap();
    // A platform names the wildcard address and port 0 for a socket that was
    // never bound; the handle knows better and gives no address.
    let unbound = BoundAddress { host: IpAddress::V4(0, 0, 0, 0), port: 0 };
    let addr = get_socket_address(&socket, Ok(Some(unbound)));

    assert!(addr.is_err());
    assert_eq!(addr, Err(UnboundError::NotBound));
    drop(socket);
}

#[test]
fn test_socket_bind() {
    let mut socket =
        create_socket(Domain::Ipv4, SocketType::Stream, Some(Protocol::Tcp), Ok(())).unwrap();
    let port = random_port();
    let addr = AddressSpec::new(IpAddress::V4(127, 0, 0, 1), port);
    bind_socket(addr, &mut socket, Ok(())).expect("Bind failed");
    let bound_addr = get_socket_address(&socket, reported(addr, port)).unwrap();
    assert_eq!(bound_addr.ip(), IpAddress::V4(127, 0, 0, 1));
    assert_eq!(bound_addr.port(), port);
}

#[test]
fn test_socket_bind_ipv6() {
    let mut socket =
        create_socket(Domain::Ipv6, SocketType::Stream, Some(Protocol::Tcp), Ok(())).unwrap();
    let port = random_port();
    let addr = AddressSpec::new(IpAddress::V6(0, 0, 0, 0, 0, 0, 0, 1), port);
    bind_socket(addr, &mut socket, Ok(())).expect("Bind failed");
    let bound_addr = get_socket_address(&socket, reported(addr, port)).unwrap();
    assert_eq!(bound_addr.ip(), IpAddress::V6(0, 0, 0, 0, 0, 0, 0, 1));
    assert_eq!(bound_addr.port(), port);
}

#[test]
fn test_configure_socket_success() {
    // A listener that is bound and listening already.
    let port = random_port();
    let mut listener = bound_tcp_v4(port);
    listen(&mut listener, done()).unwrap();

    let result = configure_socket(&mut listener, done());
    drop(listener);

    // Assert success
    assert!(result.is_ok());
}

#[test]
fn test_listen() {
    let mut socket =
        create_socket(Domain::Ipv4, SocketType::Stream, Some(Protocol::Tcp), Ok(())).unwrap();
    let port = random_port();
    let addr = AddressSpec::new(IpAddress::V4(127, 0, 0, 1), port);
    bind_socket(addr, &mut socket, Ok(())).unwrap();
    assert!(listen(&mut socket, done()).is_ok());
    assert_eq!(socket.phase(), Phase::Listening);
}

#[test]
fn test_listen_failed() {
    let mut socket =
        create_socket(Domain::Ipv4, SocketType::Stream, Some(Protocol::Tcp), Ok(())).unwrap();
    let port = random_port();
    let addr = AddressSpec::new(IpAddress::V4(127, 0, 0, 1), port);
    bind_socket(addr, &mut socket, Ok(())).unwrap();
    shutdown_socket(&mut socket);
    assert_eq!(listen(&mut socket, done()), Err(ListenError::WrongPhase(Phase::ShutDown)));
    assert_eq!(socket.phase(), Phase::ShutDown);
}

#[test]
fn fresh_handle_records_what_was_asked_for() {
    let socket = create_socket(Domain::Ipv6, SocketType::Datagram, None, Ok(())).unwrap();
    assert_eq!(socket.domain(), Domain::Ipv6);
    assert_eq!(socket.socket_type(), SocketType::Datagram);
    assert_eq!(socket.protocol(), None);
    assert_eq!(socket.phase(), Phase::Created);
    assert!(!socket.reuse_address());
    assert!(!socket.reuse_at_bind());
    assert_eq!(socket.requested(), None);
}

#[test]
fn any_protocol_can_be_asked_for() {
    let protocols = [
        None,
        Some(Protocol::Tcp),
        Some(Protocol::Udp),
        Some(Protocol::Icmpv4),
        Some(Protocol::Icmpv6),
        Some(Protocol::Other(132)),
    ];
    for protocol in protocols {
        let socket = create_socket(Domain::Ipv4, SocketType::Datagram, protocol, Ok(())).unwrap();
        assert_eq!(socket.protocol(), protocol);
        assert_eq!(socket.phase(), Phase::Created);
    }
    assert_ne!(Protocol::Other(6), Protocol::Tcp);
}

#[test]
fn create_fails_with_the_platform_error() {
    let result = create_socket(
        Domain::Ipv4,
        SocketType::Stream,
        Some(Protocol::Udp),
        Err(OsError { code: Some(EMFILE) }),
    );
    assert_eq!(result.unwrap_err(), AllocationError { cause: OsError { code: Some(EMFILE) } });
}

#[test]
fn fresh_handle_has_no_address_whatever_the_platform_says() {
    let socket = tcp_v4();
    let replies = [
        Ok(None),
        Ok(Some(BoundAddress { host: IpAddress::V4(127, 0, 0, 1), port: 8080 })),
        Err(OsError { code: Some(9) }),
    ];
    for reply in replies {
        assert_eq!(get_socket_address(&socket, reply), Err(UnboundError::NotBound));
    }
}

#[test]
fn configured_handle_has_no_address_either() {
    let mut socket = tcp_v4();
    configure_socket(&mut socket, done()).unwrap();
    assert_eq!(
        get_socket_address(&socket, reported(loopback_v4(0), 4000)),
        Err(UnboundError::NotBound)
    );
}

#[test]
fn configure_moves_a_created_handle_forward() {
    let mut socket = tcp_v4();
    assert_eq!(REUSE_ADDRESS_ON, 1);
    assert_eq!(configure_socket(&mut socket, done()), Ok(()));
    assert_eq!(socket.phase(), Phase::Configured);
    assert!(socket.reuse_address());
    assert!(!socket.reuse_at_bind());
    // A second time changes nothing.
    assert_eq!(configure_socket(&mut socket, done()), Ok(()));
    assert_eq!(socket.phase(), Phase::Configured);
    assert!(socket.reuse_address());
    assert_eq!(socket.requested(), None);
}

#[test]
fn configure_sets_the_option_in_every_phase() {
    // Bound.
    let mut socket = bound_tcp_v4(7100);
    assert!(!socket.reuse_address());
    assert_eq!(configure_socket(&mut socket, done()), Ok(()));
    assert!(socket.reuse_address());
    assert_eq!(socket.phase(), Phase::Bound);

    // Listening.
    let mut socket = bound_tcp_v4(7101);
    listen(&mut socket, done()).unwrap();
    assert!(!socket.reuse_address());
    assert_eq!(configure_socket(&mut socket, done()), Ok(()));
    assert!(socket.reuse_address());
    assert_eq!(socket.phase(), Phase::Listening);
    assert_eq!(socket.requested(), Some(loopback_v4(7101)));
    // And it stays on.
    assert_eq!(configure_socket(&mut socket, done()), Ok(()));
    assert!(socket.reuse_address());

    // Shut down.
    let mut socket = tcp_v4();
    shutdown_socket(&mut socket);
    assert_eq!(configure_socket(&mut socket, done()), Ok(()));
    assert!(socket.reuse_address());
    assert_eq!(socket.phase(), Phase::ShutDown);
}

#[test]
fn late_configure_does_not_reach_back_to_the_bind() {
    let mut socket = bound_tcp_v4(7102);
    assert!(!socket.reuse_at_bind());
    configure_socket(&mut socket, done()).unwrap();
    // The option is on now, but the bind was made without it.
    assert!(socket.reuse_address());
    assert!(!socket.reuse_at_bind());
    listen(&mut socket, done()).unwrap();
    assert!(socket.reuse_address());
    assert!(!socket.reuse_at_bind());
}

#[test]
fn refused_configure_on_a_bound_handle_changes_nothing() {
    let mut socket = bound_tcp_v4(7103);
    assert_eq!(
        configure_socket(&mut socket, failed(ENOPROTOOPT)),
        Err(ConfigError { cause: OsError { code: Some(ENOPROTOOPT) } })
    );
    assert!(!socket.reuse_address());
    assert_eq!(socket.phase(), Phase::Bound);
}

#[test]
fn configure_fails_exactly_on_minus_one() {
    let mut socket = tcp_v4();
    assert_eq!(
        configure_socket(&mut socket, failed(ENOPROTOOPT)),
        Err(ConfigError { cause: OsError { code: Some(ENOPROTOOPT) } })
    );
    // The handle is usable but not configured.
    assert_eq!(socket.phase(), Phase::Created);
    assert!(!socket.reuse_address());
    // Any other value counts as success, whatever the error code beside it.
    assert_eq!(configure_socket(&mut socket, SysReturn { value: 7, errno: ENOPROTOOPT }), Ok(()));
    assert_eq!(socket.phase(), Phase::Configured);
}

#[test]
fn bind_with_port_zero_resolves_to_a_real_port() {
    let mut socket = tcp_v4();
    let addr = loopback_v4(0);
    assert_eq!(bind_socket(addr, &mut socket, Ok(())), Ok(()));
    assert_eq!(socket.phase(), Phase::Bound);
    assert_eq!(socket.requested(), Some(addr));

    let resolved = get_socket_address(&socket, reported(addr, 49152)).unwrap();
    assert_ne!(resolved.port(), 0);
    assert_eq!(resolved.port(), 49152);
    assert!(resolved.is_ipv4());
    assert!(!resolved.is_ipv6());
    assert_eq!(resolved.ip(), IpAddress::V4(127, 0, 0, 1));

    // A port of zero is no resolved address.
    assert_eq!(get_socket_address(&socket, reported(addr, 0)), Err(UnboundError::Unresolved));
}

#[test]
fn bind_with_port_zero_on_ipv6_resolves_to_ipv6() {
    let mut socket =
        create_socket(Domain::Ipv6, SocketType::Stream, Some(Protocol::Tcp), Ok(())).unwrap();
    let addr = loopback_v6(0);
    bind_socket(addr, &mut socket, Ok(())).unwrap();
    let resolved = get_socket_address(&socket, reported(addr, 50000)).unwrap();
    assert!(resolved.is_ipv6());
    assert_eq!(resolved.ip(), IpAddress::V6(0, 0, 0, 0, 0, 0, 0, 1));
    assert_eq!(resolved.port(), 50000);
    // An address of the other family cannot come of this bind.
    assert_eq!(
        get_socket_address(&socket, reported(loopback_v4(0), 50000)),
        Err(UnboundError::Unresolved)
    );
}

#[test]
fn local_address_must_match_the_bind() {
    let socket = bound_tcp_v4(8080);
    let addr = loopback_v4(8080);
    assert_eq!(
        get_socket_address(&socket, reported(addr, 8080)),
        Ok(BoundAddress { host: IpAddress::V4(127, 0, 0, 1), port: 8080 })
    );
    // Another port than the one asked for.
    assert_eq!(get_socket_address(&socket, reported(addr, 8081)), Err(UnboundError::Unresolved));
    // Another host.
    assert_eq!(
        get_socket_address(
            &socket,
            Ok(Some(BoundAddress { host: IpAddress::V4(10, 0, 0, 1), port: 8080 }))
        ),
        Err(UnboundError::Unresolved)
    );
    // No internet address at all.
    assert_eq!(get_socket_address(&socket, Ok(None)), Err(UnboundError::Unresolved));
    // The query itself failed.
    assert_eq!(
        get_socket_address(&socket, Err(OsError { code: Some(9) })),
        Err(UnboundError::Os(OsError { code: Some(9) }))
    );
}

#[test]
fn bind_rejects_an_address_of_the_other_family() {
    let mut socket = tcp_v4();
    assert_eq!(bind_socket(loopback_v6(0), &mut socket, Ok(())), Err(BindError::FamilyMismatch));
    assert_eq!(socket.bind_refusal(loopback_v6(0)), Some(BindError::FamilyMismatch));
    assert_eq!(socket.bind_refusal(loopback_v4(0)), None);
    assert_eq!(socket.phase(), Phase::Created);
    assert_eq!(socket.requested(), None);
}

#[test]
fn bind_twice_is_refused() {
    let mut socket = bound_tcp_v4(9000);
    assert_eq!(socket.bind_refusal(loopback_v4(9001)), Some(BindError::WrongPhase(Phase::Bound)));
    assert_eq!(
        bind_socket(loopback_v4(9001), &mut socket, Ok(())),
        Err(BindError::WrongPhase(Phase::Bound))
    );
    assert_eq!(socket.requested(), Some(loopback_v4(9000)));
}

#[test]
fn second_bind_to_a_taken_address_fails_without_reuse() {
    let port = random_port();
    let first = bound_tcp_v4(port);
    assert!(!first.reuse_address());
    assert!(!first.reuse_at_bind());

    // The first is alive, so the platform refuses the second.
    let mut second = tcp_v4();
    assert_eq!(
        bind_socket(loopback_v4(port), &mut second, Err(OsError { code: Some(EADDRINUSE) })),
        Err(BindError::Os(OsError { code: Some(EADDRINUSE) }))
    );
    assert_eq!(second.phase(), Phase::Created);
    assert_eq!(
        get_socket_address(&second, reported(loopback_v4(port), port)),
        Err(UnboundError::NotBound)
    );
    drop(first);
}

#[test]
fn rebind_after_release_succeeds_with_reuse() {
    let port = random_port();
    let first = bound_tcp_v4(port);
    drop(first);

    let mut second = tcp_v4();
    configure_socket(&mut second, done()).unwrap();
    assert_eq!(bind_socket(loopback_v4(port), &mut second, Ok(())), Ok(()));
    assert_eq!(second.phase(), Phase::Bound);
    assert!(second.reuse_address());
    assert!(second.reuse_at_bind());
    let resolved = get_socket_address(&second, reported(loopback_v4(port), port)).unwrap();
    assert_eq!(resolved.port(), port);
}

#[test]
fn bind_to_a_privileged_port_fails_with_the_platform_error() {
    let mut socket = tcp_v4();
    assert_eq!(
        bind_socket(loopback_v4(80), &mut socket, Err(OsError { code: Some(EACCES) })),
        Err(BindError::Os(OsError { code: Some(EACCES) }))
    );
    // The handle can still be bound elsewhere.
    assert_eq!(bind_socket(loopback_v4(8080), &mut socket, Ok(())), Ok(()));
}

#[test]
fn listen_before_bind_is_refused() {
    let mut socket = tcp_v4();
    assert_eq!(LISTEN_BACKLOG, 128);
    assert_eq!(socket.listen_refusal(), Some(ListenError::WrongPhase(Phase::Created)));
    assert_eq!(listen(&mut socket, done()), Err(ListenError::WrongPhase(Phase::Created)));
    configure_socket(&mut socket, done()).unwrap();
    assert_eq!(listen(&mut socket, done()), Err(ListenError::WrongPhase(Phase::Configured)));
    assert_eq!(socket.phase(), Phase::Configured);
}

#[test]
fn listen_twice_is_refused() {
    let mut socket = bound_tcp_v4(7000);
    assert_eq!(socket.listen_refusal(), None);
    assert_eq!(listen(&mut socket, done()), Ok(()));
    assert_eq!(socket.listen_refusal(), Some(ListenError::WrongPhase(Phase::Listening)));
    assert_eq!(listen(&mut socket, done()), Err(ListenError::WrongPhase(Phase::Listening)));
    assert_eq!(socket.phase(), Phase::Listening);
}

#[test]
fn listen_on_a_datagram_socket_is_refused() {
    let mut socket =
        create_socket(Domain::Ipv4, SocketType::Datagram, Some(Protocol::Udp), Ok(())).unwrap();
    bind_socket(loopback_v4(5353), &mut socket, Ok(())).unwrap();
    assert_eq!(listen(&mut socket, done()), Err(ListenError::WrongSocketType));
    assert_eq!(socket.phase(), Phase::Bound);
}

#[test]
fn listen_fails_on_any_value_but_zero() {
    let mut socket = bound_tcp_v4(7001);
    assert_eq!(
        listen(&mut socket, failed(EADDRINUSE)),
        Err(ListenError::Os(OsError { code: Some(EADDRINUSE) }))
    );
    assert_eq!(
        listen(&mut socket, SysReturn { value: 1, errno: 5 }),
        Err(ListenError::Os(OsError { code: Some(5) }))
    );
    assert_eq!(socket.phase(), Phase::Bound);
    // Still bound, so it can be tried again.
    assert_eq!(listen(&mut socket, done()), Ok(()));
}

#[test]
fn shut_down_handle_goes_nowhere() {
    let mut socket = tcp_v4();
    shutdown_socket(&mut socket);
    assert_eq!(socket.phase(), Phase::ShutDown);
    assert_eq!(
        bind_socket(loopback_v4(0), &mut socket, Ok(())),
        Err(BindError::WrongPhase(Phase::ShutDown))
    );
    assert_eq!(listen(&mut socket, done()), Err(ListenError::WrongPhase(Phase::ShutDown)));
    assert_eq!(configure_socket(&mut socket, done()), Ok(()));
    assert_eq!(socket.phase(), Phase::ShutDown);
    assert!(socket.reuse_address());
    assert!(!socket.reuse_at_bind());
    assert_eq!(socket.requested(), None);
}

#[test]
fn shut_down_handle_keeps_its_address() {
    let mut socket = bound_tcp_v4(6000);
    shutdown_socket(&mut socket);
    assert_eq!(
        get_socket_address(&socket, reported(loopback_v4(6000), 6000)),
        Ok(BoundAddress { host: IpAddress::V4(127, 0, 0, 1), port: 6000 })
    );
}

#[test]
fn address_spec_tells_family_and_ephemeral_port() {
    assert_eq!(loopback_v4(0).domain(), Domain::Ipv4);
    assert_eq!(loopback_v6(0).domain(), Domain::Ipv6);
    assert_eq!(IpAddress::V4(0, 0, 0, 0).domain(), Domain::Ipv4);
    assert!(loopback_v4(0).is_ephemeral());
    assert!(!loopback_v4(1).is_ephemeral());
    assert!(loopback_v4(0).accepts(BoundAddress { host: IpAddress::V4(127, 0, 0, 1), port: 1 }));
    assert!(!loopback_v4(2).accepts(BoundAddress { host: IpAddress::V4(127, 0, 0, 1), port: 1 }));
    assert_eq!(SysReturn { value: -1, errno: 11 }.os_error(), OsError { code: Some(11) });
}
