//! Lifecycle of a TCP listener, kept apart from the platform calls that carry it out.
//!
//! The crate decides; its caller performs. Every function here takes what the
//! platform answered to one request and says what follows from it: the next
//! phase of the socket handle, the error to raise, the next request to make.

pub mod acceptor;
pub mod address;
pub mod error;
pub mod connection;
pub mod handle;

pub use acceptor::{accept_connections, AcceptLoop, LoopAction, LoopEvent};
pub use address::{AddressSpec, BoundAddress, Domain, IpAddress};
pub use connection::{
    read_and_write, response_bytes, ChannelAction, ChannelEvent, ConnectionContext, Stage,
    READ_CAPACITY, RESPONSE_LEN,
};
pub use error::{
    AcceptError, AllocationError, BindError, ConfigError, IoError, ListenError, OsError,
    SysReturn, UnboundError,
};
pub use handle::{
    bind_socket, configure_socket, create_socket, get_socket_address, listen, shutdown_socket,
    Phase, Protocol, SocketHandle, SocketType, LISTEN_BACKLOG, REUSE_ADDRESS_ON,
};
