//! Verified core of a reuse-port style TCP/UDP/QUIC worker server: packet
//! routing, connection-id layout, scheduling, configuration and the state
//! machines that the server loops drive.

pub mod quic;
pub mod error;

pub use error::{Error, SocketError, SocketErrorKind};
pub mod net;
pub use net::{IpAddress, PacketMeta, SocketAddress};
pub mod schedule;
pub mod text;
pub mod cid;
pub use cid::QuicCidGenerator;
pub mod bpf;
pub mod config;
pub use config::{
    DEFAULT_ROUTED_PACKET_CHANNEL_CAPACITY, ServerRuntimeConfig, SocketOptions, TcpServiceConfig,
    TransparentMode, UdpServiceConfig, WorkerCount,
};
pub mod platform;
pub use platform::{TargetPlatform, supports_quic_reuseport_bpf, supports_reuse_port_balancing};
pub mod concurrency;
pub use concurrency::{ConcurrencyPermit, WorkerConcurrencyLimit};
pub mod server_runtime;
pub mod server;
pub use server::{TcpServer, UdpServer};
pub mod dispatch;
pub mod datagram;
pub mod executor;
