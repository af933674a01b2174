//! Configuration of the worker runtime and of the TCP and UDP services.

use vstd::prelude::*;
use crate::error::{Error, is_invalid_config};
use crate::net::SocketAddress;
use crate::schedule::zero_workers_message;

verus! {

/// The capacity of the queue of datagrams routed to each worker when the
/// kernel does not balance a UDP service.
pub const DEFAULT_ROUTED_PACKET_CHANNEL_CAPACITY: usize = 4096;

/// How many workers the runtime starts.
#[derive(Clone, Copy, Debug, PartialEq, Eq, Structural)]
pub enum WorkerCount {
    /// One worker per available CPU.
    Default,
    /// Exactly this many workers.
    Fixed(usize),
}

/// Whether a listening socket must, may or must not be made transparent.
#[derive(Clone, Copy, Debug, PartialEq, Eq, Structural)]
pub enum TransparentMode {
    Disabled,
    Required,
    BestEffort,
}

/// Options applied to every listening socket of a service.
#[derive(Clone, Copy, Debug, PartialEq, Eq, Structural)]
pub struct SocketOptions {
    pub reuse_address: bool,
    pub ipv4_transparent: TransparentMode,
    pub ipv6_transparent: TransparentMode,
}

impl Default for SocketOptions {
    /// Address reuse on, transparency off.
    fn default() -> (res: Self)
        ensures
            res.reuse_address,
            res.ipv4_transparent == TransparentMode::Disabled,
            res.ipv6_transparent == TransparentMode::Disabled,
    {
        SocketOptions {
            reuse_address: true,
            ipv4_transparent: TransparentMode::Disabled,
            ipv6_transparent: TransparentMode::Disabled,
        }
    }
}

/// Configuration of the worker runtime.
#[derive(Clone, Copy, Debug, PartialEq, Eq, Structural)]
pub struct ServerRuntimeConfig {
    pub workers: WorkerCount,
}

impl Default for ServerRuntimeConfig {
    fn default() -> (res: Self)
        ensures
            res.workers == WorkerCount::Default,
    {
        ServerRuntimeConfig { workers: WorkerCount::Default }
    }
}

impl ServerRuntimeConfig {
    /// One worker per available CPU.
    pub fn new() -> (res: Self)
        ensures
            res.workers == WorkerCount::Default,
    {
        ServerRuntimeConfig { workers: WorkerCount::Default }
    }

    /// Exactly `workers` workers.
    pub fn with_workers(self, workers: usize) -> (res: Self)
        ensures
            res.workers == WorkerCount::Fixed(workers),
    {
        ServerRuntimeConfig { workers: WorkerCount::Fixed(workers), ..self }
    }

    /// Refuses a fixed count of zero workers.
    pub fn validate(&self) -> (res: Result<(), Error>)
        ensures
            res is Err <==> self.workers == WorkerCount::Fixed(0),
            res matches Err(e) ==> is_invalid_config(e, zero_workers_message()),
    {
        match self.workers {
            WorkerCount::Fixed(0) => Err(
                Error::InvalidConfig("worker count must be greater than zero".to_owned()),
            ),
            _ => Ok(()),
        }
    }
}

/// Configuration of a TCP service. `C` is the type of the callback run on
/// each new socket before it is bound; the library only carries it.
#[derive(Clone, Debug)]
pub struct TcpServiceConfig<C> {
    pub bind_addr: SocketAddress,
    pub socket_options: SocketOptions,
    pub socket_init_callback: Option<C>,
    pub max_concurrency_per_worker: Option<usize>,
}

impl<C> TcpServiceConfig<C> {
    /// A service bound to `bind_addr` with default options, no callback and
    /// no concurrency limit.
    pub fn new(bind_addr: SocketAddress) -> (res: Self)
        ensures
            res.bind_addr == bind_addr,
            res.socket_options == (SocketOptions {
                reuse_address: true,
                ipv4_transparent: TransparentMode::Disabled,
                ipv6_transparent: TransparentMode::Disabled,
            }),
            res.socket_init_callback is None,
            res.max_concurrency_per_worker is None,
    {
        TcpServiceConfig {
            bind_addr,
            socket_options: SocketOptions::default(),
            socket_init_callback: None,
            max_concurrency_per_worker: None,
        }
    }

    pub fn with_socket_options(self, socket_options: SocketOptions) -> (res: Self)
        ensures
            res == (TcpServiceConfig { socket_options, ..self }),
    {
        TcpServiceConfig { socket_options, ..self }
    }

    pub fn with_socket_init_callback(self, callback: C) -> (res: Self)
        ensures
            res == (TcpServiceConfig { socket_init_callback: Some(callback), ..self }),
    {
        TcpServiceConfig { socket_init_callback: Some(callback), ..self }
    }

    pub fn without_socket_init_callback(self) -> (res: Self)
        ensures
            res == (TcpServiceConfig { socket_init_callback: None, ..self }),
    {
        TcpServiceConfig { socket_init_callback: None, ..self }
    }

    pub fn with_max_concurrency_per_worker(self, max: usize) -> (res: Self)
        ensures
            res == (TcpServiceConfig { max_concurrency_per_worker: Some(max), ..self }),
    {
        TcpServiceConfig { max_concurrency_per_worker: Some(max), ..self }
    }

    pub fn max_concurrency_per_worker(&self) -> (res: Option<usize>)
        ensures
            res == self.max_concurrency_per_worker,
    {
        self.max_concurrency_per_worker
    }

    /// A TCP service configuration is always accepted.
    pub fn validate(&self) -> (res: Result<(), Error>)
        ensures
            res is Ok,
    {
        Ok(())
    }
}

/// Configuration of a UDP (or QUIC) service. `C` is the type of the callback
/// run on each new socket before it is bound; the library only carries it.
#[derive(Clone, Debug)]
pub struct UdpServiceConfig<C> {
    pub bind_addr: SocketAddress,
    pub socket_options: SocketOptions,
    pub socket_init_callback: Option<C>,
    pub max_concurrency_per_worker: Option<usize>,
    pub routed_packet_channel_capacity: usize,
}

pub open spec fn routed_capacity_message() -> Seq<char> {
    "routed packet channel capacity must be greater than zero"@
}

impl<C> UdpServiceConfig<C> {
    /// A service bound to `bind_addr` with default options, no callback, no
    /// concurrency limit and the default routed-datagram queue capacity.
    pub fn new(bind_addr: SocketAddress) -> (res: Self)
        ensures
            res.bind_addr == bind_addr,
            res.socket_options == (SocketOptions {
                reuse_address: true,
                ipv4_transparent: TransparentMode::Disabled,
                ipv6_transparent: TransparentMode::Disabled,
            }),
            res.socket_init_callback is None,
            res.max_concurrency_per_worker is None,
            res.routed_packet_channel_capacity == DEFAULT_ROUTED_PACKET_CHANNEL_CAPACITY,
    {
        UdpServiceConfig {
            bind_addr,
            socket_options: SocketOptions::default(),
            socket_init_callback: None,
            max_concurrency_per_worker: None,
            routed_packet_channel_capacity: DEFAULT_ROUTED_PACKET_CHANNEL_CAPACITY,
        }
    }

    pub fn with_socket_options(self, socket_options: SocketOptions) -> (res: Self)
        ensures
            res == (UdpServiceConfig { socket_options, ..self }),
    {
        UdpServiceConfig { socket_options, ..self }
    }

    pub fn with_socket_init_callback(self, callback: C) -> (res: Self)
        ensures
            res == (UdpServiceConfig { socket_init_callback: Some(callback), ..self }),
    {
        UdpServiceConfig { socket_init_callback: Some(callback), ..self }
    }

    pub fn without_socket_init_callback(self) -> (res: Self)
        ensures
            res == (UdpServiceConfig { socket_init_callback: None, ..self }),
    {
        UdpServiceConfig { socket_init_callback: None, ..self }
    }

    pub fn with_max_concurrency_per_worker(self, max: usize) -> (res: Self)
        ensures
            res == (UdpServiceConfig { max_concurrency_per_worker: Some(max), ..self }),
    {
        UdpServiceConfig { max_concurrency_per_worker: Some(max), ..self }
    }

    pub fn max_concurrency_per_worker(&self) -> (res: Option<usize>)
        ensures
            res == self.max_concurrency_per_worker,
    {
        self.max_concurrency_per_worker
    }

    pub fn with_routed_packet_channel_capacity(self, capacity: usize) -> (res: Self)
        ensures
            res == (UdpServiceConfig { routed_packet_channel_capacity: capacity, ..self }),
    {
        UdpServiceConfig { routed_packet_channel_capacity: capacity, ..self }
    }

    pub fn routed_packet_channel_capacity(&self) -> (res: usize)
        ensures
            res == self.routed_packet_channel_capacity,
    {
        self.routed_packet_channel_capacity
    }

    /// Refuses a routed-datagram queue of capacity zero.
    pub fn validate_routed_packet_channel_capacity(&self) -> (res: Result<(), Error>)
        ensures
            res is Err <==> self.routed_packet_channel_capacity == 0,
            res matches Err(e) ==> is_invalid_config(e, routed_capacity_message()),
    {
        if self.routed_packet_channel_capacity == 0 {
            return Err(
                Error::InvalidConfig(
                    "routed packet channel capacity must be greater than zero".to_owned(),
                ),
            );
        }
        Ok(())
    }

    /// A UDP service configuration is accepted exactly when its routed
    /// datagram queue has room.
    pub fn validate(&self) -> (res: Result<(), Error>)
        ensures
            res is Err <==> self.routed_packet_channel_capacity == 0,
            res matches Err(e) ==> is_invalid_config(e, routed_capacity_message()),
    {
        self.validate_routed_packet_channel_capacity()
    }
}

} // verus!
