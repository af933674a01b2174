use sfo_reuseport::{
    Error, IpAddress, ServerRuntimeConfig, SocketAddress, SocketOptions, TcpServiceConfig,
    TransparentMode, UdpServiceConfig, WorkerCount, DEFAULT_ROUTED_PACKET_CHANNEL_CAPACITY,
};

fn loopback_any_port() -> SocketAddress {
    SocketAddress { ip: IpAddress::V4([127, 0, 0, 1]), port: 0, flowinfo: 0, scope_id: 0 }
}

#[test]
fn current_platform_can_construct_default_config() {
    let config = UdpServiceConfig::<()>::new(loopback_any_port())
        .with_socket_options(SocketOptions::default());
    assert!(config.socket_options.reuse_address);
}

#[test]
fn server_runtime_config_can_set_worker_count() {
    let config = ServerRuntimeConfig::new().with_workers(2);
    assert_eq!(config.workers, WorkerCount::Fixed(2));
}

#[test]
fn server_runtime_config_can_set_explicit_worker_count() {
    let config = ServerRuntimeConfig::new().with_workers(2);
    assert_eq!(config.workers, WorkerCount::Fixed(2));
}

#[test]
fn server_runtime_config_defaults_to_cpu_count_and_refuses_zero() {
    assert_eq!(ServerRuntimeConfig::new().workers, WorkerCount::Default);
    assert_eq!(ServerRuntimeConfig::default().workers, WorkerCount::Default);
    assert!(ServerRuntimeConfig::new().validate().is_ok());
    assert!(ServerRuntimeConfig::new().with_workers(1).validate().is_ok());
    match ServerRuntimeConfig::new().with_workers(0).validate() {
        Err(Error::InvalidConfig(m)) => assert_eq!(m, "worker count must be greater than zero"),
        other => panic!("unexpected {other:?}"),
    }
}

#[test]
fn service_config_records_bind_addr_without_worker_count() {
    let addr = loopback_any_port();
    let config = UdpServiceConfig::<()>::new(addr);
    assert_eq!(config.bind_addr, addr);
}

#[test]
fn service_config_exposes_per_worker_concurrency_limit() {
    let addr = loopback_any_port();

    assert_eq!(TcpServiceConfig::<()>::new(addr).max_concurrency_per_worker(), None);
    assert_eq!(UdpServiceConfig::<()>::new(addr).max_concurrency_per_worker(), None);
    assert_eq!(
        TcpServiceConfig::<()>::new(addr)
            .with_max_concurrency_per_worker(2)
            .max_concurrency_per_worker(),
        Some(2)
    );
    assert_eq!(
        UdpServiceConfig::<()>::new(addr)
            .with_max_concurrency_per_worker(0)
            .max_concurrency_per_worker(),
        Some(0)
    );
    assert_eq!(
        UdpServiceConfig::<()>::new(addr)
            .with_max_concurrency_per_worker(2)
            .max_concurrency_per_worker(),
        Some(2)
    );
}

#[test]
fn service_config_exposes_routed_packet_channel_capacity() {
    let addr = loopback_any_port();

    assert_eq!(
        UdpServiceConfig::<()>::new(addr).routed_packet_channel_capacity(),
        DEFAULT_ROUTED_PACKET_CHANNEL_CAPACITY
    );
    assert_eq!(
        UdpServiceConfig::<()>::new(addr)
            .with_routed_packet_channel_capacity(128)
            .routed_packet_channel_capacity(),
        128
    );
    let result = UdpServiceConfig::<()>::new(addr)
        .with_routed_packet_channel_capacity(0)
        .validate();
    assert!(matches!(result, Err(Error::InvalidConfig(_))));
    assert!(TcpServiceConfig::<()>::new(addr).validate().is_ok());
}

#[test]
fn service_config_types_are_split_by_protocol_family() {
    // Only the UDP configuration carries a routed-datagram queue capacity.
    let addr = loopback_any_port();
    let udp = UdpServiceConfig::<()>::new(addr);
    let tcp = TcpServiceConfig::<()>::new(addr);
    assert_eq!(udp.routed_packet_channel_capacity, 4096);
    assert_eq!(tcp.bind_addr, udp.bind_addr);
    assert!(udp.validate().is_ok());
    assert!(tcp.validate().is_ok());
}

#[test]
fn service_configs_default_without_socket_init_callback() {
    let tcp = TcpServiceConfig::<()>::new(loopback_any_port());
    let udp = UdpServiceConfig::<()>::new(loopback_any_port());
    assert!(tcp.socket_init_callback.is_none());
    assert!(udp.socket_init_callback.is_none());
}

#[test]
fn socket_init_callback_builder_sets_and_clears_callback() {
    let config = TcpServiceConfig::new(loopback_any_port()).with_socket_init_callback(|| 1);
    assert!(config.socket_init_callback.is_some());

    let config = config.without_socket_init_callback();
    assert!(config.socket_init_callback.is_none());

    let config = UdpServiceConfig::new(loopback_any_port()).with_socket_init_callback(|| 2);
    assert!(config.socket_init_callback.is_some());
}

#[test]
fn socket_options_default_to_reuse_address_without_transparent() {
    let options = SocketOptions::default();
    assert!(options.reuse_address);
    assert_eq!(options.ipv4_transparent, TransparentMode::Disabled);
    assert_eq!(options.ipv6_transparent, TransparentMode::Disabled);
}
