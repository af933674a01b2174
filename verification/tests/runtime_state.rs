use sfo_reuseport::net::wake_addr;
use sfo_reuseport::server::ListenerSocketChoice;
use sfo_reuseport::server_runtime::{
    check_worker_index, require_workers, resolve_worker_count, worker_count_for,
    worker_thread_name, ListenerProtocol, ListenerRegistry,
};
use sfo_reuseport::{
    Error, IpAddress, ServerRuntimeConfig, SocketAddress, TcpServer, UdpServer,
};

fn v4(a: u8, b: u8, c: u8, d: u8, port: u16) -> SocketAddress {
    SocketAddress { ip: IpAddress::V4([a, b, c, d]), port, flowinfo: 0, scope_id: 0 }
}

#[test]
fn worker_count_follows_config() {
    let fixed = ServerRuntimeConfig::new().with_workers(3);
    assert_eq!(worker_count_for(&fixed, 16).unwrap(), 3);
    let default = ServerRuntimeConfig::new();
    assert_eq!(worker_count_for(&default, 16).unwrap(), 16);
    assert_eq!(worker_count_for(&default, 0).unwrap(), 1);
    assert!(resolve_worker_count(&default).unwrap() >= 1);
    assert!(matches!(
        resolve_worker_count(&ServerRuntimeConfig::new().with_workers(0)),
        Err(Error::InvalidConfig(_))
    ));
}

#[test]
fn tcp_rejects_zero_runtime_workers() {
    let config = ServerRuntimeConfig::new().with_workers(0);
    match worker_count_for(&config, 4) {
        Err(error) => assert!(error.describe().contains("worker count")),
        Ok(n) => panic!("zero worker runtime should be rejected, got {n}"),
    }
    assert!(require_workers(0).is_err());
    assert!(require_workers(1).is_ok());
}

#[test]
fn worker_threads_are_named_by_index() {
    assert_eq!(worker_thread_name(0), "sfo-reuseport-worker-0");
    assert_eq!(worker_thread_name(17), "sfo-reuseport-worker-17");
    assert_eq!(worker_thread_name(120), "sfo-reuseport-worker-120");
}

#[test]
fn worker_index_must_name_a_started_worker() {
    assert!(check_worker_index(0, 1).is_ok());
    match check_worker_index(1, 1) {
        Err(Error::InvalidConfig(m)) => assert_eq!(m, "worker index is out of range"),
        other => panic!("unexpected {other:?}"),
    }
}

#[test]
fn listener_registry_assigns_increasing_ids_and_removes_once() {
    let mut registry: ListenerRegistry<&str> = ListenerRegistry::new();
    let a = registry.register(ListenerProtocol::Tcp, v4(127, 0, 0, 1, 80), "a");
    let b = registry.register(ListenerProtocol::Udp, v4(127, 0, 0, 1, 53), "b");
    assert_eq!(a.get(), 1);
    assert_eq!(b.get(), 2);
    let removed = registry.remove(a).unwrap();
    assert_eq!(removed.protocol, ListenerProtocol::Tcp);
    assert_eq!(removed.active, "a");
    assert!(matches!(registry.remove(a), Err(Error::UnknownListener)));
    assert_eq!(registry.remove(b).unwrap().addr, v4(127, 0, 0, 1, 53));
}

#[test]
fn wake_addr_replaces_unspecified_with_loopback() {
    assert_eq!(wake_addr(v4(0, 0, 0, 0, 8080)), v4(127, 0, 0, 1, 8080));
    assert_eq!(wake_addr(v4(10, 0, 0, 5, 8080)), v4(10, 0, 0, 5, 8080));
    let any6 = SocketAddress { ip: IpAddress::V6([0; 16]), port: 443, flowinfo: 7, scope_id: 3 };
    let mut loop6 = [0u8; 16];
    loop6[15] = 1;
    assert_eq!(wake_addr(any6), SocketAddress { ip: IpAddress::V6(loop6), port: 443, flowinfo: 0, scope_id: 0 });
    let mut link_local = [0u8; 16];
    link_local[0] = 0xfe;
    link_local[1] = 0x80;
    link_local[15] = 9;
    let scoped = SocketAddress { ip: IpAddress::V6(link_local), port: 443, flowinfo: 0, scope_id: 2 };
    assert_eq!(wake_addr(scoped), scoped);
}

#[test]
fn tcp_server_close_hands_back_tasks_once() {
    let mut server: TcpServer<u32> = TcpServer::new();
    assert!(server.is_active());
    server.register_task(1);
    server.register_task(2);
    assert_eq!(server.close(), vec![1, 2]);
    assert!(!server.is_active());
    assert!(server.close().is_empty());
}

#[test]
fn udp_server_listener_socket_choice() {
    let mut server: UdpServer<u32, &str> = UdpServer::new();
    assert!(matches!(
        server.choose_listener_socket(false, 0),
        Err(Error::Runtime(ref m)) if m == "server has no listener socket"
    ));
    assert_eq!(server.choose_listener_socket(true, 0).unwrap(), ListenerSocketChoice::ThreadLocal);
    server.register_listener_socket("s0");
    server.register_listener_socket("s1");
    server.register_listener_socket("s2");
    // Counter 0 xor seed 5 is 5, modulo 3 is 2; counter 1 xor 5 is 4, modulo 3 is 1.
    assert_eq!(server.choose_listener_socket(false, 5).unwrap(), ListenerSocketChoice::Pool(2));
    assert_eq!(server.choose_listener_socket(false, 5).unwrap(), ListenerSocketChoice::Pool(1));
    assert_eq!(*server.pool_socket(1), "s1");
    server.register_task(7);
    server.register_callback_task(8);
    server.register_close_socket("c0");
    let plan = server.close();
    assert_eq!(plan.shutdown_sockets, vec!["s0", "s1", "s2", "c0"]);
    assert_eq!(plan.cancel_tasks, vec![7]);
    assert_eq!(plan.release_tasks, vec![8]);
    assert!(matches!(
        server.choose_listener_socket(true, 0),
        Err(Error::Runtime(ref m)) if m == "server is closed"
    ));
}
