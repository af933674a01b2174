use sfo_reuseport::platform::{
    listener_socket_count, quic_reuseport_group_allowed, sets_reuse_port, steered_group, transparent_action,
    TransparentAction,
};
use sfo_reuseport::{
    supports_quic_reuseport_bpf, supports_reuse_port_balancing, Error, SocketOptions,
    TargetPlatform, TransparentMode,
};

const ALL: [TargetPlatform; 5] = [
    TargetPlatform::Linux,
    TargetPlatform::Android,
    TargetPlatform::MacOs,
    TargetPlatform::FreeBsd,
    TargetPlatform::Windows,
];

fn options(v4: TransparentMode, v6: TransparentMode) -> SocketOptions {
    SocketOptions { reuse_address: true, ipv4_transparent: v4, ipv6_transparent: v6 }
}

#[test]
fn reuse_port_capability_matches_target_family() {
    assert!(supports_reuse_port_balancing(TargetPlatform::Linux));
    assert!(supports_reuse_port_balancing(TargetPlatform::Android));
    assert!(supports_reuse_port_balancing(TargetPlatform::MacOs));
    assert!(supports_reuse_port_balancing(TargetPlatform::FreeBsd));
    assert!(!supports_reuse_port_balancing(TargetPlatform::Windows));
    assert!(supports_quic_reuseport_bpf(TargetPlatform::Linux));
    for platform in [
        TargetPlatform::Android,
        TargetPlatform::MacOs,
        TargetPlatform::FreeBsd,
        TargetPlatform::Windows,
    ] {
        assert!(!supports_quic_reuseport_bpf(platform));
    }
}

#[test]
fn platform_backends_share_internal_capability_interface() {
    // Every backend answers the same questions.
    for platform in ALL {
        let balancing = supports_reuse_port_balancing(platform);
        assert_eq!(sets_reuse_port(platform), balancing);
        assert_eq!(listener_socket_count(platform, 4), if balancing { 4 } else { 1 });
        let defaults = SocketOptions::default();
        assert_eq!(transparent_action(platform, true, defaults).unwrap(), TransparentAction::Leave);
        assert_eq!(transparent_action(platform, false, defaults).unwrap(), TransparentAction::Leave);
        let allowed = quic_reuseport_group_allowed(platform, 2, false).unwrap();
        assert_eq!(allowed, supports_quic_reuseport_bpf(platform));
    }
}

#[test]
fn linux_applies_ipv4_transparency_by_mode() {
    let required = options(TransparentMode::Required, TransparentMode::Disabled);
    let best = options(TransparentMode::BestEffort, TransparentMode::Disabled);
    for platform in [TargetPlatform::Linux, TargetPlatform::Android] {
        assert_eq!(transparent_action(platform, true, required).unwrap(), TransparentAction::Enable);
        assert_eq!(transparent_action(platform, true, best).unwrap(), TransparentAction::TryEnable);
        assert_eq!(transparent_action(platform, false, best).unwrap(), TransparentAction::Leave);
        match transparent_action(platform, false, required) {
            Err(Error::UnsupportedPlatformOption(m)) => {
                assert_eq!(m, "ipv4 transparent requires an IPv4 bind address")
            }
            other => panic!("unexpected {other:?}"),
        }
        let v6_required = options(TransparentMode::Disabled, TransparentMode::Required);
        assert_eq!(
            transparent_action(platform, false, v6_required).unwrap(),
            TransparentAction::Leave
        );
    }
}

#[test]
fn non_linux_platforms_refuse_required_transparency() {
    let required = options(TransparentMode::Required, TransparentMode::Disabled);
    for platform in [TargetPlatform::MacOs, TargetPlatform::FreeBsd] {
        match transparent_action(platform, true, required) {
            Err(Error::UnsupportedPlatformOption(m)) => {
                assert!(m.contains("transparent"))
            }
            other => panic!("unexpected {other:?}"),
        }
    }
    let v6_required = options(TransparentMode::Disabled, TransparentMode::Required);
    assert!(matches!(
        transparent_action(TargetPlatform::Windows, false, v6_required),
        Err(Error::UnsupportedPlatformOption(_))
    ));
    assert!(matches!(
        transparent_action(TargetPlatform::Windows, true, required),
        Err(Error::UnsupportedPlatformOption(_))
    ));
}

#[test]
fn quic_reuseport_group_needs_workers_on_linux() {
    assert!(matches!(
        quic_reuseport_group_allowed(TargetPlatform::Linux, 0, false),
        Err(Error::InvalidConfig(_))
    ));
    assert!(!quic_reuseport_group_allowed(TargetPlatform::MacOs, 0, false).unwrap());
}

#[test]
fn disabled_kernel_steering_falls_back_to_user_space() {
    assert!(!quic_reuseport_group_allowed(TargetPlatform::Linux, 4, true).unwrap());
    assert!(!quic_reuseport_group_allowed(TargetPlatform::Linux, 0, true).unwrap());
}

#[test]
fn steered_group_needs_every_socket_and_a_program() {
    assert_eq!(steered_group(vec![1, 2, 3], 3, true), Some(vec![1, 2, 3]));
    assert_eq!(steered_group(vec![1, 2, 3], 3, false), None);
    assert_eq!(steered_group(vec![1, 2], 3, true), None);
}
