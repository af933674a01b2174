use sfo_reuseport::{Error, SocketError, SocketErrorKind};

#[test]
fn handler_error_is_distinguishable() {
    let error = Error::Handler("boom".to_string());
    assert!(error.describe().contains("handler error"));
}

#[test]
fn socket_init_callback_error_is_distinguishable() {
    let error = Error::SocketInitCallback("custom option failed".to_string());
    assert!(error.describe().contains("socket init callback"));
    assert!(error.describe().contains("custom option failed"));
}

#[test]
fn error_descriptions_name_their_kind() {
    assert_eq!(Error::InvalidConfig("x".into()).describe(), "invalid config: x");
    assert_eq!(
        Error::UnsupportedPlatformOption("y".into()).describe(),
        "unsupported platform option: y"
    );
    assert_eq!(Error::PermissionDenied("z".into()).describe(), "permission denied: z");
    assert_eq!(Error::Runtime("r".into()).describe(), "runtime error: r");
    assert_eq!(Error::UnknownListener.describe(), "unknown listener");
    let socket = Error::Socket(SocketError {
        kind: SocketErrorKind::AddrInUse,
        message: "Address in use".into(),
    });
    assert_eq!(socket.describe(), "socket error: Address in use");
}

#[test]
fn permission_denied_socket_errors_are_classified() {
    let denied = Error::socket(SocketError {
        kind: SocketErrorKind::PermissionDenied,
        message: "Permission denied (os error 13)".into(),
    });
    match denied {
        Error::PermissionDenied(m) => assert_eq!(m, "Permission denied (os error 13)"),
        other => panic!("unexpected {other:?}"),
    }
    let other = Error::socket(SocketError {
        kind: SocketErrorKind::ConnectionRefused,
        message: "refused".into(),
    });
    match other {
        Error::Socket(s) => {
            assert_eq!(s.kind, SocketErrorKind::ConnectionRefused);
            assert_eq!(s.message, "refused");
        }
        other => panic!("unexpected {other:?}"),
    }
}

#[test]
fn socket_init_callback_failure_wraps_description() {
    let wrapped = Error::socket_init_callback(&Error::Handler("boom".into()));
    match wrapped {
        Error::SocketInitCallback(m) => assert_eq!(m, "handler error: boom"),
        other => panic!("unexpected {other:?}"),
    }
}
