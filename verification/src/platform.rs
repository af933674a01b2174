//! What each target platform offers, and the per-platform decisions taken
//! while a listening socket is set up.

use vstd::prelude::*;
use crate::config::{SocketOptions, TransparentMode};
use crate::error::{Error, is_invalid_config, is_unsupported_option};
use crate::schedule::zero_workers_message;

verus! {

/// The operating systems the server runs on.
#[derive(Clone, Copy, Debug, PartialEq, Eq, Structural)]
pub enum TargetPlatform {
    Linux,
    Android,
    MacOs,
    FreeBsd,
    Windows,
}

/// Whether the kernel balances connections and datagrams among sockets that
/// share a port: everywhere but on Windows.
pub fn supports_reuse_port_balancing(platform: TargetPlatform) -> (res: bool)
    ensures
        res == (platform != TargetPlatform::Windows),
{
    match platform {
        TargetPlatform::Windows => false,
        _ => true,
    }
}

/// Whether a reuse-port group can be steered by a BPF program: on Linux only.
pub fn supports_quic_reuseport_bpf(platform: TargetPlatform) -> (res: bool)
    ensures
        res == (platform == TargetPlatform::Linux),
{
    match platform {
        TargetPlatform::Linux => true,
        _ => false,
    }
}

/// Whether listening sockets get `SO_REUSEPORT`: on the Unix platforms.
pub fn sets_reuse_port(platform: TargetPlatform) -> (res: bool)
    ensures
        res == (platform != TargetPlatform::Windows),
{
    match platform {
        TargetPlatform::Windows => false,
        _ => true,
    }
}

/// How many listening sockets a service binds for `workers` workers: one per
/// worker where the kernel balances, else a single shared one.
pub fn listener_socket_count(platform: TargetPlatform, workers: usize) -> (res: usize)
    ensures
        res == if platform != TargetPlatform::Windows { workers } else { 1 },
{
    if supports_reuse_port_balancing(platform) {
        workers
    } else {
        1
    }
}

/// What to do to a socket about transparency.
#[derive(Clone, Copy, Debug, PartialEq, Eq, Structural)]
pub enum TransparentAction {
    /// Leave the socket as it is.
    Leave,
    /// Make it transparent and ignore a failure.
    TryEnable,
    /// Make it transparent; a failure fails the bind.
    Enable,
}

pub open spec fn ipv4_bind_required_message() -> Seq<char> {
    "ipv4 transparent requires an IPv4 bind address"@
}

pub open spec fn bsd_transparent_message() -> Seq<char> {
    "ipv4 transparent sockets are only supported on Linux targets"@
}

pub open spec fn windows_transparent_message() -> Seq<char> {
    "transparent sockets are only supported on Linux targets"@
}

/// The transparency decision for a socket about to be bound to an address of
/// the given family on `platform`.
///
/// On Linux and Android only IPv4 transparency is applied: for an IPv4
/// address `BestEffort` tries and `Required` insists; for an IPv6 address
/// `Required` is refused. On macOS and FreeBSD an IPv4 `Required` is refused.
/// On Windows a `Required` for either family is refused. Everything else
/// leaves the socket as it is.
pub fn transparent_action(platform: TargetPlatform, bind_is_ipv4: bool, options: SocketOptions) -> (res:
    Result<TransparentAction, Error>)
    ensures
        (platform == TargetPlatform::Linux || platform == TargetPlatform::Android) ==> {
            if !bind_is_ipv4 {
                if options.ipv4_transparent == TransparentMode::Required {
                    res matches Err(e) && is_unsupported_option(e, ipv4_bind_required_message())
                } else {
                    res == Ok::<TransparentAction, Error>(TransparentAction::Leave)
                }
            } else {
                res == Ok::<TransparentAction, Error>(match options.ipv4_transparent {
                    TransparentMode::Disabled => TransparentAction::Leave,
                    TransparentMode::BestEffort => TransparentAction::TryEnable,
                    TransparentMode::Required => TransparentAction::Enable,
                })
            }
        },
        (platform == TargetPlatform::MacOs || platform == TargetPlatform::FreeBsd) ==> {
            if options.ipv4_transparent == TransparentMode::Required {
                res matches Err(e) && is_unsupported_option(e, bsd_transparent_message())
            } else {
                res == Ok::<TransparentAction, Error>(TransparentAction::Leave)
            }
        },
        platform == TargetPlatform::Windows ==> {
            if options.ipv4_transparent == TransparentMode::Required || options.ipv6_transparent
                == TransparentMode::Required {
                res matches Err(e) && is_unsupported_option(e, windows_transparent_message())
            } else {
                res == Ok::<TransparentAction, Error>(TransparentAction::Leave)
            }
        },
{
    match platform {
        TargetPlatform::Linux | TargetPlatform::Android => {
            if !bind_is_ipv4 {
                return match options.ipv4_transparent {
                    TransparentMode::Disabled | TransparentMode::BestEffort => Ok(
                        TransparentAction::Leave,
                    ),
                    TransparentMode::Required => Err(
                        Error::UnsupportedPlatformOption(
                            "ipv4 transparent requires an IPv4 bind address".to_owned(),
                        ),
                    ),
                };
            }
            match options.ipv4_transparent {
                TransparentMode::Disabled => Ok(TransparentAction::Leave),
                TransparentMode::BestEffort => Ok(TransparentAction::TryEnable),
                TransparentMode::Required => Ok(TransparentAction::Enable),
            }
        },
        TargetPlatform::MacOs | TargetPlatform::FreeBsd => match options.ipv4_transparent {
            TransparentMode::Disabled | TransparentMode::BestEffort => Ok(TransparentAction::Leave),
            TransparentMode::Required => Err(
                Error::UnsupportedPlatformOption(
                    "ipv4 transparent sockets are only supported on Linux targets".to_owned(),
                ),
            ),
        },
        TargetPlatform::Windows => {
            match (options.ipv4_transparent, options.ipv6_transparent) {
                (TransparentMode::Required, _) | (_, TransparentMode::Required) => Err(
                    Error::UnsupportedPlatformOption(
                        "transparent sockets are only supported on Linux targets".to_owned(),
                    ),
                ),
                _ => Ok(TransparentAction::Leave),
            }
        },
    }
}

/// Whether a group of reuse-port sockets steered by BPF should be tried for a
/// QUIC service: `Ok(false)` where the platform cannot steer or the operator
/// turned the kernel path off (`bpf_disabled`), an error when there is no
/// worker, else `Ok(true)`.
pub fn quic_reuseport_group_allowed(platform: TargetPlatform, workers: usize, bpf_disabled: bool) -> (res: Result<
    bool,
    Error,
>)
    ensures
        platform != TargetPlatform::Linux || bpf_disabled ==> res == Ok::<bool, Error>(false),
        platform == TargetPlatform::Linux && !bpf_disabled && workers == 0 ==> (res matches Err(e)
            && is_invalid_config(e, zero_workers_message())),
        platform == TargetPlatform::Linux && !bpf_disabled && workers > 0 ==> res == Ok::<
            bool,
            Error,
        >(true),
{
    if !supports_quic_reuseport_bpf(platform) || bpf_disabled {
        return Ok(false);
    }
    if workers == 0 {
        return Err(Error::InvalidConfig("worker count must be greater than zero".to_owned()));
    }
    Ok(true)
}

/// The outcome of building a steered group for `workers` workers from the
/// sockets that could be bound: the group when every worker got a socket
/// and a program was attached, else `None`, in which case the service falls
/// back to routing in user space.
pub fn steered_group<S>(sockets: Vec<S>, workers: usize, attached: bool) -> (res: Option<Vec<S>>)
    ensures
        res is Some <==> (sockets@.len() == workers && attached),
        res matches Some(group) ==> group@ == sockets@,
{
    if sockets.len() == workers && attached {
        Some(sockets)
    } else {
        None
    }
}

} // verus!
