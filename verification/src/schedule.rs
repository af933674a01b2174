//! Deterministic worker selection for connections and datagrams that the
//! kernel does not balance: an FNV-1a hash of the peer and local addresses.

use vstd::prelude::*;
use crate::error::{Error, is_invalid_config};
use crate::net::{IpAddress, PacketMeta, SocketAddress, spec_octets};

verus! {

pub const FNV_OFFSET: u64 = 0xcbf29ce484222325;

pub const FNV_PRIME: u64 = 0x100000001b3;

/// One FNV-1a round: xor the byte in, then multiply by the prime modulo 2^64.
#[verifier::opaque]
pub open spec fn spec_fnv_step(hash: u64, byte: u8) -> u64 {
    vstd::wrapping::u64_specs::wrapping_mul(hash ^ (byte as u64), FNV_PRIME)
}

/// FNV-1a over `bytes`, starting from `hash`.
pub open spec fn spec_fnv(hash: u64, bytes: Seq<u8>) -> u64
    decreases bytes.len(),
{
    if bytes.len() == 0 {
        hash
    } else {
        spec_fnv_step(spec_fnv(hash, bytes.drop_last()), bytes.last())
    }
}

/// The bytes of a port in network order.
pub open spec fn spec_port_bytes(port: u16) -> Seq<u8> {
    seq![(port / 256) as u8, (port % 256) as u8]
}

/// The bytes that an optional address contributes to the hash: a zero byte
/// when it is absent, else the family tag (4 or 6), the octets and the port.
pub open spec fn spec_addr_bytes(addr: Option<SocketAddress>) -> Seq<u8> {
    match addr {
        None => seq![0u8],
        Some(a) => match a.ip {
            IpAddress::V4(_) => seq![4u8] + spec_octets(a.ip) + spec_port_bytes(a.port),
            IpAddress::V6(_) => seq![6u8] + spec_octets(a.ip) + spec_port_bytes(a.port),
        },
    }
}

/// The bytes hashed for a datagram's addresses: the peer's, then the local one.
pub open spec fn spec_meta_bytes(meta: PacketMeta) -> Seq<u8> {
    spec_addr_bytes(meta.peer_addr) + spec_addr_bytes(meta.local_addr)
}

/// The hash that selects a worker for `meta`.
pub open spec fn spec_meta_hash(meta: PacketMeta) -> u64 {
    spec_fnv(FNV_OFFSET, spec_meta_bytes(meta))
}

/// The worker chosen for `meta` among `workers` workers.
pub open spec fn spec_select(meta: PacketMeta, workers: usize) -> int {
    ((spec_meta_hash(meta) as usize) % workers) as int
}

/// Hashing a concatenation is hashing the second part from where the first
/// part left the hash.
pub proof fn lemma_fnv_append(hash: u64, a: Seq<u8>, b: Seq<u8>)
    ensures
        spec_fnv(hash, a + b) == spec_fnv(spec_fnv(hash, a), b),
    decreases b.len(),
{
    if b.len() == 0 {
        assert(a + b =~= a);
    } else {
        assert((a + b).drop_last() =~= a + b.drop_last());
        assert((a + b).last() == b.last());
        lemma_fnv_append(hash, a, b.drop_last());
    }
}

fn write_u8(hash: &mut u64, value: u8)
    ensures
        *final(hash) == spec_fnv_step(*old(hash), value),
{
    *hash = *hash ^ (value as u64);
    *hash = hash.wrapping_mul(FNV_PRIME);
    proof {
        reveal(spec_fnv_step);
    }
}

fn write_bytes(hash: &mut u64, bytes: &[u8])
    ensures
        *final(hash) == spec_fnv(*old(hash), bytes@),
{
    let ghost start = *hash;
    let mut i: usize = 0;
    while i < bytes.len()
        invariant
            i <= bytes@.len(),
            *hash == spec_fnv(start, bytes@.take(i as int)),
        decreases bytes@.len() - i,
    {
        write_u8(hash, bytes[i]);
        assert(bytes@.take(i + 1).drop_last() =~= bytes@.take(i as int));
        i = i + 1;
    }
    assert(bytes@.take(i as int) =~= bytes@);
}

fn write_u16(hash: &mut u64, value: u16)
    ensures
        *final(hash) == spec_fnv(*old(hash), spec_port_bytes(value)),
{
    let hi: u8 = (value >> 8u16) as u8;
    let lo: u8 = (value & 0xffu16) as u8;
    assert(hi == (value / 256) as u8 && lo == (value % 256) as u8) by (bit_vector)
        requires
            hi == (value >> 8u16) as u8,
            lo == (value & 0xffu16) as u8,
    ;
    let ghost h0 = *hash;
    write_u8(hash, hi);
    write_u8(hash, lo);
    proof {
        let bs = spec_port_bytes(value);
        assert(bs.drop_last() =~= seq![hi]);
        assert(seq![hi].drop_last() =~= Seq::<u8>::empty());
        reveal_with_fuel(spec_fnv, 3);
    }
}

fn hash_socket_addr(hash: &mut u64, addr: Option<SocketAddress>)
    ensures
        *final(hash) == spec_fnv(*old(hash), spec_addr_bytes(addr)),
{
    let ghost h0 = *hash;
    match addr {
        None => {
            write_u8(hash, 0);
            assert(seq![0u8].drop_last() =~= Seq::<u8>::empty());
            reveal_with_fuel(spec_fnv, 2);
        },
        Some(a) => {
            let tag: u8;
            match a.ip {
                IpAddress::V4(o) => {
                    tag = 4;
                    write_u8(hash, 4);
                    write_bytes(hash, o.as_slice());
                },
                IpAddress::V6(o) => {
                    tag = 6;
                    write_u8(hash, 6);
                    write_bytes(hash, o.as_slice());
                },
            }
            write_u16(hash, a.port);
            proof {
                assert(seq![tag].drop_last() =~= Seq::<u8>::empty());
                reveal_with_fuel(spec_fnv, 2);
                assert(spec_fnv(h0, seq![tag]) == spec_fnv_step(h0, tag));
                lemma_fnv_append(h0, seq![tag], spec_octets(a.ip));
                lemma_fnv_append(h0, seq![tag] + spec_octets(a.ip), spec_port_bytes(a.port));
            }
        },
    }
}

/// The bytes hashed for a present address are its family tag (4 or 6), its
/// octets in order, then its port in network order: the high byte, then the
/// low byte. An absent address is the single byte 0.
pub proof fn lemma_address_bytes_layout(addr: Option<SocketAddress>)
    ensures
        addr is None ==> spec_addr_bytes(addr) == seq![0u8],
        addr matches Some(a) ==> ({
            let bytes = spec_addr_bytes(addr);
            let n = spec_octets(a.ip).len() as int;
            &&& bytes.len() == n + 3
            &&& bytes[0] == (if a.ip is V4 { 4u8 } else { 6u8 })
            &&& forall|i: int| 0 <= i < n ==> #[trigger] bytes[i + 1] == spec_octets(a.ip)[i]
            &&& bytes[n + 1] as int == a.port as int / 256
            &&& bytes[n + 2] as int == a.port as int % 256
        }),
{
}

/// Two addresses that differ only in their port contribute different bytes
/// to the hash, so the port takes part in the choice of worker.
pub proof fn lemma_port_is_hashed(a: SocketAddress, b: SocketAddress)
    requires
        a.ip == b.ip,
        a.port != b.port,
    ensures
        spec_addr_bytes(Some(a)) != spec_addr_bytes(Some(b)),
        forall|peer: Option<SocketAddress>|
            spec_meta_bytes(PacketMeta { peer_addr: peer, local_addr: Some(a) }) != spec_meta_bytes(
                PacketMeta { peer_addr: peer, local_addr: Some(b) },
            ),
        forall|local: Option<SocketAddress>|
            spec_meta_bytes(PacketMeta { peer_addr: Some(a), local_addr: local }) != spec_meta_bytes(
                PacketMeta { peer_addr: Some(b), local_addr: local },
            ),
{
    lemma_address_bytes_layout(Some(a));
    lemma_address_bytes_layout(Some(b));
    let n = spec_octets(a.ip).len() as int;
    let ba = spec_addr_bytes(Some(a));
    let bb = spec_addr_bytes(Some(b));
    assert(ba[n + 1] != bb[n + 1] || ba[n + 2] != bb[n + 2]);
    assert forall|peer: Option<SocketAddress>|
        spec_meta_bytes(PacketMeta { peer_addr: peer, local_addr: Some(a) }) != spec_meta_bytes(
            PacketMeta { peer_addr: peer, local_addr: Some(b) },
        ) by {
        let p = spec_addr_bytes(peer);
        let x = p + ba;
        let y = p + bb;
        if ba[n + 1] != bb[n + 1] {
            assert(x[p.len() + n + 1] != y[p.len() + n + 1]);
        } else {
            assert(x[p.len() + n + 2] != y[p.len() + n + 2]);
        }
    }
    assert forall|local: Option<SocketAddress>|
        spec_meta_bytes(PacketMeta { peer_addr: Some(a), local_addr: local }) != spec_meta_bytes(
            PacketMeta { peer_addr: Some(b), local_addr: local },
        ) by {
        let q = spec_addr_bytes(local);
        let x = ba + q;
        let y = bb + q;
        if ba[n + 1] != bb[n + 1] {
            assert(x[n + 1] != y[n + 1]);
        } else {
            assert(x[n + 2] != y[n + 2]);
        }
    }
}

/// The message of the error returned when no worker can be selected.
pub open spec fn zero_workers_message() -> Seq<char> {
    "worker count must be greater than zero"@
}

/// Selects a worker the way the kernel's reuse-port balancing would for a
/// fixed pair of addresses: FNV-1a of the peer and local addresses modulo the
/// worker count. Fails exactly when there is no worker.
pub fn linux_reuseport_select(meta: PacketMeta, workers: usize) -> (res: Result<usize, Error>)
    ensures
        workers == 0 <==> res is Err,
        res matches Err(e) ==> is_invalid_config(e, zero_workers_message()),
        res matches Ok(w) ==> w == spec_select(meta, workers) && w < workers,
{
    if workers == 0 {
        return Err(Error::InvalidConfig("worker count must be greater than zero".to_owned()));
    }
    let mut hash: u64 = FNV_OFFSET;
    hash_socket_addr(&mut hash, meta.peer_addr);
    hash_socket_addr(&mut hash, meta.local_addr);
    proof {
        lemma_fnv_append(FNV_OFFSET, spec_addr_bytes(meta.peer_addr), spec_addr_bytes(meta.local_addr));
    }
    Ok((hash as usize) % workers)
}

/// Selects the worker for a connection accepted on the shared listener when
/// the kernel does not balance: worker 0 runs the accept loop, so with more
/// than one worker connections go to workers `1..workers`.
pub fn select_simulated_tcp_worker(meta: PacketMeta, worker_count: usize) -> (res: Result<usize, Error>)
    ensures
        worker_count == 0 <==> res is Err,
        res matches Err(e) ==> is_invalid_config(e, zero_workers_message()),
        res matches Ok(w) ==> w < worker_count && (if worker_count <= 1 {
            w == spec_select(meta, worker_count)
        } else {
            w == spec_select(meta, (worker_count - 1) as usize) + 1
        }),
{
    if worker_count <= 1 {
        return linux_reuseport_select(meta, worker_count);
    }
    match linux_reuseport_select(meta, worker_count - 1) {
        Ok(w) => Ok(w + 1),
        Err(e) => Err(e),
    }
}

} // verus!
