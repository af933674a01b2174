//! Routing of QUIC datagrams to workers by the two-byte worker prefix that
//! leads every destination connection id issued by this crate.

use vstd::prelude::*;

verus! {

/// The worker prefix of a connection id: its first two bytes read as a
/// big-endian number, or `None` when fewer than two bytes are present.
pub open spec fn spec_worker_prefix(bytes: Seq<u8>) -> Option<int> {
    if bytes.len() >= 2 {
        Some(bytes[0] * 256 + bytes[1])
    } else {
        None
    }
}

/// A long-header packet starts with a byte whose high bit is set.
pub open spec fn spec_is_long_header(first: u8) -> bool {
    first >= 0x80
}

/// The destination connection id of a long-header packet: the length byte at
/// offset 5 and that many bytes after it. Absent when the length is zero or
/// the packet is too short to hold the id.
pub open spec fn spec_long_header_dcid(packet: Seq<u8>) -> Option<Seq<u8>> {
    if packet.len() <= 5 {
        None
    } else if packet[5] == 0 {
        None
    } else if 6 + packet[5] > packet.len() {
        None
    } else {
        Some(packet.subrange(6, 6 + packet[5]))
    }
}

/// The worker that a datagram belongs to among `workers` workers, or `None`
/// when it carries no usable route key.
pub open spec fn spec_quic_worker_index(packet: Seq<u8>, workers: int) -> Option<int> {
    if workers <= 0 || packet.len() == 0 {
        None
    } else if spec_is_long_header(packet[0]) {
        match spec_long_header_dcid(packet) {
            None => None,
            Some(dcid) => match spec_worker_prefix(dcid) {
                None => None,
                Some(w) => Some(w % workers),
            },
        }
    } else {
        match spec_worker_prefix(packet.skip(1)) {
            None => None,
            Some(w) => Some(w % workers),
        }
    }
}

/// Reads the two-byte big-endian worker prefix of `bytes`.
pub fn quic_worker_index_prefix(bytes: &[u8]) -> (res: Option<usize>)
    ensures
        match res {
            Some(w) => spec_worker_prefix(bytes@) == Some(w as int),
            None => spec_worker_prefix(bytes@) is None,
        },
{
    if bytes.len() < 2 {
        return None;
    }
    let first = bytes[0];
    let second = bytes[1];
    let hi: usize = first as usize;
    let lo: usize = second as usize;
    let w: usize = (hi << 8usize) | lo;
    assert(w == hi * 256 + lo) by (bit_vector)
        requires
            hi < 256,
            lo < 256,
            w == (hi << 8usize) | lo,
    ;
    Some(w)
}

/// Extracts the destination connection id of a long-header packet.
pub fn quic_long_header_dcid(packet: &[u8]) -> (res: Option<&[u8]>)
    ensures
        match res {
            Some(dcid) => spec_long_header_dcid(packet@) == Some(dcid@),
            None => spec_long_header_dcid(packet@) is None,
        },
{
    if packet.len() <= 5 {
        return None;
    }
    let dcid_len: usize = packet[5] as usize;
    if dcid_len == 0 {
        return None;
    }
    let start: usize = 6;
    let end: usize = start + dcid_len;
    if end > packet.len() {
        return None;
    }
    Some(vstd::slice::slice_subrange(packet, start, end))
}

/// Picks the worker for a datagram: the connection-id prefix of its
/// destination connection id modulo the number of workers.
pub fn quic_worker_index(packet: &[u8], workers: usize) -> (res: Option<usize>)
    ensures
        match res {
            Some(w) => spec_quic_worker_index(packet@, workers as int) == Some(w as int)
                && w < workers,
            None => spec_quic_worker_index(packet@, workers as int) is None,
        },
{
    if workers == 0 || packet.len() == 0 {
        return None;
    }
    let first = packet[0];
    let long_header = first & 0x80u8 != 0;
    assert(long_header == spec_is_long_header(first)) by (bit_vector)
        requires
            long_header == (first & 0x80u8 != 0),
    ;
    if long_header {
        match quic_long_header_dcid(packet) {
            None => None,
            Some(dcid) => match quic_worker_index_prefix(dcid) {
                None => None,
                Some(w) => Some(w % workers),
            },
        }
    } else {
        let rest = vstd::slice::slice_subrange(packet, 1, packet.len());
        assert(rest@ == packet@.skip(1));
        match quic_worker_index_prefix(rest) {
            None => None,
            Some(w) => Some(w % workers),
        }
    }
}

/// The reuse-port program in the kernel has already chosen this worker; a
/// datagram is kept exactly when it carries a route key.
pub fn quic_reuseport_bpf_accepts_packet(packet: &[u8], workers: usize) -> (res: bool)
    ensures
        res == spec_quic_worker_index(packet@, workers as int) is Some,
{
    quic_worker_index(packet, workers).is_some()
}

/// A short-header datagram is routed by the worker prefix of the
/// destination connection id that follows its first byte: to that prefix
/// modulo the worker count.
pub proof fn lemma_short_header_routes_by_cid_prefix(
    first: u8,
    dcid: Seq<u8>,
    rest: Seq<u8>,
    workers: int,
)
    requires
        !spec_is_long_header(first),
        dcid.len() >= 2,
        workers > 0,
    ensures
        spec_quic_worker_index(seq![first] + dcid + rest, workers) == Some(
            spec_worker_prefix(dcid)->0 % workers,
        ),
{
    let p = seq![first] + dcid + rest;
    assert(p.skip(1) =~= dcid + rest);
    assert(p.skip(1)[0] == dcid[0] && p.skip(1)[1] == dcid[1]);
}

/// A long-header datagram whose length byte announces its destination
/// connection id is routed by that id's worker prefix modulo the worker count.
pub proof fn lemma_long_header_routes_by_cid_prefix(
    first: u8,
    version: Seq<u8>,
    dcid: Seq<u8>,
    rest: Seq<u8>,
    workers: int,
)
    requires
        spec_is_long_header(first),
        version.len() == 4,
        2 <= dcid.len() <= 255,
        workers > 0,
    ensures
        spec_quic_worker_index(seq![first] + version + seq![dcid.len() as u8] + dcid + rest, workers)
            == Some(spec_worker_prefix(dcid)->0 % workers),
{
    let p = seq![first] + version + seq![dcid.len() as u8] + dcid + rest;
    assert(p[5] == dcid.len());
    assert(p.subrange(6, 6 + dcid.len() as int) =~= dcid);
}

/// The connection id that a client puts in its long-header packets and the
/// one it puts in later short-header packets lead to the same worker whenever
/// they carry the same worker prefix.
pub proof fn lemma_long_and_short_headers_agree(
    long_first: u8,
    version: Seq<u8>,
    initial_dcid: Seq<u8>,
    long_rest: Seq<u8>,
    short_first: u8,
    dcid: Seq<u8>,
    short_rest: Seq<u8>,
    workers: int,
)
    requires
        spec_is_long_header(long_first),
        !spec_is_long_header(short_first),
        version.len() == 4,
        2 <= initial_dcid.len() <= 255,
        dcid.len() >= 2,
        spec_worker_prefix(initial_dcid) == spec_worker_prefix(dcid),
        workers > 0,
    ensures
        spec_quic_worker_index(
            seq![long_first] + version + seq![initial_dcid.len() as u8] + initial_dcid + long_rest,
            workers,
        ) == spec_quic_worker_index(seq![short_first] + dcid + short_rest, workers),
        spec_quic_worker_index(seq![short_first] + dcid + short_rest, workers) is Some,
{
    lemma_long_header_routes_by_cid_prefix(long_first, version, initial_dcid, long_rest, workers);
    lemma_short_header_routes_by_cid_prefix(short_first, dcid, short_rest, workers);
}

} // verus!
