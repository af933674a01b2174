//! Copying a received datagram into the caller's buffers.

use vstd::prelude::*;

verus! {

/// How many bytes of a `payload_len`-byte datagram, from offset `start`, fit
/// in a buffer of `buffer_len` bytes.
pub open spec fn spec_fit(payload_len: int, start: int, buffer_len: int) -> int {
    if start >= payload_len {
        0
    } else if payload_len - start < buffer_len {
        payload_len - start
    } else {
        buffer_len
    }
}

/// A buffer after the part of `payload` from `start` was copied to its front.
pub open spec fn spec_filled(payload: Seq<u8>, start: int, buffer: Seq<u8>) -> Seq<u8> {
    if start >= payload.len() {
        buffer
    } else {
        let n = spec_fit(payload.len() as int, start, buffer.len() as int);
        payload.subrange(start, start + n) + buffer.skip(n)
    }
}

/// Copies the part of `payload` from `start` to the front of `buffer`, as
/// much as fits; returns how many bytes were copied.
pub fn copy_from(payload: &[u8], start: usize, buffer: &mut [u8]) -> (res: usize)
    requires
        start <= payload@.len(),
    ensures
        res == spec_fit(payload@.len() as int, start as int, old(buffer)@.len() as int),
        final(buffer)@ == spec_filled(payload@, start as int, old(buffer)@),
{
    let available = payload.len() - start;
    let n = if available < buffer.len() { available } else { buffer.len() };
    let mut i: usize = 0;
    while i < n
        invariant
            n <= buffer@.len(),
            start + n <= payload.len(),
            buffer@.len() == old(buffer)@.len(),
            i <= n,
            forall|j: int| 0 <= j < i ==> buffer@[j] == payload@[start + j],
            forall|j: int| i <= j < buffer@.len() ==> buffer@[j] == old(buffer)@[j],
        decreases n - i,
    {
        buffer[i] = payload[start + i];
        i = i + 1;
    }
    if start < payload.len() {
        assert(buffer@ =~= spec_filled(payload@, start as int, old(buffer)@));
    } else {
        assert(buffer@ =~= old(buffer)@);
    }
    n
}

/// Copies a received datagram into `buffer`, truncating it to the buffer's
/// length; returns the number of bytes copied.
pub fn copy_datagram(payload: &[u8], buffer: &mut [u8]) -> (res: usize)
    ensures
        res == spec_fit(payload@.len() as int, 0, old(buffer)@.len() as int),
        final(buffer)@ == spec_filled(payload@, 0, old(buffer)@),
{
    copy_from(payload, 0, buffer)
}

/// The total length of the first `n` buffers.
pub open spec fn spec_offset(buffers: Seq<Seq<u8>>, n: int) -> int
    decreases n,
{
    if n <= 0 {
        0
    } else {
        spec_offset(buffers, n - 1) + buffers[n - 1].len()
    }
}

pub open spec fn spec_views(buffers: Seq<Vec<u8>>) -> Seq<Seq<u8>> {
    buffers.map_values(|b: Vec<u8>| b@)
}

proof fn lemma_offset_monotone(buffers: Seq<Seq<u8>>, a: int, b: int)
    requires
        0 <= a <= b,
    ensures
        spec_offset(buffers, a) <= spec_offset(buffers, b),
    decreases b - a,
{
    if a < b {
        lemma_offset_monotone(buffers, a, b - 1);
    }
}

/// Scatters a datagram over a list of buffers in order: each buffer receives
/// the bytes that follow those given to the buffers before it, as many as it
/// holds, until the datagram is used up; the rest of every buffer is left as
/// it was.
pub fn scatter_datagram(payload: &[u8], buffers: &mut Vec<Vec<u8>>)
    ensures
        final(buffers)@.len() == old(buffers)@.len(),
        forall|i: int| 0 <= i < old(buffers)@.len() ==> #[trigger] final(buffers)@[i]@ == spec_filled(
            payload@,
            spec_offset(spec_views(old(buffers)@), i),
            old(buffers)@[i]@,
        ),
{
    let ghost views = spec_views(old(buffers)@);
    let mut offset: usize = 0;
    let mut i: usize = 0;
    while i < buffers.len()
        invariant
            buffers@.len() == old(buffers)@.len(),
            views == spec_views(old(buffers)@),
            i <= buffers@.len(),
            offset <= payload@.len(),
            offset == (if spec_offset(views, i as int) < payload@.len() {
                spec_offset(views, i as int)
            } else {
                payload@.len() as int
            }),
            forall|j: int| 0 <= j < i ==> #[trigger] buffers@[j]@ == spec_filled(
                payload@,
                spec_offset(views, j),
                old(buffers)@[j]@,
            ),
            forall|j: int| i <= j < buffers@.len() ==> #[trigger] buffers@[j] == old(buffers)@[j],
        decreases buffers@.len() - i,
    {
        let ghost start = spec_offset(views, i as int);
        if offset >= payload.len() {
            assert forall|j: int| i <= j < buffers@.len() implies #[trigger] buffers@[j]@ == spec_filled(
                payload@,
                spec_offset(views, j),
                old(buffers)@[j]@,
            ) by {
                lemma_offset_monotone(views, i as int, j);
            }
            assert(forall|j: int| 0 <= j < old(buffers)@.len() ==> #[trigger] buffers@[j]@ == spec_filled(
                payload@,
                spec_offset(views, j),
                old(buffers)@[j]@,
            ));
            return;
        }
        let copied = copy_from(payload, offset, buffers[i].as_mut_slice());
        assert(views[i as int] == old(buffers)@[i as int]@);
        offset = offset + copied;
        i = i + 1;
    }
}

} // verus!
