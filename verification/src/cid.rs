//! Connection ids that name the worker owning a QUIC connection: a two-byte
//! big-endian worker index followed by random bytes.

use vstd::prelude::*;
use crate::error::is_invalid_config;
use crate::quic::{spec_is_long_header, spec_quic_worker_index, spec_worker_prefix};
use crate::text::{decimal, spec_decimal};
use getrandom::Error as RandomError;

verus! {

#[verifier::external_type_specification]
#[verifier::external_body]
pub struct ExRandomError(RandomError);

/// Fills `dest` from the system's random source with `getrandom::fill`.
/// The contract claims only that the buffer keeps its length: the bytes are
/// random on success and unspecified on failure, and whether the call fails
/// depends on the machine.
#[verifier::external_body]
fn fill_random(dest: &mut [u8]) -> (res: Result<(), RandomError>)
    ensures
        final(dest)@.len() == old(dest)@.len(),
{
    getrandom::fill(dest)
}

/// Renders a `getrandom::Error` with its `Display` impl. Nothing is claimed
/// of the text.
#[verifier::external_body]
fn random_error_text(error: &RandomError) -> String {
    format!("{error}")
}

pub open spec fn worker_index_message() -> Seq<char> {
    "QUIC CID worker index must be between 0 and 65535"@
}

pub open spec fn cid_len_message() -> Seq<char> {
    "QUIC CID length must be between 8 and 20 bytes"@
}

pub open spec fn buffer_len_message(cid_len: usize) -> Seq<char> {
    "QUIC CID buffer length must equal configured CID length "@ + spec_decimal(cid_len as nat)
}

pub open spec fn prefix_buffer_message() -> Seq<char> {
    "QUIC CID buffer must contain a two-byte worker index prefix"@
}

pub open spec fn random_failure_prefix() -> Seq<char> {
    "QUIC CID random generation failed: "@
}

/// Whether `e` reports a failure of the random source.
pub open spec fn is_random_failure(e: crate::error::Error) -> bool {
    e matches crate::error::Error::Runtime(m) && m@.len() >= random_failure_prefix().len() && m@.subrange(
        0,
        random_failure_prefix().len() as int,
    ) == random_failure_prefix()
}

pub open spec fn valid_worker_index(worker_index: usize) -> bool {
    worker_index <= 0xffff
}

pub open spec fn valid_cid_len(cid_len: usize) -> bool {
    8 <= cid_len <= 20
}

/// Issues connection ids for one worker.
#[derive(Debug, PartialEq, Eq, Structural)]
pub struct QuicCidGenerator {
    worker_index: usize,
    cid_len: usize,
}

impl QuicCidGenerator {
    pub const DEFAULT_CID_LEN: usize = 8;

    pub const MIN_CID_LEN: usize = 8;

    pub const MAX_CID_LEN: usize = 20;

    pub const MAX_WORKER_INDEX: usize = 0xffff;

    #[verifier::type_invariant]
    spec fn inv(self) -> bool {
        valid_worker_index(self.worker_index) && valid_cid_len(self.cid_len)
    }

    /// The worker whose index the ids carry.
    pub closed spec fn worker(self) -> usize {
        self.worker_index
    }

    /// The length of the ids.
    pub closed spec fn id_len(self) -> usize {
        self.cid_len
    }

    /// A generator for `worker_index` with the default id length; refused when
    /// the index does not fit in two bytes.
    pub fn new(worker_index: usize) -> (res: Result<Self, crate::error::Error>)
        ensures
            valid_worker_index(worker_index) <==> res is Ok,
            res matches Ok(g) ==> g.worker() == worker_index && g.id_len() == 8,
            res matches Err(e) ==> is_invalid_config(e, worker_index_message()),
    {
        validate_worker_index(worker_index)?;
        Ok(QuicCidGenerator { worker_index, cid_len: Self::DEFAULT_CID_LEN })
    }

    /// The same as `new`.
    pub fn for_worker(worker_index: usize) -> (res: Result<Self, crate::error::Error>)
        ensures
            valid_worker_index(worker_index) <==> res is Ok,
            res matches Ok(g) ==> g.worker() == worker_index && g.id_len() == 8,
            res matches Err(e) ==> is_invalid_config(e, worker_index_message()),
    {
        Self::new(worker_index)
    }

    /// This generator with ids of `cid_len` bytes; refused when the length is
    /// outside `8..=20`.
    pub fn with_cid_len(self, cid_len: usize) -> (res: Result<Self, crate::error::Error>)
        ensures
            valid_cid_len(cid_len) <==> res is Ok,
            res matches Ok(g) ==> g.worker() == self.worker() && g.id_len() == cid_len,
            res matches Err(e) ==> is_invalid_config(e, cid_len_message()),
    {
        proof {
            use_type_invariant(&self);
        }
        validate_cid_len(cid_len)?;
        Ok(QuicCidGenerator { worker_index: self.worker_index, cid_len })
    }

    pub fn worker_index(&self) -> (res: usize)
        ensures
            res == self.worker(),
            valid_worker_index(res),
    {
        proof {
            use_type_invariant(self);
        }
        self.worker_index
    }

    pub fn cid_len(&self) -> (res: usize)
        ensures
            res == self.id_len(),
            valid_cid_len(res),
    {
        proof {
            use_type_invariant(self);
        }
        self.cid_len
    }

    /// A fresh connection id: the worker index in its first two bytes and
    /// random bytes after them. Fails only when the random source fails.
    pub fn generate(&self) -> (res: Result<Vec<u8>, crate::error::Error>)
        ensures
            res matches Ok(cid) ==> cid@.len() == self.id_len() && spec_worker_prefix(cid@) == Some(
                self.worker() as int,
            ),
            res matches Err(e) ==> is_random_failure(e),
    {
        proof {
            use_type_invariant(self);
        }
        let mut cid: Vec<u8> = vec![0u8; self.cid_len];
        match self.generate_into(cid.as_mut_slice()) {
            Ok(()) => Ok(cid),
            Err(e) => Err(e),
        }
    }

    /// Writes a fresh connection id into `buffer`, which must have exactly the
    /// configured length: random bytes from the system's source, then the
    /// worker prefix over the first two with `write_worker_prefix`. A buffer
    /// of another length is refused before anything is written.
    pub fn generate_into(&self, buffer: &mut [u8]) -> (res: Result<(), crate::error::Error>)
        ensures
            final(buffer)@.len() == old(buffer)@.len(),
            old(buffer)@.len() != self.id_len() ==> (res matches Err(e) && is_invalid_config(
                e,
                buffer_len_message(self.id_len()),
            )) && final(buffer)@ == old(buffer)@,
            old(buffer)@.len() == self.id_len() ==> (res is Ok || (res matches Err(e)
                && is_random_failure(e))),
            res is Ok ==> spec_worker_prefix(final(buffer)@) == Some(self.worker() as int),
    {
        proof {
            use_type_invariant(self);
        }
        if buffer.len() != self.cid_len {
            return Err(
                crate::error::Error::InvalidConfig(
                    "QUIC CID buffer length must equal configured CID length ".to_owned().concat(
                        decimal(self.cid_len).as_str(),
                    ),
                ),
            );
        }
        match fill_random(buffer) {
            Ok(()) => {},
            Err(error) => {
                let text = random_error_text(&error);
                let message = "QUIC CID random generation failed: ".to_owned().concat(text.as_str());
                proof {
                    assert(message@.subrange(0, random_failure_prefix().len() as int)
                        =~= random_failure_prefix());
                }
                return Err(crate::error::Error::Runtime(message));
            },
        }
        self.write_worker_prefix(buffer)
    }

    /// Turns `buffer`, which holds random bytes of the configured length,
    /// into a connection id of this generator: the worker index goes,
    /// big-endian, into the first two bytes and the other bytes are kept. A
    /// buffer of another length is refused and left as it is.
    pub fn write_worker_prefix(&self, buffer: &mut [u8]) -> (res: Result<(), crate::error::Error>)
        ensures
            final(buffer)@.len() == old(buffer)@.len(),
            res is Ok <==> old(buffer)@.len() == self.id_len(),
            res matches Err(e) ==> is_invalid_config(e, buffer_len_message(self.id_len()))
                && final(buffer)@ == old(buffer)@,
            res is Ok ==> spec_worker_prefix(final(buffer)@) == Some(self.worker() as int)
                && final(buffer)@.skip(2) == old(buffer)@.skip(2),
    {
        proof {
            use_type_invariant(self);
        }
        if buffer.len() != self.cid_len {
            return Err(
                crate::error::Error::InvalidConfig(
                    "QUIC CID buffer length must equal configured CID length ".to_owned().concat(
                        decimal(self.cid_len).as_str(),
                    ),
                ),
            );
        }
        encode_worker_index_prefix(self.worker_index, buffer)
    }
}

/// A connection id issued for worker `w` brings every later datagram of its
/// connection back to `w` when the server runs more than `w` workers: in a
/// short header, and in a long header whose length byte announces the id.
pub proof fn lemma_issued_id_routes_to_its_worker(
    generator: QuicCidGenerator,
    cid: Seq<u8>,
    short_first: u8,
    long_first: u8,
    version: Seq<u8>,
    rest: Seq<u8>,
    workers: int,
)
    requires
        spec_worker_prefix(cid) == Some(generator.worker() as int),
        generator.worker() < workers,
        !spec_is_long_header(short_first),
        spec_is_long_header(long_first),
        version.len() == 4,
    ensures
        spec_quic_worker_index(seq![short_first] + cid + rest, workers) == Some(
            generator.worker() as int,
        ),
        cid.len() <= 255 ==> spec_quic_worker_index(
            seq![long_first] + version + seq![cid.len() as u8] + cid + rest,
            workers,
        ) == Some(generator.worker() as int),
{
    let w = generator.worker() as int;
    vstd::arithmetic::div_mod::lemma_small_mod(w as nat, workers as nat);
    crate::quic::lemma_short_header_routes_by_cid_prefix(short_first, cid, rest, workers);
    if cid.len() <= 255 {
        crate::quic::lemma_long_header_routes_by_cid_prefix(long_first, version, cid, rest, workers);
    }
}

impl Clone for QuicCidGenerator {
    fn clone(&self) -> (res: Self)
        ensures
            res == *self,
    {
        proof {
            use_type_invariant(self);
        }
        QuicCidGenerator { worker_index: self.worker_index, cid_len: self.cid_len }
    }
}

fn validate_worker_index(worker_index: usize) -> (res: Result<(), crate::error::Error>)
    ensures
        valid_worker_index(worker_index) <==> res is Ok,
        res matches Err(e) ==> is_invalid_config(e, worker_index_message()),
{
    if worker_index <= QuicCidGenerator::MAX_WORKER_INDEX {
        Ok(())
    } else {
        Err(crate::error::Error::InvalidConfig("QUIC CID worker index must be between 0 and 65535".to_owned()))
    }
}

fn validate_cid_len(cid_len: usize) -> (res: Result<(), crate::error::Error>)
    ensures
        valid_cid_len(cid_len) <==> res is Ok,
        res matches Err(e) ==> is_invalid_config(e, cid_len_message()),
{
    if QuicCidGenerator::MIN_CID_LEN <= cid_len && cid_len <= QuicCidGenerator::MAX_CID_LEN {
        Ok(())
    } else {
        Err(crate::error::Error::InvalidConfig("QUIC CID length must be between 8 and 20 bytes".to_owned()))
    }
}

/// Writes `worker_index` big-endian into the first two bytes of `buffer`,
/// leaving the other bytes as they are.
fn encode_worker_index_prefix(worker_index: usize, buffer: &mut [u8]) -> (res: Result<(), crate::error::Error>)
    ensures
        final(buffer)@.len() == old(buffer)@.len(),
        res is Ok <==> (valid_worker_index(worker_index) && old(buffer)@.len() >= 2),
        !valid_worker_index(worker_index) ==> (res matches Err(e) && is_invalid_config(
            e,
            worker_index_message(),
        )),
        valid_worker_index(worker_index) && old(buffer)@.len() < 2 ==> (res matches Err(e)
            && is_invalid_config(e, prefix_buffer_message())),
        res is Ok ==> spec_worker_prefix(final(buffer)@) == Some(worker_index as int)
            && final(buffer)@.skip(2) == old(buffer)@.skip(2),
        res is Err ==> final(buffer)@ == old(buffer)@,
{
    validate_worker_index(worker_index)?;
    if buffer.len() < 2 {
        return Err(
            crate::error::Error::InvalidConfig("QUIC CID buffer must contain a two-byte worker index prefix".to_owned()),
        );
    }
    let hi: u8 = (worker_index >> 8usize) as u8;
    let lo: u8 = worker_index as u8;
    assert(hi * 256 + lo == worker_index) by (bit_vector)
        requires
            worker_index <= 0xffff,
            hi == (worker_index >> 8usize) as u8,
            lo == worker_index as u8,
    ;
    buffer[0] = hi;
    buffer[1] = lo;
    assert(buffer@.skip(2) =~= old(buffer)@.skip(2));
    Ok(())
}

} // verus!
