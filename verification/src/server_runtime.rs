//! The bookkeeping of the worker runtime: how many workers it starts, what
//! their threads are called, and the registry of listeners it controls.

use std::collections::HashMap;
use vstd::prelude::*;
use crate::config::{ServerRuntimeConfig, WorkerCount};
use crate::error::{Error, is_invalid_config};
use crate::net::SocketAddress;
use crate::schedule::zero_workers_message;
use crate::text::{decimal, spec_decimal};

verus! {

broadcast use vstd::std_specs::hash::group_hash_axioms;

/// The number of CPUs available to this process, from `num_cpus::get`.
/// Nothing is claimed of it: it depends on the machine.
#[verifier::external_body]
fn available_cpus() -> usize {
    num_cpus::get()
}

/// The number of workers for `config` on a machine with `cpus` CPUs: the
/// fixed count, or one per CPU and at least one. A fixed count of zero is
/// refused.
pub fn worker_count_for(config: &ServerRuntimeConfig, cpus: usize) -> (res: Result<usize, Error>)
    ensures
        res is Err <==> config.workers == WorkerCount::Fixed(0),
        res matches Err(e) ==> is_invalid_config(e, zero_workers_message()),
        res matches Ok(n) ==> n == match config.workers {
            WorkerCount::Fixed(m) => m,
            WorkerCount::Default => if cpus >= 1 { cpus } else { 1 },
        },
{
    config.validate()?;
    match config.workers {
        WorkerCount::Default => Ok(if cpus >= 1 { cpus } else { 1 }),
        WorkerCount::Fixed(workers) => Ok(workers),
    }
}

/// The number of workers the runtime starts for `config` on this machine.
pub fn resolve_worker_count(config: &ServerRuntimeConfig) -> (res: Result<usize, Error>)
    ensures
        res is Err <==> config.workers == WorkerCount::Fixed(0),
        res matches Err(e) ==> is_invalid_config(e, zero_workers_message()),
        res matches Ok(n) ==> n >= 1 && (config.workers matches WorkerCount::Fixed(m) ==> n == m),
{
    let cpus = available_cpus();
    worker_count_for(config, cpus)
}

/// The name of the thread of worker `worker_id`.
pub fn worker_thread_name(worker_id: usize) -> (res: String)
    ensures
        res@ == "sfo-reuseport-worker-"@ + spec_decimal(worker_id as nat),
{
    "sfo-reuseport-worker-".to_owned().concat(decimal(worker_id).as_str())
}

/// Refuses to attach a service when no listening socket or worker exists.
pub fn require_workers(count: usize) -> (res: Result<(), Error>)
    ensures
        res is Ok <==> count > 0,
        res matches Err(e) ==> is_invalid_config(e, zero_workers_message()),
{
    if count == 0 {
        Err(Error::InvalidConfig("worker count must be greater than zero".to_owned()))
    } else {
        Ok(())
    }
}

pub open spec fn worker_range_message() -> Seq<char> {
    "worker index is out of range"@
}

/// Refuses a worker index beyond the started workers.
pub fn check_worker_index(worker_id: usize, worker_count: usize) -> (res: Result<(), Error>)
    ensures
        res is Ok <==> worker_id < worker_count,
        res matches Err(e) ==> is_invalid_config(e, worker_range_message()),
{
    if worker_id < worker_count {
        Ok(())
    } else {
        Err(Error::InvalidConfig("worker index is out of range".to_owned()))
    }
}

/// The identifier of a listener registered with the runtime.
#[derive(Clone, Copy, Debug, PartialEq, Eq, Hash, Structural)]
pub struct ListenerId(u64);

impl ListenerId {
    pub closed spec fn value(self) -> u64 {
        self.0
    }

    pub fn get(self) -> (res: u64)
        ensures
            res == self.value(),
    {
        self.0
    }
}

/// The transport of a listener.
#[derive(Clone, Copy, Debug, PartialEq, Eq, Structural)]
pub enum ListenerProtocol {
    Tcp,
    Udp,
}

/// What the runtime keeps about a listener: its transport, its address and
/// the handle `A` by which it is told to stop.
pub struct ListenerControl<A> {
    pub protocol: ListenerProtocol,
    pub addr: SocketAddress,
    pub active: A,
}

/// The listeners of a runtime, by identifier.
pub struct ListenerRegistry<A> {
    next_id: u64,
    listeners: HashMap<u64, ListenerControl<A>>,
}

impl<A> ListenerRegistry<A> {
    /// The identifier the next registration receives.
    pub closed spec fn next(self) -> u64 {
        self.next_id
    }

    /// The registered listeners.
    pub closed spec fn entries(self) -> Map<u64, ListenerControl<A>> {
        self.listeners@
    }

    /// An empty registry whose first identifier is 1.
    pub fn new() -> (res: Self)
        ensures
            res.next() == 1,
            res.entries() == Map::<u64, ListenerControl<A>>::empty(),
    {
        ListenerRegistry { next_id: 1, listeners: HashMap::new() }
    }

    /// Records a listener under the next identifier, which it returns; the
    /// counter then moves on (wrapping past the largest identifier).
    pub fn register(&mut self, protocol: ListenerProtocol, addr: SocketAddress, active: A) -> (res:
        ListenerId)
        ensures
            res.value() == old(self).next(),
            final(self).next() == vstd::wrapping::u64_specs::wrapping_add(old(self).next(), 1),
            final(self).entries() == old(self).entries().insert(
                res.value(),
                ListenerControl { protocol, addr, active },
            ),
    {
        let id = self.next_id;
        self.next_id = self.next_id.wrapping_add(1);
        self.listeners.insert(id, ListenerControl { protocol, addr, active });
        ListenerId(id)
    }

    /// Removes and returns the listener `id`; `UnknownListener` when there
    /// is none.
    pub fn remove(&mut self, id: ListenerId) -> (res: Result<ListenerControl<A>, Error>)
        ensures
            final(self).next() == old(self).next(),
            res is Ok <==> old(self).entries().contains_key(id.value()),
            res matches Ok(c) ==> c == old(self).entries()[id.value()],
            res is Err ==> res matches Err(Error::UnknownListener),
            final(self).entries() == old(self).entries().remove(id.value()),
    {
        let key = id.0;
        match self.listeners.remove(&key) {
            Some(control) => Ok(control),
            None => {
                assert(old(self).entries().remove(key) =~= old(self).entries());
                Err(Error::UnknownListener)
            },
        }
    }
}

/// Removing a listener right after registering it hands back what was
/// registered and leaves the registry's listeners as they were, provided the
/// identifier was not in use.
pub proof fn lemma_register_then_remove<A>(
    before: Map<u64, ListenerControl<A>>,
    id: u64,
    control: ListenerControl<A>,
)
    requires
        !before.contains_key(id),
    ensures
        before.insert(id, control).contains_key(id),
        before.insert(id, control)[id] == control,
        before.insert(id, control).remove(id) == before,
{
    assert(before.insert(id, control).remove(id) =~= before);
}

} // verus!
