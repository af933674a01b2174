//! The decisions of the loops that receive on a shared socket and hand each
//! datagram or connection to a worker: which worker, and whether its
//! concurrency limit lets the work through.

use vstd::prelude::*;
use crate::concurrency::{ConcurrencyPermit, LimitState, WorkerConcurrencyLimit, spec_new_limit, worker_limits};
use crate::net::PacketMeta;
use crate::quic::{quic_worker_index, spec_quic_worker_index};
use crate::schedule::{linux_reuseport_select, select_simulated_tcp_worker, spec_meta_hash, spec_select};

verus! {

/// How a shared listener picks the worker for a piece of work.
#[derive(Clone, Copy, Debug, PartialEq, Eq, Structural)]
pub enum RoutePolicy {
    /// By the worker prefix of the QUIC destination connection id; datagrams
    /// without one are dropped.
    QuicConnectionId,
    /// By the hash of the peer and local addresses over all workers.
    AddressHash,
    /// By the hash of the addresses over the workers other than worker 0,
    /// which runs the accept loop (over all of them when there is one).
    SimulatedTcp,
}

/// Where a piece of work goes before the concurrency limits are consulted.
#[derive(Clone, Copy, Debug, PartialEq, Eq, Structural)]
pub enum RouteTarget {
    /// The loop must stop.
    Stop,
    /// The work is discarded and the loop goes on.
    Drop,
    /// The work belongs to this worker.
    Worker(usize),
}

/// The target of a payload with addresses `meta` under `policy` among
/// `workers` workers.
pub open spec fn spec_route_target(
    policy: RoutePolicy,
    payload: Seq<u8>,
    meta: PacketMeta,
    workers: usize,
) -> RouteTarget {
    match policy {
        RoutePolicy::QuicConnectionId => match spec_quic_worker_index(payload, workers as int) {
            None => RouteTarget::Drop,
            Some(w) => RouteTarget::Worker(w as usize),
        },
        RoutePolicy::AddressHash => if workers == 0 {
            RouteTarget::Stop
        } else {
            RouteTarget::Worker(spec_select(meta, workers) as usize)
        },
        RoutePolicy::SimulatedTcp => if workers == 0 {
            RouteTarget::Stop
        } else if workers <= 1 {
            RouteTarget::Worker(spec_select(meta, workers) as usize)
        } else {
            RouteTarget::Worker((spec_select(meta, (workers - 1) as usize) + 1) as usize)
        },
    }
}

/// What the loop does with a piece of work.
pub enum RouteDecision {
    /// Leave the loop.
    Stop,
    /// Discard the work: it carries no route key.
    Drop,
    /// The work belongs to `worker`, whose limit is full: keep it, wait
    /// until that worker gives a permit back, take the permit with
    /// `acquire_for` and then hand the work over.
    Wait { worker: usize },
    /// Hand the work to `worker`, holding `permit` until it is done.
    Deliver { worker: usize, permit: ConcurrencyPermit },
}

/// Routes work from one shared listener to the workers, each worker with its
/// own concurrency limit.
pub struct DatagramRouter {
    policy: RoutePolicy,
    limits: Vec<WorkerConcurrencyLimit>,
}

impl DatagramRouter {
    pub closed spec fn route_policy(self) -> RoutePolicy {
        self.policy
    }

    /// The state of each worker's limit.
    pub closed spec fn limit_states(self) -> Seq<LimitState> {
        self.limits@.map_values(|l: WorkerConcurrencyLimit| l.view())
    }

    #[verifier::type_invariant]
    spec fn inv(self) -> bool {
        forall|i: int|
            #![trigger self.limits@[i]]
            0 <= i < self.limits@.len() ==> self.limits@[i].view().wf() && self.limits@[i].owner()
                == i
    }

    /// A router over `worker_count` workers, each limited to `max` handlers
    /// at once (unlimited when `max` is absent or zero).
    pub fn new(policy: RoutePolicy, worker_count: usize, max: Option<usize>) -> (res: Self)
        ensures
            res.route_policy() == policy,
            res.limit_states().len() == worker_count,
            forall|i: int| 0 <= i < worker_count ==> #[trigger] res.limit_states()[i]
                == spec_new_limit(max),
    {
        let limits = worker_limits(worker_count, max);
        proof {
            assert forall|i: int| #![trigger limits@[i]] 0 <= i < limits@.len() implies limits@[i].view().wf()
                && limits@[i].owner() == i by {
                assert(limits@[i].view() == spec_new_limit(max));
            }
        }
        DatagramRouter { policy, limits }
    }

    pub fn worker_count(&self) -> (res: usize)
        ensures
            res == self.limit_states().len(),
    {
        self.limits.len()
    }

    /// Decides what becomes of a payload received from `meta`: stop the
    /// loop, drop it when it has no route key, or deliver it to its worker
    /// with a permit taken from that worker's limit. When that limit is full
    /// the work waits for the worker: it is never dropped for lack of a
    /// permit. Only the chosen worker's limit changes, and only when the
    /// work is delivered.
    pub fn route(&mut self, payload: &[u8], meta: PacketMeta) -> (res: RouteDecision)
        ensures
            final(self).route_policy() == old(self).route_policy(),
            final(self).limit_states().len() == old(self).limit_states().len(),
            forall|i: int| 0 <= i < final(self).limit_states().len() ==> #[trigger] final(self).limit_states()[i].wf(),
            old(self).route_policy() == RoutePolicy::SimulatedTcp && old(self).limit_states().len()
                >= 2 ==> (res matches RouteDecision::Deliver { worker, .. } ==> worker >= 1),
            old(self).route_policy() == RoutePolicy::SimulatedTcp && old(self).limit_states().len()
                >= 2 ==> (res matches RouteDecision::Wait { worker } ==> worker >= 1),
            res is Drop <==> spec_route_target(
                old(self).route_policy(),
                payload@,
                meta,
                old(self).limit_states().len() as usize,
            ) is Drop,
            match spec_route_target(
                old(self).route_policy(),
                payload@,
                meta,
                old(self).limit_states().len() as usize,
            ) {
                RouteTarget::Stop => res is Stop && final(self).limit_states() == old(self).limit_states(),
                RouteTarget::Drop => res is Drop && final(self).limit_states() == old(self).limit_states(),
                RouteTarget::Worker(w) => w < old(self).limit_states().len() && if old(self).limit_states()[w as int].can_acquire() {
                    res matches RouteDecision::Deliver { worker, permit } && worker == w
                        && permit.is_counted() == (old(self).limit_states()[w as int].max is Some)
                        && permit.issuer() == w
                        && final(self).limit_states() == old(self).limit_states().update(
                        w as int,
                        old(self).limit_states()[w as int].after_acquire(),
                    )
                } else {
                    res == RouteDecision::Wait { worker: w } && final(self).limit_states() == old(
                        self,
                    ).limit_states()
                },
            },
    {
        proof {
            use_type_invariant(&*self);
        }
        let workers = self.limits.len();
        let target = match self.policy {
            RoutePolicy::QuicConnectionId => match quic_worker_index(payload, workers) {
                None => RouteTarget::Drop,
                Some(w) => RouteTarget::Worker(w),
            },
            RoutePolicy::AddressHash => match linux_reuseport_select(meta, workers) {
                Err(_) => RouteTarget::Stop,
                Ok(w) => RouteTarget::Worker(w),
            },
            RoutePolicy::SimulatedTcp => match select_simulated_tcp_worker(meta, workers) {
                Err(_) => RouteTarget::Stop,
                Ok(w) => RouteTarget::Worker(w),
            },
        };
        assert(target == spec_route_target(self.policy, payload@, meta, workers));
        match target {
            RouteTarget::Stop => RouteDecision::Stop,
            RouteTarget::Drop => RouteDecision::Drop,
            RouteTarget::Worker(w) => {
                let ghost before = self.limit_states();
                let mut limits: Vec<WorkerConcurrencyLimit> = Vec::new();
                std::mem::swap(&mut limits, &mut self.limits);
                assert(limits@[w as int].owner() == w);
                let mut limit = limits.remove(w);
                let permit = limit.try_acquire();
                limits.insert(w, limit);
                assert forall|i: int| #![trigger limits@[i]] 0 <= i < limits@.len() implies limits@[i].view().wf()
                    && limits@[i].owner() == i by {
                    if i != w {
                        assert(limits@[i] == old(self).limits@[i]);
                    }
                }
                self.limits = limits;
                proof {
                    assert(self.limit_states() =~= if permit is Some {
                        before.update(w as int, before[w as int].after_acquire())
                    } else {
                        before
                    });
                }
                match permit {
                    Some(permit) => RouteDecision::Deliver { worker: w, permit },
                    None => RouteDecision::Wait { worker: w },
                }
            },
        }
    }

    /// Takes a permit from the limit of `worker` for work that had to wait:
    /// `None`, with nothing changed, while that limit is still full.
    pub fn acquire_for(&mut self, worker: usize) -> (res: Option<ConcurrencyPermit>)
        requires
            worker < old(self).limit_states().len(),
        ensures
            final(self).route_policy() == old(self).route_policy(),
            res is Some <==> old(self).limit_states()[worker as int].can_acquire(),
            res matches Some(p) ==> p.issuer() == worker && p.is_counted() == (old(
                self,
            ).limit_states()[worker as int].max is Some) && final(self).limit_states() == old(
                self,
            ).limit_states().update(
                worker as int,
                old(self).limit_states()[worker as int].after_acquire(),
            ),
            res is None ==> final(self).limit_states() == old(self).limit_states(),
    {
        proof {
            use_type_invariant(&*self);
        }
        let ghost before = self.limit_states();
        let mut limits: Vec<WorkerConcurrencyLimit> = Vec::new();
        std::mem::swap(&mut limits, &mut self.limits);
        assert(limits@[worker as int].owner() == worker);
        let mut limit = limits.remove(worker);
        let permit = limit.try_acquire();
        limits.insert(worker, limit);
        assert forall|i: int| #![trigger limits@[i]] 0 <= i < limits@.len() implies limits@[i].view().wf()
            && limits@[i].owner() == i by {
            if i != worker {
                assert(limits@[i] == old(self).limits@[i]);
            }
        }
        self.limits = limits;
        proof {
            assert(self.limit_states() =~= if permit is Some {
                before.update(worker as int, before[worker as int].after_acquire())
            } else {
                before
            });
        }
        permit
    }

    /// Gives a permit of `worker` back to that worker's limit when its work
    /// is done. Returns whether that limit's count went down.
    pub fn release(&mut self, worker: usize, permit: ConcurrencyPermit) -> (res: bool)
        requires
            worker < old(self).limit_states().len(),
            permit.issuer() == worker,
        ensures
            final(self).route_policy() == old(self).route_policy(),
            final(self).limit_states() == old(self).limit_states().update(
                worker as int,
                old(self).limit_states()[worker as int].after_release(permit.is_counted()),
            ),
            res == (permit.is_counted() && old(self).limit_states()[worker as int].active > 0),
    {
        proof {
            use_type_invariant(&*self);
        }
        let ghost before = self.limit_states();
        let mut limits: Vec<WorkerConcurrencyLimit> = Vec::new();
        std::mem::swap(&mut limits, &mut self.limits);
        assert(limits@[worker as int].owner() == worker);
        let mut limit = limits.remove(worker);
        let woke = limit.release(permit);
        limits.insert(worker, limit);
        assert forall|i: int| #![trigger limits@[i]] 0 <= i < limits@.len() implies limits@[i].view().wf()
            && limits@[i].owner() == i by {
            if i != worker {
                assert(limits@[i] == old(self).limits@[i]);
            }
        }
        self.limits = limits;
        assert(self.limit_states() =~= before.update(
            worker as int,
            before[worker as int].after_release(permit.is_counted()),
        ));
        woke
    }
}

/// Delivering work to worker `w` and then releasing its permit when the
/// work is done leaves every worker's limit as it was.
pub proof fn lemma_release_after_delivery_restores(states: Seq<LimitState>, w: int)
    requires
        0 <= w < states.len(),
        states[w].wf(),
        states[w].can_acquire(),
    ensures
        ({
            let delivered = states.update(w, states[w].after_acquire());
            delivered.update(w, delivered[w].after_release(states[w].max is Some)) == states
        }),
{
    let delivered = states.update(w, states[w].after_acquire());
    assert(delivered.update(w, delivered[w].after_release(states[w].max is Some)) =~= states);
}

/// With more than one worker, a connection accepted by worker 0 under the
/// simulated-TCP policy goes to one of the other workers: the address hash
/// taken over the `workers - 1` others, shifted past worker 0. Worker 0,
/// which runs the accept loop, never gets one.
pub proof fn lemma_simulated_tcp_spares_the_accepting_worker(
    payload: Seq<u8>,
    meta: PacketMeta,
    workers: usize,
)
    requires
        workers >= 2,
    ensures
        spec_route_target(RoutePolicy::SimulatedTcp, payload, meta, workers) == RouteTarget::Worker(
            (((spec_meta_hash(meta) as usize) % ((workers - 1) as usize)) + 1) as usize,
        ),
        spec_route_target(RoutePolicy::SimulatedTcp, payload, meta, workers) != RouteTarget::Worker(
            0,
        ),
        spec_route_target(RoutePolicy::SimulatedTcp, payload, meta, workers) matches RouteTarget::Worker(
            w,
        ) ==> 1 <= w < workers,
{
}

/// Whether a listener loop goes on: both the runtime and the service are
/// still running.
pub fn is_active(runtime_active: bool, server_active: bool) -> (res: bool)
    ensures
        res == (runtime_active && server_active),
{
    runtime_active && server_active
}

/// What a receive loop does after a failed receive.
#[derive(Clone, Copy, Debug, PartialEq, Eq, Structural)]
pub enum RecvFailureAction {
    /// Replace the buffer and receive again.
    Retry,
    /// Leave the loop.
    Stop,
}

/// A failed receive is retried while the service is active; otherwise the
/// loop ends.
pub fn recv_failure_action(still_active: bool) -> (res: RecvFailureAction)
    ensures
        res == (if still_active { RecvFailureAction::Retry } else { RecvFailureAction::Stop }),
{
    if still_active {
        RecvFailureAction::Retry
    } else {
        RecvFailureAction::Stop
    }
}

} // verus!
