//! Per-worker limits on the number of handlers running at once.

use vstd::prelude::*;

verus! {

/// The state of a limit: its maximum, if any, and how many permits are out.
pub struct LimitState {
    pub max: Option<usize>,
    pub active: usize,
}

impl LimitState {
    /// A limited state never has more permits out than its maximum; an
    /// unlimited one counts none.
    pub open spec fn wf(self) -> bool {
        match self.max {
            Some(m) => m > 0 && self.active <= m,
            None => self.active == 0,
        }
    }

    /// Whether a permit can be handed out now.
    pub open spec fn can_acquire(self) -> bool {
        match self.max {
            Some(m) => self.active < m,
            None => true,
        }
    }

    /// The state after a permit was handed out.
    pub open spec fn after_acquire(self) -> LimitState {
        match self.max {
            Some(_) => LimitState { max: self.max, active: (self.active + 1) as usize },
            None => self,
        }
    }

    /// The state after a permit was given back; only a counted permit is
    /// taken off the count, which never goes below zero.
    pub open spec fn after_release(self, counted: bool) -> LimitState {
        if counted && self.active > 0 {
            LimitState { max: self.max, active: (self.active - 1) as usize }
        } else {
            self
        }
    }
}

/// The state of a new limit: limited by `max` when it is positive, else
/// unlimited; no permit out.
pub open spec fn spec_new_limit(max: Option<usize>) -> LimitState {
    match max {
        Some(m) => if m > 0 {
            LimitState { max: Some(m), active: 0 }
        } else {
            LimitState { max: None, active: 0 }
        },
        None => LimitState { max: None, active: 0 },
    }
}

/// Bounds the number of handlers that one worker runs at once.
pub struct WorkerConcurrencyLimit {
    worker: usize,
    max: Option<usize>,
    active: usize,
}

/// The right to run one handler on the worker whose limit issued it; given
/// back to that limit when the handler finishes.
pub struct ConcurrencyPermit {
    worker: usize,
    counted: bool,
}

impl ConcurrencyPermit {
    /// Whether the permit was taken off a limited count.
    pub closed spec fn is_counted(self) -> bool {
        self.counted
    }

    /// The worker whose limit issued the permit.
    pub closed spec fn issuer(self) -> usize {
        self.worker
    }

    /// The worker whose limit issued the permit.
    pub fn worker_index(&self) -> (res: usize)
        ensures
            res == self.issuer(),
    {
        self.worker
    }
}

impl WorkerConcurrencyLimit {
    pub closed spec fn view(self) -> LimitState {
        LimitState { max: self.max, active: self.active }
    }

    /// The worker that the limit belongs to; its permits carry it.
    pub closed spec fn owner(self) -> usize {
        self.worker
    }

    #[verifier::type_invariant]
    spec fn inv(self) -> bool {
        self.view().wf()
    }

    /// A limit of `max` handlers at once, or no limit when `max` is absent or
    /// zero, for worker 0.
    pub fn new(max: Option<usize>) -> (res: Self)
        ensures
            res.view() == spec_new_limit(max),
            max matches Some(m) ==> (m > 0 ==> res.view() == (LimitState { max: Some(m), active: 0 })),
            max is None || max == Some(0usize) ==> res.view() == (LimitState { max: None, active: 0 }),
            res.owner() == 0,
    {
        Self::for_worker(0, max)
    }

    /// A limit of `max` handlers at once for `worker`, or no limit when `max`
    /// is absent or zero.
    pub fn for_worker(worker: usize, max: Option<usize>) -> (res: Self)
        ensures
            res.view() == spec_new_limit(max),
            max matches Some(m) ==> (m > 0 ==> res.view() == (LimitState { max: Some(m), active: 0 })),
            max is None || max == Some(0usize) ==> res.view() == (LimitState { max: None, active: 0 }),
            res.owner() == worker,
    {
        match max {
            Some(m) => {
                if m > 0 {
                    WorkerConcurrencyLimit { worker, max: Some(m), active: 0 }
                } else {
                    WorkerConcurrencyLimit { worker, max: None, active: 0 }
                }
            },
            None => WorkerConcurrencyLimit { worker, max: None, active: 0 },
        }
    }

    /// The worker that the limit belongs to.
    pub fn worker_index(&self) -> (res: usize)
        ensures
            res == self.owner(),
    {
        self.worker
    }

    /// Whether this limit bounds anything.
    pub fn is_limited(&self) -> (res: bool)
        ensures
            res == (self.view().max is Some),
    {
        self.max.is_some()
    }

    /// The number of permits out.
    pub fn active(&self) -> (res: usize)
        ensures
            res == self.view().active,
            self.view().wf(),
    {
        proof {
            use_type_invariant(self);
        }
        self.active
    }

    /// Hands out a permit if one is free; an unlimited limit always has one.
    pub fn try_acquire(&mut self) -> (res: Option<ConcurrencyPermit>)
        ensures
            old(self).view().wf(),
            final(self).view().wf(),
            final(self).owner() == old(self).owner(),
            res is Some <==> old(self).view().can_acquire(),
            res matches Some(p) ==> final(self).view() == old(self).view().after_acquire()
                && p.is_counted() == (old(self).view().max is Some) && p.issuer() == old(
                self,
            ).owner(),
            res is None ==> final(self).view() == old(self).view(),
    {
        proof {
            use_type_invariant(&*self);
        }
        match self.max {
            None => Some(ConcurrencyPermit { worker: self.worker, counted: false }),
            Some(m) => {
                if self.active >= m {
                    None
                } else {
                    self.active = self.active + 1;
                    Some(ConcurrencyPermit { worker: self.worker, counted: true })
                }
            },
        }
    }

    /// Takes back a permit that this limit issued. Returns whether the count
    /// went down, that is whether a waiting acquirer should be woken.
    pub fn release(&mut self, permit: ConcurrencyPermit) -> (res: bool)
        requires
            permit.issuer() == old(self).owner(),
        ensures
            final(self).owner() == old(self).owner(),
            old(self).view().wf(),
            final(self).view().wf(),
            final(self).view() == old(self).view().after_release(permit.is_counted()),
            res == (permit.is_counted() && old(self).view().active > 0),
    {
        proof {
            use_type_invariant(&*self);
        }
        if permit.counted && self.active > 0 {
            self.active = self.active - 1;
            true
        } else {
            false
        }
    }
}

/// One limit per worker, each of `max` handlers; the limit at position `i`
/// belongs to worker `i`.
pub fn worker_limits(worker_count: usize, max: Option<usize>) -> (res: Vec<WorkerConcurrencyLimit>)
    ensures
        res@.len() == worker_count,
        forall|i: int| 0 <= i < worker_count ==> #[trigger] res@[i].view() == spec_new_limit(max)
            && res@[i].owner() == i,
{
    let mut limits: Vec<WorkerConcurrencyLimit> = Vec::new();
    let mut i: usize = 0;
    while i < worker_count
        invariant
            i <= worker_count,
            limits@.len() == i,
            forall|j: int| 0 <= j < i ==> #[trigger] limits@[j].view() == spec_new_limit(max)
                && limits@[j].owner() == j,
        decreases worker_count - i,
    {
        limits.push(WorkerConcurrencyLimit::for_worker(i, max));
        i = i + 1;
    }
    limits
}

/// Giving back a permit that was just handed out restores the limit to where
/// it was.
pub proof fn lemma_release_undoes_acquire(s: LimitState)
    requires
        s.wf(),
        s.can_acquire(),
    ensures
        s.after_acquire().wf(),
        s.after_acquire().after_release(s.max is Some) == s,
{
}

/// One step of a limit's life: a handler asks for a permit, or the handler
/// of a counted permit of this limit finishes and gives it back.
pub enum LimitStep {
    Acquire,
    Release,
}

/// The limit after `steps`, in order; an acquisition the limit refuses
/// changes nothing.
pub open spec fn spec_after_steps(s: LimitState, steps: Seq<LimitStep>) -> LimitState
    decreases steps.len(),
{
    if steps.len() == 0 {
        s
    } else {
        let before = spec_after_steps(s, steps.drop_last());
        match steps.last() {
            LimitStep::Acquire => if before.can_acquire() {
                before.after_acquire()
            } else {
                before
            },
            LimitStep::Release => before.after_release(before.max is Some),
        }
    }
}

/// How many of the permits handed out during `steps` are still out, counted
/// from `out` at the start: each granted acquisition adds one, each release
/// gives one back while there is one.
pub open spec fn spec_permits_out(s: LimitState, steps: Seq<LimitStep>) -> nat
    decreases steps.len(),
{
    if steps.len() == 0 {
        s.active as nat
    } else {
        let out = spec_permits_out(s, steps.drop_last());
        let before = spec_after_steps(s, steps.drop_last());
        match steps.last() {
            LimitStep::Acquire => if before.can_acquire() && before.max is Some {
                out + 1
            } else {
                out
            },
            LimitStep::Release => if out > 0 {
                (out - 1) as nat
            } else {
                out
            },
        }
    }
}

/// A limit never hands out more permits than its maximum: from a
/// well-formed state, whatever sequence of acquisitions and releases
/// follows, the state stays well formed, a refusal happens only at the
/// maximum, and the count is exactly the number of counted permits out.
pub proof fn lemma_acquire_keeps_bound(s: LimitState, steps: Seq<LimitStep>)
    requires
        s.wf(),
    ensures
        spec_after_steps(s, steps).wf(),
        spec_after_steps(s, steps).max == s.max,
        spec_after_steps(s, steps).active == spec_permits_out(s, steps),
        !spec_after_steps(s, steps).can_acquire() ==> (s.max matches Some(m)
            && spec_after_steps(s, steps).active == m),
    decreases steps.len(),
{
    if steps.len() > 0 {
        lemma_acquire_keeps_bound(s, steps.drop_last());
    }
}

/// `k` requests for a permit in a row, none given back.
pub open spec fn acquisitions(k: nat) -> Seq<LimitStep> {
    Seq::new(k, |i: int| LimitStep::Acquire)
}

/// A fresh limit of `m` handlers grants exactly `m` permits: after `k`
/// requests with nothing given back, `min(k, m)` permits are out, and a
/// further request is granted exactly when `k < m`.
pub proof fn lemma_limit_admits_exactly_max(m: usize, k: nat)
    requires
        m > 0,
    ensures
        spec_after_steps(LimitState { max: Some(m), active: 0 }, acquisitions(k)).active == (if k
            < m {
            k
        } else {
            m as nat
        }),
        spec_after_steps(LimitState { max: Some(m), active: 0 }, acquisitions(k)).can_acquire()
            <==> k < m,
        spec_after_steps(LimitState { max: Some(m), active: 0 }, acquisitions(k)).max == Some(m),
    decreases k,
{
    let s = LimitState { max: Some(m), active: 0 };
    if k > 0 {
        assert(acquisitions(k).drop_last() =~= acquisitions((k - 1) as nat));
        assert(acquisitions(k).last() == LimitStep::Acquire);
        lemma_limit_admits_exactly_max(m, (k - 1) as nat);
        assert(spec_after_steps(s, acquisitions(k)) == {
            let before = spec_after_steps(s, acquisitions((k - 1) as nat));
            if before.can_acquire() {
                before.after_acquire()
            } else {
                before
            }
        });
        let before = spec_after_steps(s, acquisitions((k - 1) as nat));
        if k - 1 < m {
            assert(before.active == k - 1);
            assert(before.can_acquire());
            assert(spec_after_steps(s, acquisitions(k)).active == k);
        } else {
            assert(before.active == m);
            assert(!before.can_acquire());
        }
    } else {
        assert(acquisitions(k) =~= Seq::<LimitStep>::empty());
        assert(spec_after_steps(s, acquisitions(k)) == s);
    }
}

/// Without a maximum every acquisition succeeds and nothing is counted.
pub proof fn lemma_unlimited_never_refuses(max: Option<usize>)
    requires
        max is None || max == Some(0usize),
    ensures
        spec_new_limit(max).can_acquire(),
        spec_new_limit(max).after_acquire() == spec_new_limit(max),
{
}

} // verus!
