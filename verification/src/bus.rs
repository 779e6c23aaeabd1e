use crate::enums::failure::FailureReason;
use vstd::prelude::*;

verus! {

/// The longest time, in milliseconds, for which the bus may be held unless
/// the arbiter is told otherwise.
pub const DEFAULT_HOLD_LIMIT_MS: u64 = 100;

/// The arbiter of the shared bus. One caller at a time holds the bus; the
/// others wait in the order in which they asked.
pub struct BusArbiter {
    /// The longest time for which the bus may be held, in milliseconds.
    pub limit_ms: u64,
    /// The caller that holds the bus, if one does.
    pub holder: Option<u64>,
    /// The moment at which the holder got the bus, in milliseconds.
    pub since_ms: u64,
    /// The callers that wait for the bus; the first one asked first.
    pub waiters: Vec<u64>,
}

/// The answer to a request for the bus.
#[derive(Clone, Copy, Debug, PartialEq, Eq, Structural)]
pub enum Grant {
    /// The caller holds the bus from now on.
    Granted,
    /// Another caller holds the bus; the caller waits for its turn.
    Queued,
    /// The caller holds the bus already, or waits for it already.
    Refused,
}

/// What became of the bus when its holder let go of it.
#[derive(Clone, Copy, Debug, PartialEq, Eq, Structural)]
pub struct Handover {
    /// The waiter that holds the bus now, if one waited.
    pub next: Option<u64>,
    /// Whether the bus had been held for longer than the limit allows.
    pub overran: bool,
}

/// What one use of the bus brought, and how long it took.
#[derive(Debug, PartialEq, Eq)]
pub struct Timed<T> {
    pub value: T,
    pub elapsed_ms: u64,
}

/// What a use of the bus is worth under a limit of `limit_ms` milliseconds:
/// what it brought where it kept the limit, and a busy bus where it did not.
pub open spec fn within_limit<T>(t: Timed<T>, limit_ms: u64) -> Result<T, FailureReason> {
    if t.elapsed_ms > limit_ms {
        Err(FailureReason::BusBusy)
    } else {
        Ok(t.value)
    }
}

/// The time from `since_ms` to `now_ms`; none where the clock went back.
pub open spec fn elapsed(since_ms: u64, now_ms: u64) -> int {
    if now_ms >= since_ms {
        now_ms - since_ms
    } else {
        0
    }
}

impl BusArbiter {
    /// Whether `caller` holds the bus.
    pub open spec fn holds(&self, caller: u64) -> bool {
        self.holder == Some(caller)
    }

    /// Whether `caller` waits for the bus.
    pub open spec fn waits(&self, caller: u64) -> bool {
        self.waiters@.contains(caller)
    }

    /// Nobody waits for a free bus, nobody waits twice, and the holder does
    /// not wait.
    pub open spec fn wf(&self) -> bool {
        &&& self.holder is None ==> self.waiters@.len() == 0
        &&& forall|i: int, j: int|
            0 <= i < j < self.waiters@.len() ==> self.waiters@[i] != self.waiters@[j]
        &&& forall|i: int| 0 <= i < self.waiters@.len() ==> !self.holds(#[trigger] self.waiters@[i])
    }

    /// Whether the holder has held the bus for longer than the limit allows
    /// at the moment `now_ms`.
    pub open spec fn overrun(&self, now_ms: u64) -> bool {
        self.holder is Some && elapsed(self.since_ms, now_ms) > self.limit_ms
    }

    /// A free bus that may be held for `limit_ms` milliseconds at a time.
    pub fn new(limit_ms: u64) -> (r: Self)
        ensures
            r.wf(),
            r.limit_ms == limit_ms,
            r.holder is None,
            r.waiters@.len() == 0,
    {
        BusArbiter { limit_ms, holder: None, since_ms: 0, waiters: Vec::new() }
    }

    fn is_waiting(&self, caller: u64) -> (r: bool)
        ensures
            r == self.waits(caller),
    {
        let mut i: usize = 0;
        while i < self.waiters.len()
            invariant
                i <= self.waiters@.len(),
                forall|j: int| 0 <= j < i ==> self.waiters@[j] != caller,
            decreases self.waiters@.len() - i,
        {
            if self.waiters[i] == caller {
                return true;
            }
            i = i + 1;
        }
        false
    }

    fn is_overrun(&self, now_ms: u64) -> (r: bool)
        ensures
            r == self.overrun(now_ms),
    {
        self.holder.is_some() && now_ms >= self.since_ms && now_ms - self.since_ms > self.limit_ms
    }

    /// Passes the bus from its holder to the waiter that asked first, or
    /// frees it where nobody waits.
    #[verifier::spinoff_prover]
    fn pass_on(&mut self, now_ms: u64) -> (next: Option<u64>)
        requires
            old(self).wf(),
            old(self).holder is Some,
        ensures
            final(self).wf(),
            final(self).limit_ms == old(self).limit_ms,
            final(self).holder == next,
            next == (if old(self).waiters@.len() > 0 {
                Some(old(self).waiters@[0])
            } else {
                None
            }),
            final(self).waiters@ == (if old(self).waiters@.len() > 0 {
                old(self).waiters@.drop_first()
            } else {
                old(self).waiters@
            }),
            next is Some ==> final(self).since_ms == now_ms,
    {
        if self.waiters.len() > 0 {
            let next = self.waiters.remove(0);
            self.holder = Some(next);
            self.since_ms = now_ms;
            assert(self.waiters@ =~= old(self).waiters@.drop_first());
            assert forall|i: int| 0 <= i < self.waiters@.len() implies !self.holds(
                #[trigger] self.waiters@[i],
            ) by {
                assert(self.waiters@[i] == old(self).waiters@[i + 1]);
            }
            assert forall|i: int, j: int| 0 <= i < j < self.waiters@.len() implies self.waiters@[i]
                != self.waiters@[j] by {
                assert(self.waiters@[i] == old(self).waiters@[i + 1]);
                assert(self.waiters@[j] == old(self).waiters@[j + 1]);
            }
            Some(next)
        } else {
            self.holder = None;
            None
        }
    }

    /// Asks for the bus on behalf of `caller` at the moment `now_ms`. A free
    /// bus is granted at once. A bus that another caller holds is not taken
    /// from it: the caller joins the end of the queue. A caller that holds
    /// the bus or waits for it is refused, and nothing changes.
    pub fn request(&mut self, caller: u64, now_ms: u64) -> (r: Grant)
        requires
            old(self).wf(),
        ensures
            final(self).wf(),
            final(self).limit_ms == old(self).limit_ms,
            r == (if old(self).holder is None {
                Grant::Granted
            } else if old(self).holds(caller) || old(self).waits(caller) {
                Grant::Refused
            } else {
                Grant::Queued
            }),
            r == Grant::Granted ==> final(self).holds(caller) && final(self).since_ms == now_ms
                && final(self).waiters@ == old(self).waiters@,
            r == Grant::Queued ==> final(self).holder == old(self).holder && final(self).since_ms
                == old(self).since_ms && final(self).waiters@ == old(self).waiters@.push(caller),
            r == Grant::Refused ==> final(self).holder == old(self).holder && final(self).since_ms
                == old(self).since_ms && final(self).waiters@ == old(self).waiters@,
    {
        match self.holder {
            None => {
                self.holder = Some(caller);
                self.since_ms = now_ms;
                Grant::Granted
            },
            Some(holder) => {
                if holder == caller || self.is_waiting(caller) {
                    Grant::Refused
                } else {
                    self.waiters.push(caller);
                    Grant::Queued
                }
            },
        }
    }

    /// Lets go of the bus on behalf of `caller` at the moment `now_ms`. The
    /// bus passes to the waiter that asked first, which holds it from
    /// `now_ms` on. A caller that does not hold the bus changes nothing and
    /// gets `None`.
    pub fn release(&mut self, caller: u64, now_ms: u64) -> (r: Option<Handover>)
        requires
            old(self).wf(),
        ensures
            final(self).wf(),
            final(self).limit_ms == old(self).limit_ms,
            r is Some == old(self).holds(caller),
            r is None ==> final(self).holder == old(self).holder && final(self).since_ms == old(
                self,
            ).since_ms && final(self).waiters@ == old(self).waiters@,
            r matches Some(h) ==> h.overran == old(self).overrun(now_ms) && final(self).holder
                == h.next && (final(self).holder is Some ==> final(self).since_ms == now_ms)
                && !final(self).holds(caller) && h.next == (if old(self).waiters@.len() > 0 {
                Some(old(self).waiters@[0])
            } else {
                None
            }) && final(self).waiters@ == (if old(self).waiters@.len() > 0 {
                old(self).waiters@.drop_first()
            } else {
                old(self).waiters@
            }),
    {
        match self.holder {
            Some(holder) => {
                if holder == caller {
                    let overran = self.is_overrun(now_ms);
                    let next = self.pass_on(now_ms);
                    proof {
                        if old(self).waiters@.len() > 0 {
                            assert(!old(self).holds(old(self).waiters@[0]));
                        }
                    }
                    Some(Handover { next, overran })
                } else {
                    None
                }
            },
            None => None,
        }
    }

    /// Takes the bus from a holder that has held it for longer than the
    /// limit allows at the moment `now_ms`, and passes it to the waiter that
    /// asked first, which holds it from `now_ms` on. Gives the caller that
    /// lost the bus, which is to be told that the bus is busy; `None`, and
    /// no change, where the limit is kept.
    pub fn expire(&mut self, now_ms: u64) -> (r: Option<u64>)
        requires
            old(self).wf(),
        ensures
            final(self).wf(),
            final(self).limit_ms == old(self).limit_ms,
            r is Some == old(self).overrun(now_ms),
            r is None ==> final(self).holder == old(self).holder && final(self).since_ms == old(
                self,
            ).since_ms && final(self).waiters@ == old(self).waiters@,
            r matches Some(loser) ==> old(self).holds(loser) && !final(self).holds(loser)
                && (final(self).holder is Some ==> final(self).since_ms == now_ms)
                && final(self).holder == (if old(self).waiters@.len() > 0 {
                Some(old(self).waiters@[0])
            } else {
                None
            }) && final(self).waiters@ == (if old(self).waiters@.len() > 0 {
                old(self).waiters@.drop_first()
            } else {
                old(self).waiters@
            }),
    {
        if self.is_overrun(now_ms) {
            let loser = self.holder;
            proof {
                if old(self).waiters@.len() > 0 {
                    assert(!old(self).holds(old(self).waiters@[0]));
                }
            }
            self.pass_on(now_ms);
            loser
        } else {
            None
        }
    }

    /// Gives up the place of `caller` in the queue. The others keep their
    /// order. Says whether the caller had a place.
    #[verifier::spinoff_prover]
    pub fn withdraw(&mut self, caller: u64) -> (r: bool)
        requires
            old(self).wf(),
        ensures
            final(self).wf(),
            final(self).limit_ms == old(self).limit_ms,
            final(self).holder == old(self).holder,
            final(self).since_ms == old(self).since_ms,
            r == old(self).waits(caller),
            !final(self).waits(caller),
            final(self).waiters@ == old(self).waiters@.filter(|c: u64| c != caller),
    {
        let mut i: usize = 0;
        while i < self.waiters.len()
            invariant
                self.wf(),
                *self == *old(self),
                i <= self.waiters@.len(),
                forall|j: int| 0 <= j < i ==> self.waiters@[j] != caller,
            decreases self.waiters@.len() - i,
        {
            if self.waiters[i] == caller {
                self.waiters.remove(i);
                proof {
                    lemma_filter_single(old(self).waiters@, caller, i as int);
                    assert forall|j: int| 0 <= j < self.waiters@.len() implies self.waiters@[j]
                        != caller && !self.holds(#[trigger] self.waiters@[j]) by {
                        if j < i {
                            assert(self.waiters@[j] == old(self).waiters@[j]);
                        } else {
                            assert(self.waiters@[j] == old(self).waiters@[j + 1]);
                        }
                    }
                    assert forall|a: int, b: int|
                        0 <= a < b < self.waiters@.len() implies self.waiters@[a]
                        != self.waiters@[b] by {
                        let a0 = if a < i { a } else { a + 1 };
                        let b0 = if b < i { b } else { b + 1 };
                        assert(self.waiters@[a] == old(self).waiters@[a0]);
                        assert(self.waiters@[b] == old(self).waiters@[b0]);
                    }
                }
                return true;
            }
            i = i + 1;
        }
        proof {
            lemma_filter_absent(self.waiters@, caller);
        }
        false
    }

    /// Runs `op` with the bus held by `caller`, and lets go of the bus
    /// however `op` ends, so that the arbiter is left as it was found. A bus
    /// that is held is not taken: `op` does not run, no time passes, and the
    /// caller is told that the bus is busy. A use that took longer than the
    /// limit allows is reported as a busy bus too, and what it brought is
    /// dropped. The time that the use took is handed on.
    pub fn with_bus<T, F: FnOnce() -> Timed<T>>(&mut self, caller: u64, op: F) -> (r: Timed<
        Result<T, FailureReason>,
    >)
        requires
            old(self).wf(),
            call_requires(op, ()),
        ensures
            final(self).wf(),
            final(self).limit_ms == old(self).limit_ms,
            final(self).holder == old(self).holder,
            final(self).since_ms == old(self).since_ms,
            final(self).waiters@ == old(self).waiters@,
            old(self).holder is Some ==> r.elapsed_ms == 0 && r.value == Err::<T, FailureReason>(
                FailureReason::BusBusy,
            ),
            old(self).holder is None ==> exists|t: Timed<T>|
                call_ensures(op, (), t) && r.elapsed_ms == t.elapsed_ms && r.value == within_limit(
                    t,
                    old(self).limit_ms,
                ),
    {
        if self.holder.is_some() {
            return Timed { value: Err(FailureReason::BusBusy), elapsed_ms: 0 };
        }
        self.holder = Some(caller);
        let t = op();
        self.holder = None;
        let ghost seen = t;
        let r = if t.elapsed_ms > self.limit_ms {
            Timed { value: Err(FailureReason::BusBusy), elapsed_ms: t.elapsed_ms }
        } else {
            Timed { value: Ok(t.value), elapsed_ms: t.elapsed_ms }
        };
        assert(call_ensures(op, (), seen) && r.elapsed_ms == seen.elapsed_ms && r.value
            == within_limit(seen, old(self).limit_ms));
        r
    }

    /// At no moment do two callers hold the bus, and a caller that holds
    /// it does not wait for it.
    pub proof fn lemma_exclusive(&self, a: u64, b: u64)
        requires
            self.wf(),
        ensures
            self.holds(a) && self.holds(b) ==> a == b,
            self.holds(a) ==> !self.waits(a),
    {
    }
}

impl Default for BusArbiter {
    /// A free bus that may be held for 100 milliseconds at a time.
    fn default() -> (r: Self)
        ensures
            r.wf(),
            r.limit_ms == DEFAULT_HOLD_LIMIT_MS,
            r.holder is None,
            r.waiters@.len() == 0,
    {
        BusArbiter::new(DEFAULT_HOLD_LIMIT_MS)
    }
}

/// Filtering a caller out of a queue in which it does not stand changes
/// nothing.
pub proof fn lemma_filter_absent(queue: Seq<u64>, caller: u64)
    requires
        !queue.contains(caller),
    ensures
        queue.filter(|c: u64| c != caller) == queue,
    decreases queue.len(),
{
    reveal(Seq::filter);
    if queue.len() > 0 {
        assert(queue.drop_last().len() < queue.len());
        assert forall|i: int| 0 <= i < queue.drop_last().len() implies queue.drop_last()[i]
            != caller by {
            assert(queue[i] == queue.drop_last()[i]);
        }
        lemma_filter_absent(queue.drop_last(), caller);
        assert(queue.last() != caller);
        assert(queue.drop_last().push(queue.last()) =~= queue);
    }
}

/// Filtering a caller out of a queue in which it stands once, at `at`,
/// removes that place.
pub proof fn lemma_filter_single(queue: Seq<u64>, caller: u64, at: int)
    requires
        0 <= at < queue.len(),
        queue[at] == caller,
        forall|i: int, j: int| 0 <= i < j < queue.len() ==> queue[i] != queue[j],
    ensures
        queue.filter(|c: u64| c != caller) == queue.remove(at),
    decreases queue.len(),
{
    reveal(Seq::filter);
    let front = queue.drop_last();
    if at == queue.len() - 1 {
        assert(!front.contains(caller));
        lemma_filter_absent(front, caller);
        assert(queue.remove(at) =~= front);
    } else {
        lemma_filter_single(front, caller, at);
        assert(queue.last() != caller);
        assert(queue.remove(at) =~= front.remove(at).push(queue.last()));
    }
}

} // verus!
