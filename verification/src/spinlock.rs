//! The lock that guards the keyboard and the writer.
//!
//! The kernel runs in one context, without threads and without
//! interrupts while a lock is held. So the lock here is the protocol of
//! a spin lock and not the waiting: a flag that says a guard is out, set
//! when the guard is handed over and cleared when it is given back. To
//! take the lock while it is held would spin for ever; the contracts
//! leave that out.

use core::ops::{Deref, DerefMut};
use vstd::prelude::*;

verus! {

/// Wrapper of a data behind a lock.
#[derive(Debug)]
pub struct Spinlock<T> {
    lock: bool,
    data: T,
}

/// A guard to which the protected data can be accessed
///
/// The guard holds the lock until it is released. Its two fields are
/// open to view, so that the lock's contract can say what the lock is
/// once the guard has gone: what the guard leaves in them.
#[derive(Debug)]
pub struct SpinlockGuard<'a, T: 'a> {
    /// The flag of the lock that the guard came from.
    pub lock: &'a mut bool,
    /// The data that the lock protects.
    pub data: &'a mut T,
}

/// What a lock is at one moment: whether it is held, and the data.
pub struct LockState<T> {
    pub held: bool,
    pub value: T,
}

impl<T> LockState<T> {
    /// The state after the lock was taken; `None` where it is held
    /// already, since then it is never handed over.
    pub open spec fn acquire(self) -> Option<LockState<T>> {
        if self.held {
            None
        } else {
            Some(LockState { held: true, value: self.value })
        }
    }

    /// The state after the guard has stored `value`.
    pub open spec fn store(self, value: T) -> LockState<T> {
        LockState { held: self.held, value }
    }

    /// The state after the guard was given back.
    pub open spec fn release(self) -> LockState<T> {
        LockState { held: false, value: self.value }
    }
}

impl<T> View for Spinlock<T> {
    type V = LockState<T>;

    closed spec fn view(&self) -> LockState<T> {
        LockState { held: self.lock, value: self.data }
    }
}

impl<T> Spinlock<T> {
    /// Create new SpinnLock wrapping the supplied data.
    pub fn new(d: T) -> (r: Self)
        ensures
            r@ == (LockState { held: false, value: d }),
    {
        Self { lock: false, data: d }
    }

    /// What the atomic flag's compare-and-swap does, and what it tells.
    fn compare_exchange(&mut self, current: bool, new: bool) -> (r: Result<bool, bool>)
        ensures
            r == (if old(self)@.held == current {
                Ok::<bool, bool>(current)
            } else {
                Err::<bool, bool>(old(self)@.held)
            }),
            final(self)@.held == (if old(self)@.held == current {
                new
            } else {
                old(self)@.held
            }),
            final(self)@.value == old(self)@.value,
    {
        let previous = self.lock;
        if previous == current {
            self.lock = new;
            Ok(previous)
        } else {
            Err(previous)
        }
    }

    /// Takes the flag. It is free, so the first swap does it.
    fn obtain_lock(&mut self)
        requires
            !old(self)@.held,
        ensures
            Some(final(self)@) == old(self)@.acquire(),
    {
        let swapped = self.compare_exchange(false, true);
        assert(swapped is Ok);
    }

    /// Return true if the lock is currently held.
    pub fn is_locked(&self) -> (r: bool)
        ensures
            r == self@.held,
    {
        self.lock
    }

    /// Locks the spinlock and return a guard.
    ///
    /// The returned value may be dereferenced for data access
    /// and the lock is held until the guard is released: what the lock
    /// is in the end is what the guard leaves in the flag and in the data.
    pub fn lock(&mut self) -> (guard: SpinlockGuard<'_, T>)
        requires
            !old(self)@.held,
        ensures
            *guard.lock,
            *guard.data == old(self)@.value,
            final(self)@ == (LockState { held: *final(guard.lock), value: *final(guard.data) }),
    {
        self.obtain_lock();
        SpinlockGuard { lock: &mut self.lock, data: &mut self.data }
    }
}

impl<'a, T> Deref for SpinlockGuard<'a, T> {
    type Target = T;

    /// The protected data, to read.
    fn deref<'b>(&'b self) -> (r: &'b Self::Target)
        ensures
            *r == *old(self.data),
    {
        &*self.data
    }
}

impl<'a, T> DerefMut for SpinlockGuard<'a, T> {
    /// The protected data, to change.
    fn deref_mut<'b>(&'b mut self) -> (r: &'b mut T)
        ensures
            *r == *old(self).data,
            *final(self).data == *final(r),
            *final(self).lock == *old(self).lock,
            *final(final(self).lock) == *final(old(self).lock),
            *final(final(self).data) == *final(old(self).data),
    {
        &mut *self.data
    }
}

impl<'a, T> SpinlockGuard<'a, T> {
    /// Gives the guard back: the flag is cleared and the data stays as
    /// the guard left it.
    pub fn release(self)
        ensures
            *final(self.lock) == false,
            *final(self.data) == *old(self.data),
    {
        *self.lock = false;
    }
}

/// The state after one cycle on a counter: the lock taken, the counter
/// raised by one, the lock given back. `None` where the lock is held.
pub open spec fn counted(s: LockState<int>) -> Option<LockState<int>> {
    match s.acquire() {
        Some(taken) => Some(taken.store(taken.value + 1).release()),
        None => None,
    }
}

/// The state after `cycles` cycles, one after the other.
pub open spec fn counted_times(s: LockState<int>, cycles: nat) -> Option<LockState<int>>
    decreases cycles,
{
    if cycles == 0 {
        Some(s)
    } else {
        match counted_times(s, (cycles - 1) as nat) {
            Some(before) => counted(before),
            None => None,
        }
    }
}

/// The state after each of `contenders` has run `cycles` cycles, one
/// contender after the other.
pub open spec fn contended(s: LockState<int>, contenders: nat, cycles: nat) -> Option<LockState<int>>
    decreases contenders,
{
    if contenders == 0 {
        Some(s)
    } else {
        match contended(s, (contenders - 1) as nat, cycles) {
            Some(before) => counted_times(before, cycles),
            None => None,
        }
    }
}

/// Cycles on a free lock all get the lock, and each counts.
pub proof fn lemma_counted_times(s: LockState<int>, cycles: nat)
    requires
        !s.held,
    ensures
        counted_times(s, cycles) == Some(LockState { held: false, value: s.value + cycles }),
    decreases cycles,
{
    if cycles > 0 {
        lemma_counted_times(s, (cycles - 1) as nat);
    }
}

/// No update is lost: when each of `contenders` has run `cycles` cycles
/// on a counter behind a free lock, every one of them got the lock, the
/// counter has risen by `contenders * cycles` exactly, and the lock is
/// free again.
pub proof fn lemma_no_lost_update(s: LockState<int>, contenders: nat, cycles: nat)
    requires
        !s.held,
    ensures
        contended(s, contenders, cycles) == Some(
            LockState { held: false, value: s.value + contenders * cycles },
        ),
    decreases contenders,
{
    if contenders > 0 {
        let others = (contenders - 1) as nat;
        lemma_no_lost_update(s, others, cycles);
        let before = LockState { held: false, value: s.value + others * cycles };
        assert(contended(s, others, cycles) == Some(before));
        lemma_counted_times(before, cycles);
        assert(others * cycles + cycles == contenders * cycles) by (nonlinear_arith)
            requires
                others + 1 == contenders,
        ;
    } else {
        assert(contenders * cycles == 0) by (nonlinear_arith)
            requires
                contenders == 0,
        ;
    }
}

/// Where a contender stands in its cycle on the counter.
pub enum Phase {
    /// Without the lock: before its first cycle, between two cycles, or
    /// spinning.
    Waiting,
    /// With the lock in hand.
    Holding,
    /// With the lock in hand and the counter read: it read `seen`.
    Loaded { seen: int },
}

/// Contenders at a counter behind a lock, each somewhere in its cycle:
/// take the lock, read the counter, store one more and give the lock
/// back.
pub struct Contest {
    pub lock: LockState<int>,
    /// Where each contender stands.
    pub phases: Seq<Phase>,
    /// How many cycles each contender has completed.
    pub done: Seq<nat>,
}

/// The sum of the numbers of `s`.
pub open spec fn sum(s: Seq<nat>) -> nat
    decreases s.len(),
{
    if s.len() == 0 {
        0
    } else {
        sum(s.drop_last()) + s.last()
    }
}

impl Contest {
    /// All `contenders` waiting at a free lock.
    pub open spec fn start(value: int, contenders: nat) -> Contest {
        Contest {
            lock: LockState { held: false, value },
            phases: Seq::new(contenders, |i: int| Phase::Waiting),
            done: Seq::new(contenders, |i: int| 0nat),
        }
    }

    /// The contest after contender `who` has made its next step. One
    /// that waits tries to take the lock and goes on waiting if it is
    /// held; one that holds it reads the counter; one that has read
    /// stores what it read and one, and gives the lock back.
    pub open spec fn step(self, who: int) -> Contest {
        if 0 <= who < self.phases.len() {
            match self.phases[who] {
                Phase::Waiting => match self.lock.acquire() {
                    Some(taken) => Contest {
                        lock: taken,
                        phases: self.phases.update(who, Phase::Holding),
                        ..self
                    },
                    None => self,
                },
                Phase::Holding => Contest {
                    phases: self.phases.update(who, Phase::Loaded { seen: self.lock.value }),
                    ..self
                },
                Phase::Loaded { seen } => Contest {
                    lock: self.lock.store(seen + 1).release(),
                    phases: self.phases.update(who, Phase::Waiting),
                    done: self.done.update(who, self.done[who] + 1),
                },
            }
        } else {
            self
        }
    }

    /// The contest after the contenders have stepped in the order that
    /// `schedule` names them.
    pub open spec fn run(self, schedule: Seq<int>) -> Contest
        decreases schedule.len(),
    {
        if schedule.len() == 0 {
            self
        } else {
            self.run(schedule.drop_last()).step(schedule.last())
        }
    }

    /// What holds of a contest that began with the counter at `from`:
    /// the lock is held exactly while one contender is not waiting, no
    /// two contenders are ever past the lock together, what a contender
    /// has read is still what the counter holds, and the counter has
    /// risen by the number of cycles completed.
    pub open spec fn inv(self, from: int) -> bool {
        &&& self.done.len() == self.phases.len()
        &&& self.lock.held <==> exists|i: int|
            0 <= i < self.phases.len() && #[trigger] self.phases[i] != Phase::Waiting
        &&& forall|i: int, j: int|
            0 <= i < self.phases.len() && 0 <= j < self.phases.len() && #[trigger] self.phases[i]
                != Phase::Waiting && #[trigger] self.phases[j] != Phase::Waiting ==> i == j
        &&& forall|i: int|
            0 <= i < self.phases.len() ==> (#[trigger] self.phases[i] matches Phase::Loaded {
                seen,
            } ==> seen == self.lock.value)
        &&& self.lock.value == from + sum(self.done)
    }
}

/// Replacing one number of a sequence changes the sum by the difference.
proof fn lemma_sum_update(s: Seq<nat>, i: int, v: nat)
    requires
        0 <= i < s.len(),
    ensures
        sum(s.update(i, v)) == sum(s) - s[i] + v,
    decreases s.len(),
{
    if i == s.len() - 1 {
        assert(s.update(i, v).drop_last() =~= s.drop_last());
    } else {
        lemma_sum_update(s.drop_last(), i, v);
        assert(s.update(i, v).drop_last() =~= s.drop_last().update(i, v));
    }
}

/// The sum of a sequence of equal numbers.
proof fn lemma_sum_uniform(s: Seq<nat>, v: nat)
    requires
        forall|i: int| 0 <= i < s.len() ==> s[i] == v,
    ensures
        sum(s) == s.len() * v,
    decreases s.len(),
{
    if s.len() > 0 {
        lemma_sum_uniform(s.drop_last(), v);
        assert((s.len() - 1) * v + v == s.len() * v) by (nonlinear_arith);
    } else {
        assert(0 * v == 0) by (nonlinear_arith);
    }
}

/// A step keeps what holds of a contest.
proof fn lemma_step(c: Contest, from: int, who: int)
    requires
        c.inv(from),
    ensures
        c.step(who).inv(from),
{
    let after = c.step(who);
    if 0 <= who < c.phases.len() {
        match c.phases[who] {
            Phase::Waiting => {
                if !c.lock.held {
                    assert(after.phases[who] != Phase::Waiting);
                    assert forall|i: int, j: int|
                        0 <= i < after.phases.len() && 0 <= j < after.phases.len()
                            && #[trigger] after.phases[i] != Phase::Waiting
                            && #[trigger] after.phases[j] != Phase::Waiting implies i == j by {
                        if i != who {
                            assert(c.phases[i] != Phase::Waiting);
                        }
                        if j != who {
                            assert(c.phases[j] != Phase::Waiting);
                        }
                    }
                }
            },
            Phase::Holding => {
                assert(c.phases[who] != Phase::Waiting);
                assert(after.phases[who] != Phase::Waiting);
                assert forall|i: int, j: int|
                    0 <= i < after.phases.len() && 0 <= j < after.phases.len()
                        && #[trigger] after.phases[i] != Phase::Waiting
                        && #[trigger] after.phases[j] != Phase::Waiting implies i == j by {
                    assert(c.phases[i] != Phase::Waiting);
                    assert(c.phases[j] != Phase::Waiting);
                }
                assert forall|i: int| 0 <= i < after.phases.len() implies (
                #[trigger] after.phases[i] matches Phase::Loaded { seen } ==> seen
                    == after.lock.value) by {
                    if i != who {
                        assert(c.phases[i] == after.phases[i]);
                    }
                }
            },
            Phase::Loaded { seen } => {
                assert(c.phases[who] != Phase::Waiting);
                lemma_sum_update(c.done, who, c.done[who] + 1);
                assert forall|i: int| 0 <= i < after.phases.len() implies after.phases[i]
                    == Phase::Waiting by {
                    if i != who {
                        if c.phases[i] != Phase::Waiting {
                            assert(i == who);
                        }
                    }
                }
            },
        }
    }
}

/// Whatever the order in which the contenders step, the lock lets one
/// of them at a time past it, and the counter counts every cycle that
/// was completed: no update is lost.
pub proof fn lemma_contest(value: int, contenders: nat, schedule: Seq<int>)
    ensures
        Contest::start(value, contenders).run(schedule).inv(value),
        Contest::start(value, contenders).run(schedule).phases.len() == contenders,
    decreases schedule.len(),
{
    let begin = Contest::start(value, contenders);
    if schedule.len() == 0 {
        lemma_sum_uniform(begin.done, 0);
    } else {
        lemma_contest(value, contenders, schedule.drop_last());
        lemma_step(begin.run(schedule.drop_last()), value, schedule.last());
    }
}

/// When each of the contenders has completed `cycles` cycles, in
/// whatever order their steps came, the counter has risen by
/// `contenders * cycles` exactly.
pub proof fn lemma_contest_counts_every_cycle(
    value: int,
    contenders: nat,
    schedule: Seq<int>,
    cycles: nat,
)
    requires
        forall|i: int|
            0 <= i < contenders ==> Contest::start(value, contenders).run(schedule).done[i]
                == cycles,
    ensures
        Contest::start(value, contenders).run(schedule).lock.value == value + contenders * cycles,
{
    lemma_contest(value, contenders, schedule);
    lemma_sum_uniform(Contest::start(value, contenders).run(schedule).done, cycles);
}

} // verus!
