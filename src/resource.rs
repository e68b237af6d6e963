//! Priority-ceiling resources.
//!
//! Code runs at a [`Threshold`]: interrupts of a priority at or below it are
//! masked (held pending), higher ones preempt. A [`Resource`] declares a
//! ceiling, the highest priority of any handler that touches it; claiming it
//! runs a closure at a threshold raised to that ceiling, handed to the
//! closure alone, so that the claimer's own threshold is in force again when
//! the closure returns and claims nest in stack order.
use vstd::prelude::*;

verus! {

/// Threshold after claiming a resource with ceiling `ceiling` at `level`.
pub open spec fn raised(level: u8, ceiling: u8) -> u8 {
    if ceiling > level {
        ceiling
    } else {
        level
    }
}

/// The current priority floor of the running code (a model of the
/// interrupt-priority mask register).
pub struct Threshold {
    level: u8,
}

impl Threshold {
    /// The priority floor.
    pub closed spec fn level(&self) -> u8 {
        self.level
    }

    /// The threshold of code running at `priority`, with no resource claimed.
    pub fn new(priority: u8) -> (r: Threshold)
        ensures
            r.level() == priority,
    {
        Threshold { level: priority }
    }

    /// The priority floor.
    pub fn value(&self) -> (r: u8)
        ensures
            r == self.level(),
    {
        self.level
    }

    /// Whether an interrupt of `priority` raised now preempts the running code;
    /// otherwise it stays pending until the threshold drops below it.
    pub fn preempted_by(&self, priority: u8) -> (r: bool)
        ensures
            r == (priority > self.level()),
    {
        priority > self.level
    }
}

/// Data shared between priority levels, with its ceiling.
pub struct Resource<T> {
    data: T,
    ceiling: u8,
}

impl<T> Resource<T> {
    /// The data.
    pub closed spec fn value(&self) -> T {
        self.data
    }

    /// The ceiling.
    pub closed spec fn spec_ceiling(&self) -> u8 {
        self.ceiling
    }

    /// A resource holding `data`, touched by handlers of priority up to `ceiling`.
    pub fn new(data: T, ceiling: u8) -> (r: Resource<T>)
        ensures
            r.value() == data,
            r.spec_ceiling() == ceiling,
    {
        Resource { data, ceiling }
    }

    /// The ceiling.
    pub fn ceiling(&self) -> (r: u8)
        ensures
            r == self.spec_ceiling(),
    {
        self.ceiling
    }

    /// Runs `f` on the data at the threshold raised to the ceiling (or left
    /// where it is, if already higher) and returns what `f` returned. The
    /// raised threshold exists only for the length of `f`: the caller's
    /// threshold is untouched, so it is back in force when `f` returns.
    pub fn claim<R, F: FnOnce(&T, &Threshold) -> R>(&self, t: &Threshold, f: F) -> (r: R)
        requires
            forall|d: &T, th: &Threshold|
                th.level() == raised(t.level(), self.spec_ceiling()) ==> #[trigger] f.requires((d, th)),
        ensures
            exists|th: Threshold|
                th.level() == raised(t.level(), self.spec_ceiling()) && #[trigger] f.ensures(
                    (&self.value(), &th),
                    r,
                ),
    {
        let level = if self.ceiling > t.level {
            self.ceiling
        } else {
            t.level
        };
        let inner = Threshold { level };
        let r = f(&self.data, &inner);
        proof {
            assert(inner.level() == raised(t.level(), self.spec_ceiling()));
            assert(f.ensures((&self.value(), &inner), r));
        }
        r
    }

    /// Like [`Resource::claim`], with write access to the data: returns what
    /// `f` returned and keeps what `f` left in the data.
    pub fn claim_mut<R, F: FnOnce(&mut T, &Threshold) -> R>(&mut self, t: &Threshold, f: F) -> (r: R)
        requires
            forall|d: &mut T, th: &Threshold|
                th.level() == raised(t.level(), old(self).spec_ceiling()) ==> #[trigger] f.requires(
                    (d, th),
                ),
        ensures
            final(self).spec_ceiling() == old(self).spec_ceiling(),
            exists|d: &mut T, th: Threshold|
                th.level() == raised(t.level(), old(self).spec_ceiling()) && *d == old(self).value()
                    && *final(d) == final(self).value() && #[trigger] f.ensures((d, &th), r),
    {
        let level = if self.ceiling > t.level {
            self.ceiling
        } else {
            t.level
        };
        let inner = Threshold { level };
        let r = f(&mut self.data, &inner);
        proof {
            assert(exists|d: &mut T| #[trigger] f.ensures((d, &inner), r) && *d == old(self).value() && *final(d) == self.value());
        }
        r
    }
}

/// Number of priority levels.
pub const LEVELS: usize = 256;

/// Interrupt requests held back by the threshold: one pending bit per
/// priority level, as the interrupt controller keeps them.
pub struct Pending {
    bits: Vec<bool>,
}

impl Pending {
    /// Whether a request of `priority` is pending.
    pub closed spec fn is_pending(&self, priority: u8) -> bool {
        self.bits@[priority as int]
    }

    /// There is a bit for every level.
    pub closed spec fn wf(&self) -> bool {
        self.bits@.len() == LEVELS
    }

    /// Nothing pending.
    pub fn new() -> (r: Pending)
        ensures
            r.wf(),
            forall|q: u8| !r.is_pending(q),
    {
        let mut bits: Vec<bool> = Vec::new();
        let mut i: usize = 0;
        while i < LEVELS
            invariant
                i <= LEVELS,
                bits@.len() == i,
                forall|j: int| 0 <= j < i ==> !#[trigger] bits@[j],
            decreases LEVELS - i,
        {
            bits.push(false);
            i = i + 1;
        }
        Pending { bits }
    }

    /// An interrupt of `priority` is raised while code runs at `t`: it is
    /// delivered at once (`true`) when it preempts, and otherwise held pending
    /// (`false`).
    pub fn raise(&mut self, t: &Threshold, priority: u8) -> (r: bool)
        requires
            old(self).wf(),
        ensures
            final(self).wf(),
            r == (priority > t.level()),
            r ==> *final(self) == *old(self),
            !r ==> final(self).is_pending(priority),
            forall|q: u8| q != priority ==> final(self).is_pending(q) == old(self).is_pending(q),
    {
        if priority > t.level {
            true
        } else {
            self.bits.set(priority as usize, true);
            false
        }
    }

    /// Delivers the highest pending request that preempts code at `t`, and
    /// clears its bit, so that each held-back request is delivered once; `None`
    /// when no pending request preempts `t`.
    pub fn deliver(&mut self, t: &Threshold) -> (r: Option<u8>)
        requires
            old(self).wf(),
        ensures
            final(self).wf(),
            r is None ==> {
                &&& forall|q: u8| q > t.level() ==> !old(self).is_pending(q)
                &&& forall|q: u8| final(self).is_pending(q) == old(self).is_pending(q)
            },
            r matches Some(p) ==> {
                &&& p > t.level()
                &&& old(self).is_pending(p)
                &&& forall|q: u8| q > p ==> !old(self).is_pending(q)
                &&& !final(self).is_pending(p)
                &&& forall|q: u8| q != p ==> final(self).is_pending(q) == old(self).is_pending(q)
            },
    {
        let level = t.level as usize;
        let mut i: usize = LEVELS;
        while i > level + 1
            invariant
                level == t.level(),
                level < i <= LEVELS,
                self.wf(),
                forall|q: u8| q >= i ==> !self.is_pending(q),
            ensures
                level < i <= LEVELS,
                forall|q: u8| q >= i ==> !self.is_pending(q),
                i == level + 1 || self.bits@[i - 1],
            decreases i,
        {
            if self.bits[i - 1] {
                break;
            }
            i = i - 1;
        }
        if i == level + 1 {
            return None;
        }
        let p = (i - 1) as u8;
        self.bits.set(i - 1, false);
        Some(p)
    }
}

/// A request of priority `q` raised inside a claim, from code at priority `p`
/// below `q`, of a resource whose ceiling `c` is at least `q`, is held back
/// for the length of the claim and preempts once the claimer's threshold is
/// back in force.
pub proof fn lemma_deferred_until_claim_returns(p: u8, c: u8, q: u8)
    requires
        p < q <= c,
    ensures
        !(q > raised(p, c)),
        q > p,
{
}

/// Nested claims: code at priority `p` that claims a resource of ceiling `c1`
/// (with `p <= c1`) and inside it one of higher ceiling `c2` runs the inner
/// closure at threshold `c2`; when the inner claim returns, the outer
/// closure's threshold `c1` is in force again (not `p`), and `p` after the
/// outer claim.
pub proof fn lemma_nested_claims(p: u8, c1: u8, c2: u8)
    requires
        p <= c1 < c2,
    ensures
        raised(p, c1) == c1,
        raised(raised(p, c1), c2) == c2,
{
}

} // verus!
