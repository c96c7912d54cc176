//! The decision core of the escape-time loop.
//!
//! The loop the renderer runs is `while n < max_depth && |z| <= 2.0 { z <-
//! z*z + c; n <- n + 1 }`. The orbit `z` is floating point and lives outside
//! this library; what the library owns is the loop's control: an
//! [`EscapeCounter`] receives the outcome of each radius check (`|z| <= 2.0`,
//! true or false) and decides whether the caller should iterate once more.
//! When the counter is done, the iteration count and the escaped flag are
//! pinned down, by the contracts below, as a function of the ceiling and the
//! sequence of checks alone.

use vstd::prelude::*;

verus! {

/// Whether every radius check in a run came back true.
pub open spec fn all_clear(checks: Seq<bool>) -> bool {
    forall|i: int| 0 <= i < checks.len() ==> checks[i]
}

/// Drives one escape-time loop: counts iterations against a ceiling and
/// records whether a radius check failed.
pub struct EscapeCounter {
    max_depth: u64,
    n: u64,
    done: bool,
    escaped: bool,
    history: Ghost<Seq<bool>>,
}

impl EscapeCounter {
    /// The iteration ceiling the counter was created with.
    pub closed spec fn spec_depth(&self) -> u64 {
        self.max_depth
    }

    /// Iterations performed so far.
    pub closed spec fn spec_n(&self) -> u64 {
        self.n
    }

    /// Whether the loop has ended.
    pub closed spec fn spec_done(&self) -> bool {
        self.done
    }

    /// Whether the loop ended because a radius check failed.
    pub closed spec fn spec_escaped(&self) -> bool {
        self.escaped
    }

    /// Every radius check this counter has been handed, in order.
    pub closed spec fn checks(&self) -> Seq<bool> {
        self.history@
    }

    /// The counter's invariant. It ties the state to the checks seen so far:
    /// while running, every check so far was clear and one iteration was
    /// counted per check; an escaped run ends on its single failed check,
    /// with the count still at the checks that were clear; a run that ends
    /// unescaped consumed the whole budget with every check clear.
    pub open spec fn wf(&self) -> bool {
        &&& 1 <= self.spec_depth()
        &&& self.spec_n() <= self.spec_depth()
        &&& if !self.spec_done() {
            &&& !self.spec_escaped()
            &&& self.spec_n() < self.spec_depth()
            &&& self.checks().len() == self.spec_n()
            &&& all_clear(self.checks())
        } else if self.spec_escaped() {
            &&& self.spec_n() < self.spec_depth()
            &&& self.checks().len() == self.spec_n() + 1
            &&& all_clear(self.checks().take(self.spec_n() as int))
            &&& !self.checks().last()
        } else {
            &&& self.spec_n() == self.spec_depth()
            &&& self.checks().len() == self.spec_depth()
            &&& all_clear(self.checks())
        }
    }

    /// A fresh counter for one loop run under the given ceiling.
    pub fn new(max_depth: u64) -> (t: EscapeCounter)
        requires
            1 <= max_depth,
        ensures
            t.wf(),
            t.spec_depth() == max_depth,
            t.spec_n() == 0,
            !t.spec_done(),
            !t.spec_escaped(),
            t.checks() == Seq::<bool>::empty(),
    {
        EscapeCounter {
            max_depth,
            n: 0,
            done: false,
            escaped: false,
            history: Ghost(Seq::empty()),
        }
    }

    /// Consumes the outcome of the radius check for the current orbit point
    /// and returns whether the caller should step the orbit once more.
    ///
    /// A failed check ends the run as escaped without counting another
    /// iteration; a clear check counts one iteration and ends the run,
    /// unescaped, exactly when the ceiling is reached.
    pub fn advance(&mut self, norm_le_two: bool) -> (cont: bool)
        requires
            old(self).wf(),
            !old(self).spec_done(),
        ensures
            final(self).wf(),
            final(self).spec_depth() == old(self).spec_depth(),
            final(self).checks() == old(self).checks().push(norm_le_two),
            cont == !final(self).spec_done(),
            !norm_le_two ==> final(self).spec_done() && final(self).spec_escaped()
                && final(self).spec_n() == old(self).spec_n(),
            norm_le_two ==> !final(self).spec_escaped()
                && final(self).spec_n() == old(self).spec_n() + 1
                && (final(self).spec_done() <==> final(self).spec_n() == final(self).spec_depth()),
    {
        self.history = Ghost(self.history@.push(norm_le_two));
        if !norm_le_two {
            self.escaped = true;
            self.done = true;
            proof {
                assert(self.checks().take(self.n as int) =~= self.checks().drop_last());
            }
            false
        } else {
            self.n = self.n + 1;
            if self.n == self.max_depth {
                self.done = true;
            }
            proof {
                assert forall|i: int| 0 <= i < self.checks().len() implies self.checks()[i] by {
                    if i < self.checks().len() - 1 {
                        assert(old(self).checks()[i]);
                    }
                }
            }
            !self.done
        }
    }

    /// The iteration count, the integer part of the escape measurement.
    pub fn iterations(&self) -> (n: u64)
        ensures
            n == self.spec_n(),
    {
        self.n
    }

    /// Whether the run has ended.
    pub fn is_done(&self) -> (d: bool)
        ensures
            d == self.spec_done(),
    {
        self.done
    }

    /// Whether the run ended on a failed radius check.
    pub fn has_escaped(&self) -> (e: bool)
        ensures
            e == self.spec_escaped(),
    {
        self.escaped
    }

    /// The iteration ceiling.
    pub fn depth(&self) -> (d: u64)
        ensures
            d == self.spec_depth(),
    {
        self.max_depth
    }
}

/// The escape-time estimator is deterministic: two finished runs under the
/// same ceiling that saw the same radius checks agree on the iteration count
/// and on whether the point escaped.
pub proof fn lemma_outcome_determined(a: &EscapeCounter, b: &EscapeCounter)
    requires
        a.wf(),
        b.wf(),
        a.spec_done(),
        b.spec_done(),
        a.spec_depth() == b.spec_depth(),
        a.checks() == b.checks(),
    ensures
        a.spec_n() == b.spec_n(),
        a.spec_escaped() == b.spec_escaped(),
{
    if a.spec_escaped() && !b.spec_escaped() {
        assert(a.checks()[a.checks().len() - 1] == false);
        assert(all_clear(b.checks()));
        assert(b.checks()[b.checks().len() - 1]);
    }
    if !a.spec_escaped() && b.spec_escaped() {
        assert(b.checks()[b.checks().len() - 1] == false);
        assert(a.checks()[a.checks().len() - 1]);
    }
}

/// A point whose orbit never leaves the radius-two disc — the origin is one —
/// runs the whole iteration budget and is reported as not escaped.
pub proof fn lemma_never_escapes(t: &EscapeCounter)
    requires
        t.wf(),
        t.spec_done(),
        all_clear(t.checks()),
    ensures
        t.spec_n() == t.spec_depth(),
        !t.spec_escaped(),
{
    if t.spec_escaped() {
        assert(t.checks()[t.checks().len() - 1]);
    }
}

/// A run with a failed radius check ends as escaped, at the first failure:
/// the iteration count is the number of clear checks before it, strictly
/// under the ceiling.
pub proof fn lemma_escapes_at_first_failure(t: &EscapeCounter)
    requires
        t.wf(),
        t.spec_done(),
        !all_clear(t.checks()),
    ensures
        t.spec_escaped(),
        t.spec_n() < t.spec_depth(),
        t.spec_n() == t.checks().len() - 1,
        !t.checks()[t.spec_n() as int],
        all_clear(t.checks().take(t.spec_n() as int)),
{
    if !t.spec_escaped() {
        assert(all_clear(t.checks()));
    }
}

} // verus!
