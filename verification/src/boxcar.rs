//! Bookkeeping of boxcar (moving-average) decimation: every `factor` input
//! samples are summed into one output sample. The sums themselves are
//! floating-point work done by the caller; this counter decides which input
//! sample closes a group, and how much of a block's input can be taken when
//! the output has room for only so many samples. The count is carried across
//! blocks, so chunk boundaries do not matter.

use vstd::prelude::*;
use vstd::arithmetic::div_mod::lemma_fundamental_div_mod_converse;
use vstd::arithmetic::mul::lemma_mul_inequality;

verus! {

/// Position inside the current group of a boxcar decimator.
pub struct BoxcarCounter {
    factor: usize,
    count: usize,
}

/// How much of one block a decimator takes and gives.
#[derive(Debug, Clone, Copy, PartialEq, Eq, Structural)]
pub struct BoxcarPlan {
    /// Input samples taken from the block.
    pub consumed: usize,
    /// Output samples completed by them.
    pub produced: usize,
}

/// Input samples a decimator at position `count` of groups of `factor` takes
/// from `in_len` available ones when the output has room for `out_room`:
/// all of them, unless that would complete more than `out_room` groups; then
/// it stops just before the sample that would complete group `out_room + 1`.
pub open spec fn planned_consumed(count: int, factor: int, in_len: int, out_room: int) -> int {
    let limit = (out_room + 1) * factor - 1 - count;
    if in_len <= limit {
        in_len
    } else {
        limit
    }
}

impl BoxcarCounter {
    #[verifier::type_invariant]
    spec fn valid(self) -> bool {
        &&& self.factor >= 1
        &&& self.count < self.factor
    }

    /// The decimation factor.
    pub closed spec fn spec_factor(self) -> nat {
        self.factor as nat
    }

    /// Samples already summed into the open group.
    pub closed spec fn spec_count(self) -> nat {
        self.count as nat
    }

    /// A counter for groups of `factor` samples, at the start of a group.
    pub fn new(factor: usize) -> (r: Self)
        requires
            factor >= 1,
        ensures
            r.spec_factor() == factor,
            r.spec_count() == 0,
    {
        BoxcarCounter { factor, count: 0 }
    }

    /// The decimation factor.
    pub fn factor(&self) -> (r: usize)
        ensures
            r == self.spec_factor(),
            r >= 1,
    {
        proof {
            use_type_invariant(self);
        }
        self.factor
    }

    /// Samples already summed into the open group.
    pub fn count(&self) -> (r: usize)
        ensures
            r == self.spec_count(),
            r < self.spec_factor(),
    {
        proof {
            use_type_invariant(self);
        }
        self.count
    }

    /// Counts one more input sample; `true` when it closes a group, which the
    /// caller then emits (sum divided by the factor) and clears.
    pub fn advance(&mut self) -> (closed: bool)
        ensures
            final(self).spec_factor() == old(self).spec_factor(),
            closed == (old(self).spec_count() + 1 == old(self).spec_factor()),
            final(self).spec_count() == if closed { 0 } else { old(self).spec_count() + 1 },
    {
        proof {
            use_type_invariant(&*self);
        }
        let next = self.count + 1;
        if next == self.factor {
            self.count = 0;
            true
        } else {
            self.count = next;
            false
        }
    }

    /// Whether one more input sample may be taken when `produced` samples of
    /// a block's output room of `out_room` are already filled: not when it
    /// would close a group that has no room left.
    pub fn admits(&self, produced: usize, out_room: usize) -> (r: bool)
        ensures
            r == !(self.spec_count() + 1 == self.spec_factor() && produced >= out_room),
    {
        proof {
            use_type_invariant(self);
        }
        !(self.count == self.factor - 1 && produced >= out_room)
    }

    /// What one block of `in_len` input samples with room for `out_room`
    /// output samples comes to, taking samples while `admits` allows. The
    /// counter itself is not moved: the caller advances it once per taken sample.
    pub fn plan(&self, in_len: usize, out_room: usize) -> (p: BoxcarPlan)
        ensures
            p.consumed == planned_consumed(
                self.spec_count() as int,
                self.spec_factor() as int,
                in_len as int,
                out_room as int,
            ),
            p.produced == (self.spec_count() + p.consumed) as int / self.spec_factor() as int,
            p.consumed <= in_len,
            p.produced <= out_room,
    {
        proof {
            use_type_invariant(self);
        }
        let f = self.factor;
        let c0 = self.count;
        let mut count = c0;
        let mut consumed: usize = 0;
        let mut produced: usize = 0;
        while consumed < in_len
            invariant
                f >= 1,
                c0 < f,
                count < f,
                consumed <= in_len,
                produced <= out_room,
                c0 + consumed == produced * f + count,
            ensures
                c0 + consumed == produced * f + count,
                count < f,
                produced <= out_room,
                consumed == in_len || (count == f - 1 && produced == out_room),
                consumed <= in_len,
            decreases in_len - consumed,
        {
            if count == f - 1 && produced >= out_room {
                break;
            }
            consumed = consumed + 1;
            if count + 1 == f {
                count = 0;
                assert(produced < out_room);
                produced = produced + 1;
                assert(c0 + consumed == produced * f + count) by (nonlinear_arith)
                    requires
                        c0 + consumed - 1 == (produced - 1) * f + (f - 1),
                        count == 0,
                ;
            } else {
                count = count + 1;
            }
        }
        proof {
            lemma_fundamental_div_mod_converse(
                (c0 + consumed) as int,
                f as int,
                produced as int,
                count as int,
            );
            lemma_mul_inequality(produced as int, out_room as int, f as int);
            let limit = (out_room + 1) * f - 1 - c0;
            assert((out_room + 1) * f == out_room * f + f) by (nonlinear_arith);
            if consumed < in_len {
                assert(consumed == limit);
            } else {
                assert(c0 + consumed <= out_room * f + f - 1);
            }
        }
        BoxcarPlan { consumed, produced }
    }
}

/// Position and number of closed groups after `k` calls of `advance` from
/// position `count` in groups of `factor`.
pub open spec fn run_advances(count: nat, factor: nat, k: nat) -> (nat, nat)
    decreases k,
{
    if k == 0 {
        (count, 0)
    } else {
        let (c, n) = run_advances(count, factor, (k - 1) as nat);
        if c + 1 == factor {
            (0, n + 1)
        } else {
            (c + 1, n)
        }
    }
}

/// Advancing once per input sample closes one group per `factor` samples,
/// counting the samples already in the open group: after `k` samples the
/// position is `(count + k) % factor` and `(count + k) / factor` groups have
/// closed. With `k` the planned consumption this is the planned production,
/// so a block never writes past its output room.
pub proof fn law_advances_close_groups(count: nat, factor: nat, k: nat)
    requires
        factor >= 1,
        count < factor,
    ensures
        run_advances(count, factor, k).0 == (count + k) % factor,
        run_advances(count, factor, k).1 == (count + k) / factor,
    decreases k,
{
    if k == 0 {
        lemma_fundamental_div_mod_converse(count as int, factor as int, 0, count as int);
    } else {
        law_advances_close_groups(count, factor, (k - 1) as nat);
        let t = count + k - 1;
        let q = t / (factor as int);
        let r = t % (factor as int);
        assert(t == q * factor + r && 0 <= r < factor) by {
            vstd::arithmetic::div_mod::lemma_fundamental_div_mod(t, factor as int);
        }
        if r + 1 == factor {
            assert(t + 1 == (q + 1) * factor + 0) by (nonlinear_arith)
                requires
                    t == q * factor + r,
                    r + 1 == factor,
            ;
            lemma_fundamental_div_mod_converse(t + 1, factor as int, q + 1, 0);
        } else {
            lemma_fundamental_div_mod_converse(t + 1, factor as int, q, r + 1);
        }
    }
}

/// Chunk boundaries do not matter: feeding `a` samples and then `b` more
/// leaves the counter where feeding `a + b` at once does, and closes as many
/// groups in total.
pub proof fn law_boxcar_chunk_boundaries(count: nat, factor: nat, a: nat, b: nat)
    ensures
        run_advances(run_advances(count, factor, a).0, factor, b).0 == run_advances(
            count,
            factor,
            a + b,
        ).0,
        run_advances(count, factor, a).1 + run_advances(run_advances(count, factor, a).0, factor, b).1
            == run_advances(count, factor, a + b).1,
    decreases b,
{
    if b > 0 {
        law_boxcar_chunk_boundaries(count, factor, a, (b - 1) as nat);
        assert((a + b - 1) as nat == a + (b - 1) as nat);
    }
}

} // verus!
