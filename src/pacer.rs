use vstd::prelude::*;

verus! {

/// Fixed-timestep accumulator: wall-clock time is fed in arbitrary chunks and
/// handed back as whole simulation steps of `step_ns` nanoseconds; the remainder
/// carries over, so no time is lost or counted twice.
#[derive(Clone, Copy, Debug, PartialEq, Eq, Structural)]
pub struct FixedTimestep {
    pub step_ns: u64,
    pub accumulator_ns: u64,
}

/// Steps emitted when the chunks `dts` are fed, in order, starting from a
/// remainder `acc`.
pub open spec fn steps_over(acc: nat, dts: Seq<nat>, step: nat) -> nat
    recommends
        step > 0,
    decreases dts.len(),
{
    if dts.len() == 0 || step == 0 {
        0
    } else {
        (acc + dts[0]) / step + steps_over((acc + dts[0]) % step, dts.drop_first(), step)
    }
}

/// Remainder left after feeding the chunks `dts`, in order, starting from `acc`.
pub open spec fn remainder_after(acc: nat, dts: Seq<nat>, step: nat) -> nat
    recommends
        step > 0,
    decreases dts.len(),
{
    if dts.len() == 0 || step == 0 {
        acc
    } else {
        remainder_after((acc + dts[0]) % step, dts.drop_first(), step)
    }
}

pub open spec fn total(dts: Seq<nat>) -> nat
    decreases dts.len(),
{
    if dts.len() == 0 {
        0
    } else {
        dts[0] + total(dts.drop_first())
    }
}

impl FixedTimestep {
    pub open spec fn valid(self) -> bool {
        self.step_ns > 0 && self.accumulator_ns < self.step_ns
    }

    /// An empty accumulator for steps of `step_ns` nanoseconds; none for an
    /// empty step.
    pub fn new(step_ns: u64) -> (r: Option<FixedTimestep>)
        ensures
            r is None <==> step_ns == 0,
            r matches Some(p) ==> p.valid() && p == (FixedTimestep { step_ns, accumulator_ns: 0 }),
    {
        if step_ns == 0 {
            None
        } else {
            Some(FixedTimestep { step_ns, accumulator_ns: 0 })
        }
    }

    /// Adds `dt_ns` of elapsed time and returns how many whole steps are now due.
    pub fn due_steps(&mut self, dt_ns: u64) -> (count: u64)
        requires
            old(self).valid(),
        ensures
            final(self).valid(),
            final(self).step_ns == old(self).step_ns,
            count == (old(self).accumulator_ns + dt_ns) / (old(self).step_ns as int),
            final(self).accumulator_ns == (old(self).accumulator_ns + dt_ns) % (old(self).step_ns as int),
    {
        let step = self.step_ns as u128;
        let sum = self.accumulator_ns as u128 + dt_ns as u128;
        let q = sum / step;
        let r = sum % step;
        proof {
            let s = sum as int;
            let st = step as int;
            assert(q <= u64::MAX) by (nonlinear_arith)
                requires
                    s == self.accumulator_ns + dt_ns,
                    self.accumulator_ns < st,
                    st >= 1,
                    q == s / st,
                    dt_ns <= u64::MAX,
            {
                if st == 1 {
                    assert(s == dt_ns);
                } else {
                    assert(s / st <= s / 2) by {
                        vstd::arithmetic::div_mod::lemma_div_is_ordered_by_denominator(s, 2, st);
                    }
                }
            }
        }
        self.accumulator_ns = r as u64;
        q as u64
    }
}

proof fn lemma_feed(acc: nat, dts: Seq<nat>, step: nat)
    requires
        step > 0,
    ensures
        step * steps_over(acc, dts, step) + remainder_after(acc, dts, step) == acc + total(dts),
        acc < step ==> remainder_after(acc, dts, step) < step,
    decreases dts.len(),
{
    if dts.len() > 0 {
        let s = acc + dts[0];
        vstd::arithmetic::div_mod::lemma_fundamental_div_mod(s as int, step as int);
        vstd::arithmetic::div_mod::lemma_mod_bound(s as int, step as int);
        lemma_feed(s % step, dts.drop_first(), step);
        let rest = steps_over(s % step, dts.drop_first(), step);
        assert(steps_over(acc, dts, step) == s / step + rest);
        assert(remainder_after(acc, dts, step) == remainder_after(s % step, dts.drop_first(), step));
        assert(total(dts) == dts[0] + total(dts.drop_first()));
        vstd::arithmetic::mul::lemma_mul_is_distributive_add(step as int, (s / step) as int, rest as int);
    } else {
        assert(step * 0 == 0);
    }
}

/// Feeding chunks of time that add up to exactly `k` steps, from an empty
/// accumulator, emits exactly `k` steps in all and leaves nothing over, however
/// the time is split into chunks.
pub proof fn lemma_chunking_is_exact(dts: Seq<nat>, step: nat, k: nat)
    requires
        step > 0,
        total(dts) == k * step,
    ensures
        steps_over(0, dts, step) == k,
        remainder_after(0, dts, step) == 0,
{
    lemma_feed(0, dts, step);
    let q = steps_over(0, dts, step) as int;
    let r = remainder_after(0, dts, step) as int;
    assert(q == k && r == 0) by (nonlinear_arith)
        requires
            step * q + r == k * step,
            0 <= r < step,
            q >= 0,
    {
        if q < k {
            vstd::arithmetic::mul::lemma_mul_inequality(q + 1int, k as int, step as int);
            vstd::arithmetic::mul::lemma_mul_is_commutative(step as int, q + 1);
            vstd::arithmetic::mul::lemma_mul_is_commutative(step as int, q);
        } else if q > k {
            vstd::arithmetic::mul::lemma_mul_inequality(k + 1int, q, step as int);
            vstd::arithmetic::mul::lemma_mul_is_commutative(step as int, q);
        }
    }
}

} // verus!
