use vstd::prelude::*;

verus! {

/// Minimum, maximum, sum and count of a non-empty sequence of values.
#[derive(Clone, Copy, Debug, PartialEq, Eq, Structural)]
pub struct Stats {
    pub min: u64,
    pub max: u64,
    pub sum: u128,
    pub count: usize,
}

pub open spec fn seq_min(s: Seq<u64>) -> u64
    recommends
        s.len() > 0,
    decreases s.len(),
{
    if s.len() <= 1 {
        s[0]
    } else {
        let m = seq_min(s.drop_last());
        if s.last() < m { s.last() } else { m }
    }
}

pub open spec fn seq_max(s: Seq<u64>) -> u64
    recommends
        s.len() > 0,
    decreases s.len(),
{
    if s.len() <= 1 {
        s[0]
    } else {
        let m = seq_max(s.drop_last());
        if s.last() > m { s.last() } else { m }
    }
}

pub open spec fn seq_sum(s: Seq<u64>) -> nat
    decreases s.len(),
{
    if s.len() == 0 { 0 } else { seq_sum(s.drop_last()) + s.last() as nat }
}

/// Summary of `numbers`; `None` when there is nothing to summarise.
pub fn compute_min_max_sum(numbers: &[u64]) -> (r: Option<Stats>)
    ensures
        r is None <==> numbers@.len() == 0,
        r matches Some(st) ==> st.min == seq_min(numbers@) && st.max == seq_max(numbers@) && st.sum == seq_sum(
            numbers@,
        ) && st.count == numbers@.len(),
{
    let n = numbers.len();
    if n == 0 {
        return None;
    }
    let mut min = numbers[0];
    let mut max = numbers[0];
    let mut sum: u128 = numbers[0] as u128;
    let mut i: usize = 1;
    proof {
        assert(numbers@.take(1).drop_last() =~= Seq::<u64>::empty());
        assert(seq_sum(numbers@.take(1).drop_last()) == 0);
        assert(numbers@.take(1).last() == numbers@[0]);
    }
    while i < n
        invariant
            n == numbers@.len(),
            1 <= i <= n,
            min == seq_min(numbers@.take(i as int)),
            max == seq_max(numbers@.take(i as int)),
            sum == seq_sum(numbers@.take(i as int)),
            sum <= i * (u64::MAX as int),
        decreases n - i,
    {
        let x = numbers[i];
        proof {
            assert(numbers@.take(i + 1).drop_last() =~= numbers@.take(i as int));
            assert(sum + x <= (i + 1) * (u64::MAX as int)) by (nonlinear_arith)
                requires sum <= i * (u64::MAX as int), x <= u64::MAX;
            assert((i + 1) * (u64::MAX as int) <= usize::MAX * (u64::MAX as int)) by (nonlinear_arith)
                requires i + 1 <= usize::MAX;
            assert(usize::MAX * (u64::MAX as int) <= u64::MAX * (u64::MAX as int)) by (nonlinear_arith)
                requires usize::MAX <= u64::MAX;
        }
        if x < min {
            min = x;
        }
        if x > max {
            max = x;
        }
        sum = sum + x as u128;
        i = i + 1;
    }
    proof {
        assert(numbers@.take(n as int) =~= numbers@);
    }
    Some(Stats { min, max, sum, count: n })
}

} // verus!
