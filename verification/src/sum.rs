use vstd::prelude::*;

verus! {

/// The arithmetic sum of a sequence of `i32` values, as an unbounded
/// integer.
pub open spec fn spec_sum(s: Seq<i32>) -> int
    decreases s.len(),
{
    if s.len() == 0 {
        0
    } else {
        spec_sum(s.drop_last()) + s.last()
    }
}

/// The sum of the empty sequence is zero.
pub proof fn lemma_sum_empty()
    ensures
        spec_sum(Seq::<i32>::empty()) == 0,
{
}

/// Appending one element adds its value to the sum.
proof fn lemma_sum_push(s: Seq<i32>, x: i32)
    ensures
        spec_sum(s.push(x)) == spec_sum(s) + x,
{
    assert(s.push(x).drop_last() =~= s);
}

/// Splitting off the first element subtracts its value from the sum.
proof fn lemma_sum_cons(s: Seq<i32>)
    requires
        s.len() > 0,
    ensures
        spec_sum(s) == s[0] + spec_sum(s.subrange(1, s.len() as int)),
    decreases s.len(),
{
    let rest = s.subrange(1, s.len() as int);
    if s.len() == 1 {
        assert(rest =~= Seq::<i32>::empty());
        assert(s.drop_last() =~= Seq::<i32>::empty());
    } else {
        let t = s.drop_last();
        lemma_sum_cons(t);
        assert(t.subrange(1, t.len() as int) =~= rest.drop_last());
        assert(rest.last() == s.last());
        assert(t[0] == s[0]);
    }
}

/// Reversing a sequence does not change its sum.
pub proof fn lemma_sum_reverse(s: Seq<i32>)
    ensures
        spec_sum(s.reverse()) == spec_sum(s),
    decreases s.len(),
{
    if s.len() == 0 {
        assert(s.reverse() =~= Seq::<i32>::empty());
    } else {
        let rest = s.subrange(1, s.len() as int);
        lemma_sum_reverse(rest);
        lemma_sum_cons(s);
        assert(s.reverse().drop_last() =~= rest.reverse());
        assert(s.reverse().last() == s[0]);
    }
}

/// Sums a slice of integers left to right with a zero-initialized
/// accumulator. Every prefix sum must stay within `i32` range: those are
/// exactly the inputs on which a running `i32` accumulator never
/// overflows.
pub fn sum(numbers: &[i32]) -> (r: i32)
    requires
        forall|k: int|
            0 <= k <= numbers@.len() ==> i32::MIN <= #[trigger] spec_sum(numbers@.subrange(0, k))
                <= i32::MAX,
    ensures
        r == spec_sum(numbers@),
{
    let mut acc: i32 = 0;
    let mut idx: usize = 0;
    proof {
        assert(numbers@.subrange(0, 0) =~= Seq::<i32>::empty());
    }
    while idx < numbers.len()
        invariant
            idx <= numbers@.len(),
            acc == spec_sum(numbers@.subrange(0, idx as int)),
            forall|k: int|
                0 <= k <= numbers@.len() ==> i32::MIN <= #[trigger] spec_sum(
                    numbers@.subrange(0, k),
                ) <= i32::MAX,
        decreases numbers@.len() - idx,
    {
        proof {
            assert(numbers@.subrange(0, idx + 1) =~= numbers@.subrange(0, idx as int).push(
                numbers@[idx as int],
            ));
            lemma_sum_push(numbers@.subrange(0, idx as int), numbers@[idx as int]);
        }
        acc = acc + numbers[idx];
        idx = idx + 1;
    }
    proof {
        assert(numbers@.subrange(0, numbers@.len() as int) =~= numbers@);
    }
    acc
}

} // verus!
