use vstd::prelude::*;

verus! {

/// The Fibonacci sequence, seeded by 0 and 1, with each later term the
/// sum of the two terms before it. Negative indices map to 0.
pub open spec fn spec_fib(n: int) -> int
    decreases n,
{
    if n <= 0 {
        0
    } else if n == 1 {
        1
    } else {
        spec_fib(n - 1) + spec_fib(n - 2)
    }
}

/// The seed values of the Fibonacci sequence.
pub proof fn lemma_fib_base()
    ensures
        spec_fib(0) == 0,
        spec_fib(1) == 1,
{
}

/// Every term past the first two is the sum of the two terms before it.
pub proof fn lemma_fib_recurrence(n: int)
    requires
        2 <= n,
    ensures
        spec_fib(n) == spec_fib(n - 1) + spec_fib(n - 2),
{
}

/// No Fibonacci number is negative.
proof fn lemma_fib_nonneg(n: int)
    ensures
        0 <= spec_fib(n),
    decreases n,
{
    if n >= 2 {
        lemma_fib_nonneg(n - 1);
        lemma_fib_nonneg(n - 2);
    }
}

/// The Fibonacci sequence never decreases.
proof fn lemma_fib_monotonic(m: int, n: int)
    requires
        m <= n,
    ensures
        spec_fib(m) <= spec_fib(n),
    decreases n - m,
{
    if m < n && n >= 2 {
        lemma_fib_monotonic(m, n - 1);
        lemma_fib_nonneg(n - 2);
    }
}

/// The 46th Fibonacci number, reached by walking the recurrence up from
/// the seeds.
proof fn lemma_fib_value_46()
    ensures
        spec_fib(46) == 1_836_311_903,
{
    assert(spec_fib(0) == 0);
    assert(spec_fib(1) == 1);
    assert(spec_fib(2) == 1);
    assert(spec_fib(3) == 2);
    assert(spec_fib(4) == 3);
    assert(spec_fib(5) == 5);
    assert(spec_fib(6) == 8);
    assert(spec_fib(7) == 13);
    assert(spec_fib(8) == 21);
    assert(spec_fib(9) == 34);
    assert(spec_fib(10) == 55);
    assert(spec_fib(11) == 89);
    assert(spec_fib(12) == 144);
    assert(spec_fib(13) == 233);
    assert(spec_fib(14) == 377);
    assert(spec_fib(15) == 610);
    assert(spec_fib(16) == 987);
    assert(spec_fib(17) == 1597);
    assert(spec_fib(18) == 2584);
    assert(spec_fib(19) == 4181);
    assert(spec_fib(20) == 6765);
    assert(spec_fib(21) == 10946);
    assert(spec_fib(22) == 17711);
    assert(spec_fib(23) == 28657);
    assert(spec_fib(24) == 46368);
    assert(spec_fib(25) == 75025);
    assert(spec_fib(26) == 121393);
    assert(spec_fib(27) == 196418);
    assert(spec_fib(28) == 317811);
    assert(spec_fib(29) == 514229);
    assert(spec_fib(30) == 832040);
    assert(spec_fib(31) == 1346269);
    assert(spec_fib(32) == 2178309);
    assert(spec_fib(33) == 3524578);
    assert(spec_fib(34) == 5702887);
    assert(spec_fib(35) == 9227465);
    assert(spec_fib(36) == 14930352);
    assert(spec_fib(37) == 24157817);
    assert(spec_fib(38) == 39088169);
    assert(spec_fib(39) == 63245986);
    assert(spec_fib(40) == 102334155);
    assert(spec_fib(41) == 165580141);
    assert(spec_fib(42) == 267914296);
    assert(spec_fib(43) == 433494437);
    assert(spec_fib(44) == 701408733);
    assert(spec_fib(45) == 1134903170);
    assert(spec_fib(46) == 1836311903);
}

/// Every Fibonacci number up to the 46th fits in an `i32`.
proof fn lemma_fib_fits_i32(n: int)
    requires
        n <= 46,
    ensures
        spec_fib(n) <= 1_836_311_903,
{
    lemma_fib_value_46();
    lemma_fib_monotonic(n, 46);
}

/// The nth Fibonacci number, computed iteratively.
///
/// A negative argument comes back unchanged, as the recursive phrasing
/// `if n <= 1 { n }` gives it; the 46th term is the largest one that
/// fits in `i32`, so larger arguments are excluded.
pub fn fib(n: i32) -> (r: i32)
    requires
        n <= 46,
    ensures
        0 <= n ==> r == spec_fib(n as int),
        n < 0 ==> r == n,
{
    if n <= 1 {
        return n;
    }
    let mut a: i32 = 0;
    let mut b: i32 = 1;
    let mut i: i32 = 1;
    while i < n
        invariant
            1 <= i <= n <= 46,
            a == spec_fib(i - 1),
            b == spec_fib(i as int),
        decreases n - i,
    {
        proof {
            lemma_fib_nonneg(i - 1);
            lemma_fib_nonneg(i as int);
            lemma_fib_fits_i32(i + 1);
            assert(spec_fib(i + 1) == spec_fib(i as int) + spec_fib(i - 1));
        }
        let next: i32 = a + b;
        a = b;
        b = next;
        i = i + 1;
    }
    b
}

} // verus!
