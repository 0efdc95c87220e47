//! What the benchmark computes.
use vstd::prelude::*;

verus! {

/// The sum of the squares of the numbers below `n`.
pub open spec fn sum_of_squares_spec(n: nat) -> nat
    decreases n,
{
    if n == 0 {
        0
    } else {
        sum_of_squares_spec((n - 1) as nat) + (n - 1) as nat * (n - 1) as nat
    }
}

/// The sum of the squares of the numbers below `n`.
pub fn sum_of_squares(n: u64) -> (sum: u128)
    requires
        n <= 0x1_0000_0000,
    ensures
        sum == sum_of_squares_spec(n as nat),
{
    let mut sum: u128 = 0;
    let mut x: u64 = 0;
    while x < n
        invariant
            x <= n <= 0x1_0000_0000,
            sum == sum_of_squares_spec(x as nat),
            sum <= x * 0xffff_ffff_ffff_ffff,
        decreases n - x,
    {
        assert(x * x <= 0xffff_ffff * 0xffff_ffff) by (nonlinear_arith)
            requires
                x <= 0xffff_ffff,
        ;
        assert((x + 1) * 0xffff_ffff_ffff_ffff == x * 0xffff_ffff_ffff_ffff + 0xffff_ffff_ffff_ffff)
            by (nonlinear_arith);
        assert(x * 0xffff_ffff_ffff_ffff <= 0x1_0000_0000 * 0xffff_ffff_ffff_ffff)
            by (nonlinear_arith)
            requires
                x <= 0x1_0000_0000,
        ;
        sum = sum + (x * x) as u128;
        x = x + 1;
    }
    sum
}

/// The sum of the squares of the numbers below `n` in closed form.
pub proof fn law_sum_of_squares(n: nat)
    ensures
        6 * sum_of_squares_spec(n) == (n - 1) * n * (2 * n - 1),
    decreases n,
{
    if n > 0 {
        let m = (n - 1) as nat;
        law_sum_of_squares(m);
        assert((m - 1) * m * (2 * m - 1) + 6 * (m * m) == m * (m + 1) * (2 * m + 1))
            by (nonlinear_arith);
        assert((n - 1) * n * (2 * n - 1) == m * (m + 1) * (2 * m + 1)) by (nonlinear_arith)
            requires
                n == m + 1,
        ;
    } else {
        assert((n - 1) * n * (2 * n - 1) == 0) by (nonlinear_arith)
            requires
                n == 0,
        ;
    }
}

/// The response to a request for a square.
pub fn sqr(inner: u64) -> (r: u128)
    ensures
        r == inner * inner,
{
    assert(inner * inner <= 0xffff_ffff_ffff_ffff * 0xffff_ffff_ffff_ffff) by (nonlinear_arith)
        requires
            inner <= 0xffff_ffff_ffff_ffff,
    ;
    (inner as u128) * (inner as u128)
}

/// The response to a number that is to be multiplied by `initial`.
pub fn multiply(initial: u64, num: u64) -> (r: u64)
    requires
        initial * num <= u64::MAX,
    ensures
        r == initial * num,
{
    initial * num
}

/// The sum of the doubles of the numbers below `n`.
pub open spec fn sum_of_doubles_spec(n: nat) -> nat
    decreases n,
{
    if n == 0 {
        0
    } else {
        sum_of_doubles_spec((n - 1) as nat) + 2 * (n - 1) as nat
    }
}

/// The sum of the doubles of the numbers below `n` in closed form.
pub proof fn law_sum_of_doubles(n: nat)
    ensures
        sum_of_doubles_spec(n) == n * (n - 1),
    decreases n,
{
    if n > 0 {
        let m = (n - 1) as nat;
        law_sum_of_doubles(m);
        assert(m * (m - 1) + 2 * m == n * (n - 1)) by (nonlinear_arith)
            requires
                n == m + 1,
        ;
    } else {
        assert(n * (n - 1) == 0) by (nonlinear_arith)
            requires
                n == 0,
        ;
    }
}

/// What the responses to a bidirectional stream add up to, if the numbers below `n` are sent.
pub fn sum_of_doubles(n: u64) -> (sum: u64)
    requires
        n <= 0x1_0000_0000,
    ensures
        sum == sum_of_doubles_spec(n as nat),
{
    proof {
        law_sum_of_doubles(n as nat);
        assert(n * (n - 1) <= 0x1_0000_0000 * 0xffff_ffff) by (nonlinear_arith)
            requires
                n <= 0x1_0000_0000,
        ;
        assert(n == 0 ==> n * (n - 1) == 0) by (nonlinear_arith);
    }
    if n == 0 {
        0
    } else {
        n * (n - 1)
    }
}

/// The sum of the responses so far, and their number.
#[derive(Debug, Clone, Copy, PartialEq, Eq, Structural)]
pub struct Tally {
    pub sum: u64,
    pub count: u64,
}

impl Tally {
    /// Before the first response.
    pub fn new() -> (r: Self)
        ensures
            r == (Tally { sum: 0, count: 0 }),
    {
        Tally { sum: 0, count: 0 }
    }

    /// Takes a response. Every ten thousand responses progress is shown, beginning with the first
    /// one.
    pub fn on_response(&mut self, res: u64) -> (show: bool)
        requires
            old(self).sum + res <= u64::MAX,
            old(self).count < u64::MAX,
        ensures
            final(self).sum == old(self).sum + res,
            final(self).count == old(self).count + 1,
            show == (old(self).count % 10000 == 0),
    {
        let show = self.count % 10000 == 0;
        self.sum = self.sum + res;
        self.count = self.count + 1;
        show
    }
}

} // verus!
