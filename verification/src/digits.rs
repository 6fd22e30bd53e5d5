//! Positional notation: what a sequence of digits is worth, and when two sequences are the same.
use vstd::arithmetic::power::pow;
use vstd::prelude::*;

verus! {

/// The number that `digits`, most significant digit first, stands for in `base`.
pub open spec fn value(base: int, digits: Seq<int>) -> int
    decreases digits.len(),
{
    if digits.len() == 0 {
        0
    } else {
        value(base, digits.drop_last()) * base + digits.last()
    }
}

/// How many zeros `digits` starts with.
pub open spec fn leading_zeros(digits: Seq<int>) -> nat
    decreases digits.len(),
{
    if digits.len() == 0 || digits[0] != 0 {
        0
    } else {
        1 + leading_zeros(digits.drop_first())
    }
}

/// Every entry of `digits` is a digit of `base`.
pub open spec fn are_digits(base: int, digits: Seq<int>) -> bool {
    forall|i: int| 0 <= i < digits.len() ==> 0 <= #[trigger] digits[i] < base
}

/// A zero in front does not change a number.
proof fn lemma_value_drop_zero(base: int, digits: Seq<int>)
    requires
        digits.len() > 0,
        digits[0] == 0,
    ensures
        value(base, digits.drop_first()) == value(base, digits),
    decreases digits.len(),
{
    if digits.len() == 1 {
        assert(digits.drop_last().len() == 0);
        assert(value(base, digits.drop_last()) == 0);
        assert(0 * base == 0) by (nonlinear_arith);
    } else {
        lemma_value_drop_zero(base, digits.drop_last());
        assert(digits.drop_first().drop_last() =~= digits.drop_last().drop_first());
    }
}

/// A number without a zero in front is positive, unless it has no digit at all.
pub proof fn lemma_value_positive(base: int, digits: Seq<int>)
    requires
        base >= 2,
        are_digits(base, digits),
        digits.len() > 0,
        digits[0] != 0,
    ensures
        value(base, digits) > 0,
    decreases digits.len(),
{
    let front = digits.drop_last();
    assert(digits.last() >= 0);
    if digits.len() == 1 {
        assert(value(base, front) == 0);
        assert(0 * base == 0) by (nonlinear_arith);
    } else {
        assert(front[0] == digits[0]);
        lemma_value_positive(base, front);
        let v = value(base, front);
        assert(v * base > 0) by (nonlinear_arith)
            requires
                v > 0,
                base >= 2,
        ;
    }
}

/// Two sequences without a zero in front that are worth the same are the same.
proof fn lemma_canonical(base: int, a: Seq<int>, b: Seq<int>)
    requires
        base >= 2,
        are_digits(base, a),
        are_digits(base, b),
        a.len() > 0 ==> a[0] != 0,
        b.len() > 0 ==> b[0] != 0,
        value(base, a) == value(base, b),
    ensures
        a == b,
    decreases a.len(),
{
    if a.len() == 0 {
        if b.len() > 0 {
            lemma_value_positive(base, b);
        }
        assert(a =~= b);
    } else if b.len() == 0 {
        lemma_value_positive(base, a);
    } else {
        let (va, vb) = (value(base, a.drop_last()), value(base, b.drop_last()));
        let (la, lb) = (a.last(), b.last());
        assert(0 <= la < base && 0 <= lb < base);
        assert(va == vb && la == lb) by (nonlinear_arith)
            requires
                base >= 2,
                0 <= la < base,
                0 <= lb < base,
                va * base + la == vb * base + lb,
        ;
        lemma_canonical(base, a.drop_last(), b.drop_last());
        assert(a =~= a.drop_last().push(la));
        assert(b =~= b.drop_last().push(lb));
    }
}

/// Digits are determined by their value and by the number of zeros in front.
pub proof fn lemma_digits_unique(base: int, a: Seq<int>, b: Seq<int>)
    requires
        base >= 2,
        are_digits(base, a),
        are_digits(base, b),
        value(base, a) == value(base, b),
        leading_zeros(a) == leading_zeros(b),
    ensures
        a == b,
    decreases a.len(),
{
    if a.len() > 0 && a[0] == 0 {
        lemma_value_drop_zero(base, a);
        lemma_value_drop_zero(base, b);
        lemma_digits_unique(base, a.drop_first(), b.drop_first());
        assert(a =~= seq![0int] + a.drop_first());
        assert(b =~= seq![0int] + b.drop_first());
    } else {
        lemma_canonical(base, a, b);
    }
}

/// Digits are worth less than one more place would be.
proof fn lemma_value_below(base: int, digits: Seq<int>)
    requires
        base >= 2,
        are_digits(base, digits),
    ensures
        0 <= value(base, digits) < pow(base, digits.len()),
    decreases digits.len(),
{
    reveal(pow);
    if digits.len() > 0 {
        let front = digits.drop_last();
        lemma_value_below(base, front);
        let (v, p, last) = (value(base, front), pow(base, front.len()), digits.last());
        assert(0 <= last < base);
        assert(0 <= v * base + last < base * p) by (nonlinear_arith)
            requires
                base >= 2,
                0 <= v < p,
                0 <= last < base,
        ;
    }
}

/// Digits without a zero in front are worth at least their first place.
proof fn lemma_value_at_least(base: int, digits: Seq<int>)
    requires
        base >= 2,
        are_digits(base, digits),
        digits.len() > 0,
        digits[0] != 0,
    ensures
        value(base, digits) >= pow(base, (digits.len() - 1) as nat),
    decreases digits.len(),
{
    reveal(pow);
    let front = digits.drop_last();
    assert(digits.last() >= 0);
    if digits.len() == 1 {
        assert(value(base, front) == 0);
        assert(0 * base == 0) by (nonlinear_arith);
        assert(digits.last() == digits[0] && digits[0] >= 1);
    } else {
        assert(front[0] == digits[0]);
        lemma_value_at_least(base, front);
        let (v, p) = (value(base, front), pow(base, (front.len() - 1) as nat));
        assert(v * base >= base * p) by (nonlinear_arith)
            requires
                base >= 2,
                v >= p,
        ;
    }
}

/// Up to 32 places of base 256, twelve more places of base 58 are always enough.
proof fn lemma_places(n: nat)
    requires
        n <= 32,
    ensures
        pow(58, n + 12) >= pow(256, n),
    decreases 32 - n,
{
    if n == 32 {
        reveal(pow);
        reveal_with_fuel(pow, 46);
    } else {
        lemma_places(n + 1);
        reveal(pow);
        let (p, q) = (pow(58, n + 12), pow(256, n));
        assert(pow(58, n + 13) == 58 * p);
        assert(pow(256, n + 1) == 256 * q);
        vstd::arithmetic::power::lemma_pow_positive(256, n);
    }
}

/// A number of up to 32 base-256 digits has at most twelve digits more in base 58, where both are
/// written with as many zeros in front.
pub proof fn lemma_base58_places(a: Seq<int>, b: Seq<int>)
    requires
        are_digits(58, a),
        are_digits(256, b),
        value(58, a) == value(256, b),
        leading_zeros(a) == leading_zeros(b),
        b.len() <= 32,
    ensures
        a.len() <= b.len() + 12,
    decreases a.len(),
{
    if a.len() > 0 && a[0] == 0 {
        lemma_value_drop_zero(58, a);
        lemma_value_drop_zero(256, b);
        lemma_base58_places(a.drop_first(), b.drop_first());
    } else if a.len() > 0 {
        lemma_value_at_least(58, a);
        lemma_value_below(256, b);
        lemma_places(b.len());
        if a.len() - 1 >= b.len() + 12 {
            vstd::arithmetic::power::lemma_pow_increases(
                58,
                b.len() + 12,
                (a.len() - 1) as nat,
            );
        }
    }
}

} // verus!
