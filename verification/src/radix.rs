//! Positional notation: the value of a digit string in a base, the shortest
//! digit string of a value, and the conversion of a digit string from one
//! base to another that keeps its leading zeros.
//!
//! Digit strings are big-endian throughout: the first digit is the most
//! significant one.

use vstd::prelude::*;

verus! {

/// Every digit of `digits` is a digit of `base`.
pub open spec fn in_base(digits: Seq<nat>, base: nat) -> bool {
    forall|i: int| 0 <= i < digits.len() ==> digits[i] < base
}

/// The number that the big-endian digit string `digits` denotes in `base`.
pub open spec fn value_of(digits: Seq<nat>, base: nat) -> nat
    decreases digits.len(),
{
    if digits.len() == 0 {
        0
    } else {
        value_of(digits.drop_last(), base) * base + digits.last()
    }
}

/// The shortest big-endian digit string that denotes `n` in `base`: empty
/// for zero, and starting with a non-zero digit otherwise.
pub open spec fn digits_of(n: nat, base: nat) -> Seq<nat>
    decreases n,
    via digits_of_decreases
{
    if n == 0 || base < 2 {
        Seq::empty()
    } else {
        digits_of(n / base, base).push(n % base)
    }
}

#[via_fn]
proof fn digits_of_decreases(n: nat, base: nat) {
    if n != 0 && base >= 2 {
        assert(n / base < n) by (nonlinear_arith)
            requires
                n > 0,
                base >= 2,
        ;
    }
}

/// The number of zero digits in front of the first non-zero digit.
pub open spec fn leading_zeros(digits: Seq<nat>) -> nat
    decreases digits.len(),
{
    if digits.len() == 0 || digits[0] != 0 {
        0
    } else {
        1 + leading_zeros(digits.drop_first())
    }
}

/// A string of `count` zero digits.
pub open spec fn zeros(count: nat) -> Seq<nat> {
    Seq::new(count, |i: int| 0nat)
}

/// A digit string is minimal when it does not start with a zero digit.
pub open spec fn is_minimal(digits: Seq<nat>) -> bool {
    digits.len() == 0 || digits[0] != 0
}

/// `digits`, read in base `from`, written in base `to`: one zero digit for
/// each leading zero digit of `digits`, followed by the shortest digit
/// string of its value.
pub open spec fn transcode(digits: Seq<nat>, from: nat, to: nat) -> Seq<nat> {
    zeros(leading_zeros(digits)) + digits_of(value_of(digits, from), to)
}

/// The shortest digit string of a number consists of digits of the base,
/// is minimal, and is empty exactly for zero.
pub proof fn lemma_digits_of_shape(n: nat, base: nat)
    requires
        base >= 2,
    ensures
        in_base(digits_of(n, base), base),
        is_minimal(digits_of(n, base)),
        digits_of(n, base).len() == 0 <==> n == 0,
    decreases n,
{
    if n != 0 {
        assert(n / base < n && n % base < base && (n / base == 0 ==> n % base == n))
            by (nonlinear_arith)
            requires
                n > 0,
                base >= 2,
        ;
        lemma_digits_of_shape(n / base, base);
    }
}

/// The shortest digit string of a number denotes that number.
pub proof fn lemma_value_of_digits(n: nat, base: nat)
    requires
        base >= 2,
    ensures
        value_of(digits_of(n, base), base) == n,
    decreases n,
{
    if n != 0 {
        assert(n / base < n && (n / base) * base + n % base == n) by (nonlinear_arith)
            requires
                n > 0,
                base >= 2,
        ;
        lemma_value_of_digits(n / base, base);
        let digits = digits_of(n, base);
        assert(digits.drop_last() =~= digits_of(n / base, base));
    }
}

/// A non-empty minimal digit string denotes a positive number.
pub proof fn lemma_value_positive(digits: Seq<nat>, base: nat)
    requires
        base >= 1,
        digits.len() > 0,
        digits[0] != 0,
    ensures
        value_of(digits, base) > 0,
    decreases digits.len(),
{
    if digits.len() > 1 {
        lemma_value_positive(digits.drop_last(), base);
        assert(value_of(digits.drop_last(), base) * base > 0) by (nonlinear_arith)
            requires
                value_of(digits.drop_last(), base) > 0,
                base >= 1,
        ;
    }
}

/// A minimal digit string is the shortest digit string of its value.
pub proof fn lemma_digits_of_value(digits: Seq<nat>, base: nat)
    requires
        base >= 2,
        in_base(digits, base),
        is_minimal(digits),
    ensures
        digits_of(value_of(digits, base), base) =~= digits,
    decreases digits.len(),
{
    if digits.len() > 0 {
        let init = digits.drop_last();
        let last = digits.last();
        let high = value_of(init, base);
        let value = value_of(digits, base);
        lemma_value_positive(digits, base);
        lemma_digits_of_value(init, base);
        assert(value / base == high && value % base == last) by (nonlinear_arith)
            requires
                value == high * base + last,
                last < base,
        ;
    }
}

/// What `leading_zeros` counts: the digits before that position are zero,
/// and the digit at that position, if there is one, is not.
pub proof fn lemma_leading_zeros(digits: Seq<nat>)
    ensures
        leading_zeros(digits) <= digits.len(),
        forall|i: int| 0 <= i < leading_zeros(digits) ==> digits[i] == 0,
        leading_zeros(digits) < digits.len() ==> digits[leading_zeros(digits) as int] != 0,
    decreases digits.len(),
{
    if digits.len() != 0 && digits[0] == 0 {
        let rest = digits.drop_first();
        lemma_leading_zeros(rest);
        assert forall|i: int| 0 <= i < leading_zeros(digits) implies digits[i] == 0 by {
            if i > 0 {
                assert(digits[i] == rest[i - 1]);
            }
        }
    }
}

/// Zero digits in front of a minimal digit string are its leading zeros.
pub proof fn lemma_leading_zeros_of_padded(count: nat, digits: Seq<nat>)
    requires
        is_minimal(digits),
    ensures
        leading_zeros(zeros(count) + digits) == count,
    decreases count,
{
    if count > 0 {
        let padded = zeros(count) + digits;
        assert(padded.drop_first() =~= zeros((count - 1) as nat) + digits);
        lemma_leading_zeros_of_padded((count - 1) as nat, digits);
    }
}

/// Zero digits in front of a digit string do not change its value.
pub proof fn lemma_value_of_padded(count: nat, digits: Seq<nat>, base: nat)
    ensures
        value_of(zeros(count) + digits, base) == value_of(digits, base),
    decreases digits.len(), count,
{
    let padded = zeros(count) + digits;
    if digits.len() > 0 {
        assert(padded.drop_last() =~= zeros(count) + digits.drop_last());
        lemma_value_of_padded(count, digits.drop_last(), base);
    } else if count > 0 {
        assert(padded.drop_last() =~= zeros((count - 1) as nat) + digits);
        lemma_value_of_padded((count - 1) as nat, digits, base);
        assert(value_of(padded.drop_last(), base) * base == 0) by (nonlinear_arith)
            requires
                value_of(padded.drop_last(), base) == 0,
        ;
    }
}

/// A digit string is its leading zeros followed by a minimal digit string.
pub proof fn lemma_split_leading_zeros(digits: Seq<nat>)
    ensures
        is_minimal(digits.skip(leading_zeros(digits) as int)),
        digits =~= zeros(leading_zeros(digits)) + digits.skip(leading_zeros(digits) as int),
{
    lemma_leading_zeros(digits);
}

/// The conversion consists of digits of the target base and has as many
/// leading zeros as its argument.
pub proof fn lemma_transcode_shape(digits: Seq<nat>, from: nat, to: nat)
    requires
        to >= 2,
    ensures
        in_base(transcode(digits, from, to), to),
        leading_zeros(transcode(digits, from, to)) == leading_zeros(digits),
        value_of(transcode(digits, from, to), to) == value_of(digits, from),
{
    let value = value_of(digits, from);
    lemma_digits_of_shape(value, to);
    lemma_leading_zeros_of_padded(leading_zeros(digits), digits_of(value, to));
    lemma_value_of_padded(leading_zeros(digits), digits_of(value, to), to);
    lemma_value_of_digits(value, to);
}

/// Converting a digit string to another base and back gives the digit
/// string again.
pub proof fn lemma_transcode_inverse(digits: Seq<nat>, from: nat, to: nat)
    requires
        from >= 2,
        to >= 2,
        in_base(digits, from),
    ensures
        transcode(transcode(digits, from, to), to, from) =~= digits,
{
    let count = leading_zeros(digits);
    let tail = digits.skip(count as int);
    lemma_split_leading_zeros(digits);
    lemma_leading_zeros(digits);
    lemma_value_of_padded(count, tail, from);
    lemma_transcode_shape(digits, from, to);
    lemma_digits_of_value(tail, from);
}

} // verus!
