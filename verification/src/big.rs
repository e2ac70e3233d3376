//! Natural numbers of any size, for products that do not fit a machine word.

use vstd::prelude::*;

verus! {

/// The base of the digits: two to the power of 32.
pub open spec fn radix() -> nat {
    0x1_0000_0000
}

/// The radix to the power of `n`.
pub open spec fn radix_pow(n: nat) -> nat
    decreases n,
{
    if n == 0 {
        1
    } else {
        radix() * radix_pow((n - 1) as nat)
    }
}

/// The number that the digits `digits` spell, least significant digit first.
pub open spec fn digits_value(digits: Seq<u32>) -> nat
    decreases digits.len(),
{
    if digits.len() == 0 {
        0
    } else {
        digits_value(digits.drop_last()) + digits.last() as nat * radix_pow(
            (digits.len() - 1) as nat,
        )
    }
}

/// A power of the radix is positive.
pub proof fn lemma_radix_pow_positive(n: nat)
    ensures
        radix_pow(n) >= 1,
    decreases n,
{
    if n > 0 {
        lemma_radix_pow_positive((n - 1) as nat);
        assert(radix() * radix_pow((n - 1) as nat) >= 1) by (nonlinear_arith)
            requires
                radix_pow((n - 1) as nat) >= 1,
                radix() == 0x1_0000_0000,
        ;
    }
}

/// The digits of a number spell less than the radix to the power of their
/// count.
pub proof fn lemma_digits_bound(digits: Seq<u32>)
    ensures
        digits_value(digits) < radix_pow(digits.len()),
    decreases digits.len(),
{
    if digits.len() > 0 {
        let shorter = digits.drop_last();
        lemma_digits_bound(shorter);
        let top = digits.last() as nat;
        let unit = radix_pow(shorter.len());
        assert(digits_value(digits) == digits_value(shorter) + top * unit);
        assert(radix_pow(digits.len()) == radix() * unit);
        assert(digits_value(shorter) + top * unit < radix() * unit) by (nonlinear_arith)
            requires
                digits_value(shorter) < unit,
                top < radix(),
        ;
    }
}

/// A zero as the most significant digit changes nothing.
pub proof fn lemma_leading_zero(digits: Seq<u32>)
    ensures
        digits_value(digits.push(0u32)) == digits_value(digits),
{
    let longer = digits.push(0u32);
    assert(longer.drop_last() =~= digits);
    assert(0 * radix_pow(digits.len()) == 0) by (nonlinear_arith);
}

/// A natural number of any size.
#[derive(Debug)]
pub struct Big {
    digits: Vec<u32>,
}

impl Big {
    /// The number.
    pub closed spec fn view(&self) -> nat {
        digits_value(self.digits@)
    }

    /// The number `n`.
    pub fn from_u64(n: u64) -> (r: Big)
        ensures
            r@ == n,
    {
        let low: u32 = (n % 0x1_0000_0000) as u32;
        let high: u32 = (n / 0x1_0000_0000) as u32;
        let mut digits: Vec<u32> = Vec::new();
        digits.push(low);
        digits.push(high);
        proof {
            let s = digits@;
            assert(s.drop_last() =~= seq![low]);
            assert(seq![low].drop_last() =~= Seq::<u32>::empty());
            assert(radix_pow(0) == 1);
            assert(radix_pow(1) == radix() * radix_pow(0));
            assert(digits_value(Seq::<u32>::empty()) == 0);
            assert(digits_value(seq![low]) == low as nat * 1);
            assert(digits_value(s) == digits_value(seq![low]) + high as nat * radix_pow(1));
        }
        Big { digits }
    }

    /// The product of the number and `factor`.
    pub fn times(&self, factor: u64) -> (r: Big)
        ensures
            r@ == self@ * factor,
    {
        let mut out: Vec<u32> = Vec::new();
        let mut carry: u128 = 0;
        let mut i: usize = 0;
        proof {
            assert(self.digits@.subrange(0, 0) =~= Seq::<u32>::empty());
            assert(radix_pow(0) == 1);
            assert(0 * (factor as nat) == 0) by (nonlinear_arith);
        }
        while i < self.digits.len()
            invariant
                0 <= i <= self.digits@.len(),
                out@.len() == i,
                carry <= factor,
                digits_value(out@) + carry as nat * radix_pow(i as nat) == digits_value(
                    self.digits@.subrange(0, i as int),
                ) * factor as nat,
            decreases self.digits@.len() - i,
        {
            let digit = self.digits[i];
            proof {
                assert(digit as nat * factor as nat <= 0xffff_ffff * 0xffff_ffff_ffff_ffff)
                    by (nonlinear_arith)
                    requires
                        digit <= 0xffff_ffff,
                        factor <= 0xffff_ffff_ffff_ffff,
                ;
            }
            let total: u128 = (digit as u128) * (factor as u128) + carry;
            let low: u32 = (total % 0x1_0000_0000) as u32;
            let next: u128 = total / 0x1_0000_0000;
            proof {
                let before = self.digits@.subrange(0, i as int);
                let after = self.digits@.subrange(0, i + 1);
                let unit = radix_pow(i as nat);
                assert(after.drop_last() =~= before);
                assert(after.last() == digit);
                assert(out@.push(low).drop_last() =~= out@);
                assert(radix_pow((i + 1) as nat) == radix() * unit);
                assert(next <= factor) by (nonlinear_arith)
                    requires
                        total == digit as nat * factor as nat + carry as nat,
                        digit <= 0xffff_ffff,
                        carry <= factor,
                        next == total / 0x1_0000_0000,
                ;
                assert(total == low as nat + next as nat * radix());
                assert(digits_value(out@.push(low)) + next as nat * (radix() * unit)
                    == digits_value(after) * factor as nat) by (nonlinear_arith)
                    requires
                        digits_value(out@.push(low)) == digits_value(out@) + low as nat * unit,
                        digits_value(after) == digits_value(before) + digit as nat * unit,
                        digits_value(out@) + carry as nat * unit == digits_value(before)
                            * factor as nat,
                        total == digit as nat * factor as nat + carry as nat,
                        total == low as nat + next as nat * radix(),
                ;
            }
            out.push(low);
            carry = next;
            i = i + 1;
        }
        assert(self.digits@.subrange(0, i as int) =~= self.digits@);
        let low: u32 = (carry % 0x1_0000_0000) as u32;
        let high: u32 = (carry / 0x1_0000_0000) as u32;
        proof {
            let unit = radix_pow(i as nat);
            let with_low = out@.push(low);
            let with_both = with_low.push(high);
            assert(with_low.drop_last() =~= out@);
            assert(with_both.drop_last() =~= with_low);
            assert(radix_pow((i + 1) as nat) == radix() * unit);
            assert(carry == low as nat + high as nat * radix());
            assert(digits_value(with_both) == digits_value(out@) + carry as nat * unit)
                by (nonlinear_arith)
                requires
                    digits_value(with_both) == digits_value(with_low) + high as nat * (radix()
                        * unit),
                    digits_value(with_low) == digits_value(out@) + low as nat * unit,
                    carry == low as nat + high as nat * radix(),
            ;
        }
        out.push(low);
        out.push(high);
        Big { digits: out }
    }

    /// Whether the number is at least `other`.
    pub fn at_least(&self, other: &Big) -> (r: bool)
        ensures
            r == (self@ >= other@),
    {
        let n: usize = if self.digits.len() >= other.digits.len() {
            self.digits.len()
        } else {
            other.digits.len()
        };
        let mut i: usize = n;
        proof {
            lemma_padded_whole(self.digits@, n as nat);
            lemma_padded_whole(other.digits@, n as nat);
        }
        while i > 0
            invariant
                0 <= i <= n,
                n >= self.digits@.len(),
                n >= other.digits@.len(),
                (digits_value(self.digits@) >= digits_value(other.digits@)) == (low_part(
                    self.digits@,
                    i as nat,
                ) >= low_part(other.digits@, i as nat)),
            decreases i,
        {
            i = i - 1;
            let mine: u32 = if i < self.digits.len() {
                self.digits[i]
            } else {
                0
            };
            let theirs: u32 = if i < other.digits.len() {
                other.digits[i]
            } else {
                0
            };
            proof {
                lemma_low_part_step(self.digits@, i as nat);
                lemma_low_part_step(other.digits@, i as nat);
                lemma_low_part_bound(self.digits@, i as nat);
                lemma_low_part_bound(other.digits@, i as nat);
                let unit = radix_pow(i as nat);
                let a = low_part(self.digits@, i as nat);
                let b = low_part(other.digits@, i as nat);
                if mine > theirs {
                    assert(a + mine as nat * unit >= b + theirs as nat * unit) by (nonlinear_arith)
                        requires
                            mine > theirs,
                            b < unit,
                    ;
                } else if mine < theirs {
                    assert(a + mine as nat * unit < b + theirs as nat * unit) by (nonlinear_arith)
                        requires
                            mine < theirs,
                            a < unit,
                    ;
                }
            }
            if mine > theirs {
                return true;
            }
            if mine < theirs {
                return false;
            }
        }
        proof {
            assert(low_part(self.digits@, 0) == 0);
            assert(low_part(other.digits@, 0) == 0);
        }
        true
    }
}

/// The digit of `digits` at position `i`, and zero beyond its end.
pub open spec fn digit_at(digits: Seq<u32>, i: nat) -> nat {
    if i < digits.len() {
        digits[i as int] as nat
    } else {
        0
    }
}

/// The number that the `n` least significant digits of `digits` spell, with
/// zeros beyond its end.
pub open spec fn low_part(digits: Seq<u32>, n: nat) -> nat
    decreases n,
{
    if n == 0 {
        0
    } else {
        low_part(digits, (n - 1) as nat) + digit_at(digits, (n - 1) as nat) * radix_pow(
            (n - 1) as nat,
        )
    }
}

/// Adding one more digit to the low part.
pub proof fn lemma_low_part_step(digits: Seq<u32>, i: nat)
    ensures
        low_part(digits, i + 1) == low_part(digits, i) + digit_at(digits, i) * radix_pow(i),
{
}

/// The low part of `n` digits is less than the radix to the power of `n`.
pub proof fn lemma_low_part_bound(digits: Seq<u32>, n: nat)
    ensures
        low_part(digits, n) < radix_pow(n),
    decreases n,
{
    if n == 0 {
    } else {
        lemma_low_part_bound(digits, (n - 1) as nat);
        let unit = radix_pow((n - 1) as nat);
        let top = digit_at(digits, (n - 1) as nat);
        assert(low_part(digits, (n - 1) as nat) + top * unit < radix() * unit)
            by (nonlinear_arith)
            requires
                low_part(digits, (n - 1) as nat) < unit,
                top < radix(),
        ;
    }
}

/// The low part that holds all digits is the whole number.
pub proof fn lemma_padded_whole(digits: Seq<u32>, n: nat)
    requires
        n >= digits.len(),
    ensures
        low_part(digits, n) == digits_value(digits),
    decreases n,
{
    if n == 0 {
        assert(digits.len() == 0);
    } else if n > digits.len() {
        lemma_padded_whole(digits, (n - 1) as nat);
        assert(0 * radix_pow((n - 1) as nat) == 0) by (nonlinear_arith);
    } else {
        lemma_whole_prefix(digits, n);
    }
}

/// The low part of the first `n` digits is what those digits spell.
pub proof fn lemma_whole_prefix(digits: Seq<u32>, n: nat)
    requires
        n <= digits.len(),
    ensures
        low_part(digits, n) == digits_value(digits.subrange(0, n as int)),
        n == digits.len() ==> low_part(digits, n) == digits_value(digits),
    decreases n,
{
    if n == 0 {
        assert(digits.subrange(0, 0) =~= Seq::<u32>::empty());
    } else {
        lemma_whole_prefix(digits, (n - 1) as nat);
        let prefix = digits.subrange(0, n as int);
        assert(prefix.drop_last() =~= digits.subrange(0, n - 1));
        assert(prefix.last() == digits[n - 1]);
    }
    if n == digits.len() {
        assert(digits.subrange(0, n as int) =~= digits);
    }
}

} // verus!
