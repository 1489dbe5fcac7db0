//! Unsigned integers of 256 bits and the texts that denote them.

use vstd::prelude::*;

verus! {

/// Two to the power 64: the weight of the second limb.
pub open spec fn pow64() -> nat {
    0x1_0000_0000_0000_0000
}

/// Two to the power 128: the weight of the third limb.
pub open spec fn pow128() -> nat {
    0x1_0000_0000_0000_0000_0000_0000_0000_0000nat
}

/// Two to the power 192: the weight of the fourth limb.
pub open spec fn pow192() -> nat {
    0x1_0000_0000_0000_0000_0000_0000_0000_0000_0000_0000_0000_0000nat
}

/// Two to the power 256: the first number that does not fit.
pub open spec fn pow256() -> nat {
    0x1_0000_0000_0000_0000_0000_0000_0000_0000_0000_0000_0000_0000_0000_0000_0000_0000nat
}

/// An unsigned integer below two to the power 256, kept as four limbs of 64
/// bits, the least significant first.
#[derive(Debug, Clone, Copy, PartialEq, Eq, Structural)]
pub struct Uint {
    w0: u64,
    w1: u64,
    w2: u64,
    w3: u64,
}

impl View for Uint {
    type V = nat;

    /// The number that the limbs denote.
    open spec fn view(&self) -> nat {
        self.limb(0) as nat + self.limb(1) as nat * pow64() + self.limb(2) as nat * pow128()
            + self.limb(3) as nat * pow192()
    }
}

/// Why a text denotes no 256-bit integer.
#[derive(Debug, Clone, Copy, PartialEq, Eq, Structural)]
pub enum ParseUintError {
    /// The text has no digit.
    Empty,
    /// A character is no digit of the base.
    InvalidDigit,
    /// The number is two to the power 256 or more.
    Overflow,
}

/// Value of a character as a digit: `0`-`9`, `a`-`f` or `A`-`F`.
pub open spec fn digit_value(b: u8) -> Option<nat> {
    if 0x30 <= b <= 0x39 {
        Some((b - 0x30) as nat)
    } else if 0x61 <= b <= 0x66 {
        Some((b - 0x61 + 10) as nat)
    } else if 0x41 <= b <= 0x46 {
        Some((b - 0x41 + 10) as nat)
    } else {
        None
    }
}

/// `b` is a digit of the base.
pub open spec fn is_digit(b: u8, base: nat) -> bool {
    digit_value(b) matches Some(d) && d < base
}

/// Every character of `digits` is a digit of the base.
pub open spec fn all_digits(digits: Seq<u8>, base: nat) -> bool {
    forall|i: int| 0 <= i < digits.len() ==> is_digit(#[trigger] digits[i], base)
}

/// The number that `digits` denotes in the base, most significant first.
pub open spec fn digits_value(digits: Seq<u8>, base: nat) -> nat
    decreases digits.len(),
{
    if digits.len() == 0 {
        0
    } else {
        digits_value(digits.drop_last(), base) * base + match digit_value(digits.last()) {
            Some(d) => d,
            None => 0,
        }
    }
}

/// What a run of digits denotes: a number below two to the power 256, or the
/// reason why it denotes none.
pub open spec fn digits_spec(digits: Seq<u8>, base: nat) -> Result<nat, ParseUintError> {
    if digits.len() == 0 {
        Err(ParseUintError::Empty)
    } else if !all_digits(digits, base) {
        Err(ParseUintError::InvalidDigit)
    } else if digits_value(digits, base) >= pow256() {
        Err(ParseUintError::Overflow)
    } else {
        Ok(digits_value(digits, base))
    }
}

/// The text starts with `0x`.
pub open spec fn has_hex_prefix(text: Seq<u8>) -> bool {
    text.len() >= 2 && text[0] == 0x30 && text[1] == 0x78
}

/// What a text denotes: hexadecimal after `0x`, decimal otherwise.
pub open spec fn parse_spec(text: Seq<u8>) -> Result<nat, ParseUintError> {
    if has_hex_prefix(text) {
        digits_spec(text.skip(2), 16)
    } else {
        digits_spec(text, 10)
    }
}

/// A longer run of digits denotes no smaller number than its beginning.
pub proof fn lemma_prefix_value(digits: Seq<u8>, base: nat, k: int)
    requires
        0 <= k <= digits.len(),
        base >= 1,
    ensures
        digits_value(digits.take(k), base) <= digits_value(digits, base),
    decreases digits.len(),
{
    if k == digits.len() {
        assert(digits.take(k) =~= digits);
    } else {
        let shorter = digits.drop_last();
        lemma_prefix_value(shorter, base, k);
        assert(shorter.take(k) =~= digits.take(k));
        let v = digits_value(shorter, base);
        assert(v * base >= v) by (nonlinear_arith)
            requires
                base >= 1,
        ;
    }
}

/// The value of a run of digits grows by one digit at a time.
pub proof fn lemma_value_step(digits: Seq<u8>, base: nat, k: int)
    requires
        0 <= k < digits.len(),
    ensures
        digits_value(digits.take(k + 1), base) == digits_value(digits.take(k), base) * base
            + match digit_value(digits[k]) {
            Some(d) => d,
            None => 0,
        },
{
    assert(digits.take(k + 1).drop_last() =~= digits.take(k));
}

/// A number reads the same from its decimal text and from its hexadecimal
/// text after `0x`.
pub proof fn lemma_parse_base_independent(decimal: Seq<u8>, hex: Seq<u8>)
    requires
        digits_spec(decimal, 10) is Ok,
        digits_spec(hex, 16) is Ok,
        digits_value(decimal, 10) == digits_value(hex, 16),
    ensures
        parse_spec(decimal) == parse_spec(seq![0x30u8, 0x78u8] + hex),
        parse_spec(decimal) == Ok::<nat, ParseUintError>(digits_value(decimal, 10)),
{
    if has_hex_prefix(decimal) {
        assert(is_digit(decimal[1], 10));
    }
    let prefixed = seq![0x30u8, 0x78u8] + hex;
    assert(prefixed.skip(2) =~= hex);
    assert(prefixed[0] == 0x30u8 && prefixed[1] == 0x78u8);
}

/// The base of a run of digits: sixteen or ten.
pub open spec fn base_of(hex: bool) -> nat {
    if hex {
        16
    } else {
        10
    }
}

/// Value of `b` as a digit of the base, if it is one.
pub fn digit_of(b: u8, hex: bool) -> (d: Option<u64>)
    ensures
        match d {
            Some(v) => is_digit(b, base_of(hex)) && digit_value(b) == Some(v as nat),
            None => !is_digit(b, base_of(hex)),
        },
{
    if 0x30 <= b && b <= 0x39 {
        Some((b - 0x30) as u64)
    } else if hex && 0x61 <= b && b <= 0x66 {
        Some((b - 0x61 + 10) as u64)
    } else if hex && 0x41 <= b && b <= 0x46 {
        Some((b - 0x41 + 10) as u64)
    } else {
        None
    }
}

/// Reads the digits that `text` holds from position `from` to its end.
pub fn parse_digits(text: &[u8], from: usize, hex: bool) -> (r: Result<Uint, ParseUintError>)
    requires
        from <= text@.len(),
    ensures
        match r {
            Ok(v) => digits_spec(text@.skip(from as int), base_of(hex)) == Ok::<
                nat,
                ParseUintError,
            >(v@),
            Err(e) => digits_spec(text@.skip(from as int), base_of(hex)) == Err::<
                nat,
                ParseUintError,
            >(e),
        },
{
    let size: usize = text.len();
    let ghost digits = text@.skip(from as int);
    let ghost base = base_of(hex);
    if from == size {
        return Err(ParseUintError::Empty);
    }
    let mut i: usize = from;
    while i < size
        invariant
            from <= i <= size,
            size == text@.len(),
            digits == text@.skip(from as int),
            base == base_of(hex),
            forall|j: int| 0 <= j < i - from ==> is_digit(#[trigger] digits[j], base),
        decreases size - i,
    {
        if digit_of(text[i], hex).is_none() {
            assert(digits[i - from] == text@[i as int]);
            return Err(ParseUintError::InvalidDigit);
        }
        i += 1;
    }
    assert(all_digits(digits, base));
    let factor: u64 = if hex {
        16
    } else {
        10
    };
    let mut acc = Uint::zero();
    i = from;
    assert(digits.take(0) =~= Seq::<u8>::empty());
    while i < size
        invariant
            from <= i <= size,
            size == text@.len(),
            digits == text@.skip(from as int),
            base == base_of(hex),
            factor == base,
            all_digits(digits, base),
            acc@ == digits_value(digits.take(i - from), base),
        decreases size - i,
    {
        assert(digits[i - from] == text@[i as int]);
        let digit: u64 = match digit_of(text[i], hex) {
            Some(d) => d,
            None => 0,
        };
        let (next, carry) = acc.mul_add(factor, digit);
        proof {
            lemma_value_step(digits, base, i - from);
        }
        if carry != 0 {
            proof {
                lemma_prefix_value(digits, base, i - from + 1);
                assert(carry as nat * pow256() >= pow256()) by (nonlinear_arith)
                    requires
                        carry >= 1,
                ;
            }
            return Err(ParseUintError::Overflow);
        }
        acc = next;
        i += 1;
    }
    proof {
        assert(digits.take(size - from) =~= digits);
        acc.lemma_view_bound();
    }
    Ok(acc)
}

/// A number splits in one way into a limb and what stands above it.
proof fn lemma_split(low_a: int, high_a: int, low_b: int, high_b: int)
    requires
        0 <= low_a < pow64(),
        0 <= low_b < pow64(),
        low_a + pow64() * high_a == low_b + pow64() * high_b,
    ensures
        low_a == low_b,
        high_a == high_b,
{
    if high_a < high_b {
        assert(pow64() * high_a + pow64() <= pow64() * high_b);
    } else if high_a > high_b {
        assert(pow64() * high_b + pow64() <= pow64() * high_a);
    }
}

impl Uint {
    /// The limb of weight two to the power `64 * i`.
    pub closed spec fn limb(&self, i: int) -> u64 {
        if i == 0 {
            self.w0
        } else if i == 1 {
            self.w1
        } else if i == 2 {
            self.w2
        } else {
            self.w3
        }
    }

    /// Zero.
    pub fn zero() -> (r: Uint)
        ensures
            r@ == 0,
    {
        Uint { w0: 0, w1: 0, w2: 0, w3: 0 }
    }

    /// The number `value`.
    pub fn from_u64(value: u64) -> (r: Uint)
        ensures
            r@ == value,
    {
        Uint { w0: value, w1: 0, w2: 0, w3: 0 }
    }

    /// The number with the given limbs, the least significant first.
    pub fn from_limbs(limbs: [u64; 4]) -> (r: Uint)
        ensures
            forall|i: int| 0 <= i < 4 ==> r.limb(i) == limbs@[i],
    {
        Uint { w0: limbs[0], w1: limbs[1], w2: limbs[2], w3: limbs[3] }
    }

    /// The four limbs, the least significant first.
    pub fn to_limbs(&self) -> (limbs: [u64; 4])
        ensures
            forall|i: int| 0 <= i < 4 ==> self.limb(i) == limbs@[i],
    {
        [self.w0, self.w1, self.w2, self.w3]
    }

    /// Tells whether the number is `value`.
    pub fn eq_u64(&self, value: u64) -> (same: bool)
        ensures
            same == (self@ == value),
    {
        self.w0 == value && self.w1 == 0 && self.w2 == 0 && self.w3 == 0
    }

    /// The number as a `u64`, where it fits in one.
    pub fn as_u64(&self) -> (r: Option<u64>)
        ensures
            match r {
                Some(v) => self@ == v,
                None => self@ > u64::MAX,
            },
    {
        if self.w1 == 0 && self.w2 == 0 && self.w3 == 0 {
            Some(self.w0)
        } else {
            None
        }
    }

    /// Two values with the same number have the same limbs.
    pub proof fn lemma_view_injective(a: Uint, b: Uint)
        requires
            a@ == b@,
        ensures
            a == b,
    {
        let ha = a.w1 as int + pow64() * (a.w2 as int + pow64() * (a.w3 as int));
        let hb = b.w1 as int + pow64() * (b.w2 as int + pow64() * (b.w3 as int));
        assert(a@ == a.w0 as int + pow64() * ha);
        assert(b@ == b.w0 as int + pow64() * hb);
        lemma_split(a.w0 as int, ha, b.w0 as int, hb);
        let ga = a.w2 as int + pow64() * (a.w3 as int);
        let gb = b.w2 as int + pow64() * (b.w3 as int);
        lemma_split(a.w1 as int, ga, b.w1 as int, gb);
        lemma_split(a.w2 as int, a.w3 as int, b.w2 as int, b.w3 as int);
    }

    /// Every value is below two to the power 256.
    pub proof fn lemma_view_bound(self)
        ensures
            self@ < pow256(),
    {
    }

    /// Multiplies by `factor` and adds `addend`; what does not fit in 256 bits
    /// comes back as the carry.
    pub fn mul_add(&self, factor: u64, addend: u64) -> (r: (Uint, u64))
        ensures
            r.0@ + r.1 as nat * pow256() == self@ * factor as nat + addend as nat,
    {
        let base: u128 = 0x1_0000_0000_0000_0000;
        let f: u128 = factor as u128;
        proof {
            let max: int = 0xffff_ffff_ffff_ffff;
            assert(forall|w: int| 0 <= w <= max ==> 0 <= #[trigger] (w * (factor as int)) <= max
                * max) by (nonlinear_arith)
                requires
                    0 <= factor as int <= max,
            ;
        }
        let t0: u128 = (self.w0 as u128) * f + (addend as u128);
        let r0: u64 = (t0 % base) as u64;
        let t1: u128 = (self.w1 as u128) * f + t0 / base;
        let r1: u64 = (t1 % base) as u64;
        let t2: u128 = (self.w2 as u128) * f + t1 / base;
        let r2: u64 = (t2 % base) as u64;
        let t3: u128 = (self.w3 as u128) * f + t2 / base;
        let r3: u64 = (t3 % base) as u64;
        let carry: u64 = (t3 / base) as u64;
        let r = Uint { w0: r0, w1: r1, w2: r2, w3: r3 };
        proof {
            let m = factor as int;
            let p0 = self.w0 as int * m;
            let p1 = self.w1 as int * m;
            let p2 = self.w2 as int * m;
            let p3 = self.w3 as int * m;
            assert((self.w0 as int + self.w1 as int * pow64() + self.w2 as int * pow128()
                + self.w3 as int * pow192()) * m == p0 + p1 * pow64() + p2 * pow128() + p3
                * pow192()) by (nonlinear_arith)
                requires
                    p0 == self.w0 as int * m,
                    p1 == self.w1 as int * m,
                    p2 == self.w2 as int * m,
                    p3 == self.w3 as int * m,
            ;
        }
        (r, carry)
    }
}

} // verus!
