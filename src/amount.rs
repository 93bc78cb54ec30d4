use vstd::arithmetic::power::pow;
use vstd::prelude::*;

verus! {

/// 2^128, the weight of the high half of an [`Amount`].
pub open spec fn half_weight() -> int {
    0x1_0000_0000_0000_0000_0000_0000_0000_0000int
}

/// An unscaled, non-negative on-chain quantity of up to 256 bits, held as two
/// 128-bit halves. On its own it has no unit: it is always read together with
/// an asset.
#[derive(Clone, Copy, Debug, PartialEq, Eq, Structural)]
pub struct Amount {
    pub hi: u128,
    pub lo: u128,
}

impl View for Amount {
    type V = nat;

    open spec fn view(&self) -> nat {
        (self.hi as int * half_weight() + self.lo as int) as nat
    }
}

impl Amount {
    /// The amount whose value is `hi * 2^128 + lo`.
    pub fn from_parts(hi: u128, lo: u128) -> (r: Amount)
        ensures
            r.hi == hi,
            r.lo == lo,
            r@ == hi as int * half_weight() + lo as int,
    {
        Amount { hi, lo }
    }

    /// The amount whose value is `v`.
    pub fn from_u128(v: u128) -> (r: Amount)
        ensures
            r@ == v as int,
    {
        Amount { hi: 0, lo: v }
    }

    /// The value as a `u128`, where it fits in one.
    pub fn to_u128(&self) -> (r: Option<u128>)
        ensures
            r == (if self@ <= u128::MAX as int {
                Some(self@ as u128)
            } else {
                None::<u128>
            }),
    {
        if self.hi == 0 {
            Some(self.lo)
        } else {
            assert(self.hi as int * half_weight() >= half_weight()) by (nonlinear_arith)
                requires
                    self.hi > 0,
                    half_weight() > 0,
            ;
            None
        }
    }
}

/// A decimal value held exactly: `mantissa / 10^scale`.
#[derive(Clone, Copy, Debug, PartialEq, Eq, Structural)]
pub struct DecimalAmount {
    pub mantissa: Amount,
    pub scale: u32,
}

/// `10^e`.
pub open spec fn pow10(e: nat) -> int {
    pow(10, e)
}

impl DecimalAmount {
    /// The decimal equals the whole number `k`.
    pub open spec fn equals_whole(self, k: int) -> bool {
        self.mantissa@ == k * pow10(self.scale as nat)
    }

    /// `self <= other` as rational numbers.
    pub open spec fn le(self, other: DecimalAmount) -> bool {
        self.mantissa@ * pow10(other.scale as nat) <= other.mantissa@ * pow10(self.scale as nat)
    }
}

/// The decimal digit character of `d`, for `d < 10`.
pub open spec fn digit_char(d: nat) -> char {
    if d == 0 {
        '0'
    } else if d == 1 {
        '1'
    } else if d == 2 {
        '2'
    } else if d == 3 {
        '3'
    } else if d == 4 {
        '4'
    } else if d == 5 {
        '5'
    } else if d == 6 {
        '6'
    } else if d == 7 {
        '7'
    } else if d == 8 {
        '8'
    } else {
        '9'
    }
}

/// `c` is one of the ten decimal digit characters.
pub open spec fn is_digit_char(c: char) -> bool {
    c == '0' || c == '1' || c == '2' || c == '3' || c == '4' || c == '5' || c == '6' || c == '7'
        || c == '8' || c == '9'
}

/// The decimal digits of `n`, most significant first, without leading zeros
/// (zero itself is one digit).
pub open spec fn digits_of(n: nat) -> Seq<char>
    decreases n,
{
    if n < 10 {
        seq![digit_char(n)]
    } else {
        digits_of(n / 10).push(digit_char(n % 10))
    }
}

/// `d` with zeros put in front until it has at least `width` characters.
pub open spec fn zero_padded(d: Seq<char>, width: nat) -> Seq<char> {
    if d.len() >= width {
        d
    } else {
        Seq::new((width - d.len()) as nat, |i: int| '0') + d
    }
}

/// The exact text of `n / 10^scale`: every digit of `n`, with the decimal
/// point before the last `scale` of them and a zero before the point.
pub open spec fn exact_decimal_text(n: nat, scale: nat) -> Seq<char> {
    let d = zero_padded(digits_of(n), scale + 1);
    if scale == 0 {
        d
    } else {
        d.take(d.len() - scale) + seq!['.'] + d.skip(d.len() - scale)
    }
}

/// The value of four 64-bit limbs, most significant first.
pub open spec fn limbs_value(a3: u64, a2: u64, a1: u64, a0: u64) -> int {
    a3 as int * 0x1_0000_0000_0000_0000_0000_0000_0000_0000_0000_0000_0000_0000int + a2 as int
        * 0x1_0000_0000_0000_0000_0000_0000_0000_0000int + a1 as int * 0x1_0000_0000_0000_0000int
        + a0 as int
}

/// Long division of four limbs by ten: the quotient's limbs and the remainder.
fn div_rem_ten(a3: u64, a2: u64, a1: u64, a0: u64) -> (r: (u64, u64, u64, u64, u8))
    ensures
        limbs_value(a3, a2, a1, a0) == 10 * limbs_value(r.0, r.1, r.2, r.3) + r.4 as int,
        r.4 < 10,
{
    let q3 = a3 / 10;
    let r3 = a3 % 10;
    let t2: u128 = (r3 as u128) * 0x1_0000_0000_0000_0000u128 + a2 as u128;
    let q2 = (t2 / 10) as u64;
    let r2 = t2 % 10;
    let t1: u128 = r2 * 0x1_0000_0000_0000_0000u128 + a1 as u128;
    let q1 = (t1 / 10) as u64;
    let r1 = t1 % 10;
    let t0: u128 = r1 * 0x1_0000_0000_0000_0000u128 + a0 as u128;
    let q0 = (t0 / 10) as u64;
    let r0 = t0 % 10;
    (q3, q2, q1, q0, r0 as u8)
}

/// The digit character of `d`.
fn digit_of(d: u8) -> (c: char)
    requires
        d < 10,
    ensures
        c == digit_char(d as nat),
        is_digit_char(c),
{
    match d {
        0 => '0',
        1 => '1',
        2 => '2',
        3 => '3',
        4 => '4',
        5 => '5',
        6 => '6',
        7 => '7',
        8 => '8',
        _ => '9',
    }
}

/// The one-character text of a digit character.
fn digit_text(c: char) -> (r: &'static str)
    requires
        is_digit_char(c),
    ensures
        r@ == seq![c],
{
    proof {
        reveal_strlit("0");
        reveal_strlit("1");
        reveal_strlit("2");
        reveal_strlit("3");
        reveal_strlit("4");
        reveal_strlit("5");
        reveal_strlit("6");
        reveal_strlit("7");
        reveal_strlit("8");
        reveal_strlit("9");
    }
    if c == '0' {
        assert("0"@ =~= seq![c]);
        "0"
    } else if c == '1' {
        assert("1"@ =~= seq![c]);
        "1"
    } else if c == '2' {
        assert("2"@ =~= seq![c]);
        "2"
    } else if c == '3' {
        assert("3"@ =~= seq![c]);
        "3"
    } else if c == '4' {
        assert("4"@ =~= seq![c]);
        "4"
    } else if c == '5' {
        assert("5"@ =~= seq![c]);
        "5"
    } else if c == '6' {
        assert("6"@ =~= seq![c]);
        "6"
    } else if c == '7' {
        assert("7"@ =~= seq![c]);
        "7"
    } else if c == '8' {
        assert("8"@ =~= seq![c]);
        "8"
    } else {
        assert("9"@ =~= seq![c]);
        "9"
    }
}

/// Every character of `digits_of(n)` is a digit.
proof fn lemma_digits_are_digits(n: nat)
    ensures
        forall|i: int| 0 <= i < digits_of(n).len() ==> is_digit_char(#[trigger] digits_of(n)[i]),
        digits_of(n).len() >= 1,
    decreases n,
{
    if n >= 10 {
        lemma_digits_are_digits(n / 10);
        let d = digits_of(n / 10);
        assert forall|i: int| 0 <= i < digits_of(n).len() implies is_digit_char(
            #[trigger] digits_of(n)[i],
        ) by {
            if i < d.len() {
                assert(digits_of(n)[i] == d[i]);
            }
        }
    }
}

impl Amount {
    /// The decimal digits of the amount, most significant first.
    fn digits(&self) -> (r: Vec<char>)
        ensures
            r@ == digits_of(self@),
    {
        let mut a3 = (self.hi / 0x1_0000_0000_0000_0000u128) as u64;
        let mut a2 = (self.hi % 0x1_0000_0000_0000_0000u128) as u64;
        let mut a1 = (self.lo / 0x1_0000_0000_0000_0000u128) as u64;
        let mut a0 = (self.lo % 0x1_0000_0000_0000_0000u128) as u64;
        let ghost n = self@;
        assert(limbs_value(a3, a2, a1, a0) == n);
        let mut v: Vec<char> = Vec::new();
        assert(v@ =~= Seq::<char>::empty());
        assert(digits_of(n) =~= digits_of(n) + v@);
        while a3 != 0 || a2 != 0 || a1 != 0 || a0 >= 10
            invariant
                digits_of(n) == digits_of(limbs_value(a3, a2, a1, a0) as nat) + v@,
                limbs_value(a3, a2, a1, a0) >= 0,
            decreases limbs_value(a3, a2, a1, a0),
        {
            let ghost c = limbs_value(a3, a2, a1, a0) as nat;
            let (q3, q2, q1, q0, r) = div_rem_ten(a3, a2, a1, a0);
            assert(c >= 10);
            assert(limbs_value(q3, q2, q1, q0) == c / 10 && r as int == c % 10);
            let d = digit_of(r);
            let ghost old_v = v@;
            v.insert(0, d);
            assert(digits_of(c) == digits_of(c / 10).push(digit_char(c % 10)));
            assert(v@ =~= seq![d] + old_v);
            assert(digits_of(n) =~= digits_of(c / 10) + v@);
            a3 = q3;
            a2 = q2;
            a1 = q1;
            a0 = q0;
        }
        let ghost c = limbs_value(a3, a2, a1, a0) as nat;
        assert(c < 10);
        let ghost old_v = v@;
        v.insert(0, digit_of(a0 as u8));
        assert(v@ =~= digits_of(c) + old_v);
        v
    }
}

impl DecimalAmount {
    /// The exact text of the decimal: every digit of the mantissa, with the
    /// point before the last `scale` of them.
    pub fn exact_text(&self) -> (r: String)
        ensures
            r@ == exact_decimal_text(self.mantissa@, self.scale as nat),
    {
        let ghost n = self.mantissa@;
        let ghost width = self.scale as nat + 1;
        let mut v = self.mantissa.digits();
        proof {
            lemma_digits_are_digits(n);
        }
        let ghost d = v@;
        let ghost k: nat = 0;
        assert(v@ =~= Seq::new(k, |i: int| '0') + d);
        while v.len() <= self.scale as usize
            invariant
                d == digits_of(n),
                n == self.mantissa@,
                width == self.scale as nat + 1,
                d.len() >= 1,
                v@ == Seq::new(k, |i: int| '0') + d,
                k == 0 || v@.len() <= width,
                forall|i: int| 0 <= i < v@.len() ==> is_digit_char(#[trigger] v@[i]),
            decreases width - v@.len(),
        {
            v.insert(0, '0');
            proof {
                k = k + 1;
            }
            assert(v@ =~= Seq::new(k, |i: int| '0') + d);
        }
        assert(v@ =~= zero_padded(d, width));
        let n_len = v.len();
        let scale = self.scale as usize;
        let point = n_len - scale;
        let mut out = String::new();
        let mut i: usize = 0;
        while i < n_len
            invariant
                n_len == v@.len(),
                n_len > scale,
                point == n_len - scale,
                scale == self.scale,
                0 <= i <= n_len,
                forall|j: int| 0 <= j < v@.len() ==> is_digit_char(#[trigger] v@[j]),
                out@ == (if scale == 0 || i <= point {
                    v@.take(i as int)
                } else {
                    v@.take(point as int) + seq!['.'] + v@.subrange(point as int, i as int)
                }),
            decreases n_len - i,
        {
            if scale > 0 && i == point {
                proof {
                    reveal_strlit(".");
                }
                out.append(".");
                out.append(digit_text(v[i]));
                assert(out@ =~= v@.take(point as int) + seq!['.'] + v@.subrange(
                    point as int,
                    i + 1,
                ));
            } else {
                out.append(digit_text(v[i]));
                if scale == 0 || i < point {
                    assert(out@ =~= v@.take(i + 1));
                } else {
                    assert(out@ =~= v@.take(point as int) + seq!['.'] + v@.subrange(
                        point as int,
                        i + 1,
                    ));
                }
            }
            i = i + 1;
        }
        assert(v@.take(n_len as int) =~= v@);
        assert(v@.subrange(point as int, n_len as int) =~= v@.skip(point as int));
        out
    }
}

} // verus!
