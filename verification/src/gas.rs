use vstd::prelude::*;
use vstd::string::StringExecFns;

verus! {

/// Number of milligas sub-units in one whole gas unit.
pub const MILLIGAS_PRECISION: i64 = 1000;

/// Saturation of an unbounded integer to the `i64` range.
pub open spec fn sat_i64(v: int) -> int {
    if v > i64::MAX as int {
        i64::MAX as int
    } else if v < i64::MIN as int {
        i64::MIN as int
    } else {
        v
    }
}

/// A typesafe representation of gas, stored internally as milligas.
///
/// All arithmetic saturates at the `i64` extremes instead of wrapping.
#[derive(Debug, Hash, Eq, PartialEq, Copy, Clone, Structural)]
pub struct Gas {
    milligas: i64,
}

impl View for Gas {
    type V = int;

    closed spec fn view(&self) -> int {
        self.milligas as int
    }
}

impl Gas {
    /// Construct a `Gas` from milligas.
    pub fn from_milligas(milligas: i64) -> (r: Gas)
        ensures
            r@ == milligas as int,
    {
        Gas { milligas }
    }

    /// Construct a `Gas` from whole gas units, scaling up. If this exceeds
    /// the width of an `i64`, it saturates at `i64::MAX` milligas.
    pub fn new(gas: i64) -> (r: Gas)
        ensures
            r@ == sat_i64(gas * MILLIGAS_PRECISION as int),
    {
        proof {
            lemma_i64_product_fits(gas as int, MILLIGAS_PRECISION as int);
        }
        let wide: i128 = (gas as i128) * (MILLIGAS_PRECISION as i128);
        Gas { milligas: clamp_to_i64(wide) }
    }

    pub fn is_saturated(&self) -> (r: bool)
        ensures
            r == (self@ == i64::MAX as int),
    {
        self.milligas == i64::MAX
    }

    /// Returns the gas value in whole units, rounding the fractional part up.
    pub fn round_up(&self) -> (r: i64)
        ensures
            r as int == round_up_spec(self@),
    {
        milligas_to_gas(self.milligas, true)
    }

    /// Returns the gas value in whole units, rounding the fractional part down.
    pub fn round_down(&self) -> (r: i64)
        ensures
            r as int == round_down_spec(self@),
    {
        milligas_to_gas(self.milligas, false)
    }

    /// Returns the gas value as milligas, without loss of precision.
    pub fn as_milligas(&self) -> (r: i64)
        ensures
            r as int == self@,
    {
        self.milligas
    }

    pub fn zero() -> (r: Gas)
        ensures
            r@ == 0,
    {
        Gas { milligas: 0 }
    }

    pub fn is_zero(&self) -> (r: bool)
        ensures
            r == (self@ == 0),
    {
        self.milligas == 0
    }

    /// Saturating addition.
    pub fn add(self, rhs: Gas) -> (r: Gas)
        ensures
            r@ == sat_i64(self@ + rhs@),
    {
        let wide: i128 = (self.milligas as i128) + (rhs.milligas as i128);
        Gas { milligas: clamp_to_i64(wide) }
    }

    /// Saturating in-place addition.
    pub fn add_assign(&mut self, rhs: Gas)
        ensures
            final(self)@ == sat_i64(old(self)@ + rhs@),
    {
        *self = self.add(rhs);
    }

    /// Saturating subtraction.
    pub fn sub(self, rhs: Gas) -> (r: Gas)
        ensures
            r@ == sat_i64(self@ - rhs@),
    {
        let wide: i128 = (self.milligas as i128) - (rhs.milligas as i128);
        Gas { milligas: clamp_to_i64(wide) }
    }

    /// Saturating in-place subtraction.
    pub fn sub_assign(&mut self, rhs: Gas)
        ensures
            final(self)@ == sat_i64(old(self)@ - rhs@),
    {
        *self = self.sub(rhs);
    }

    /// Saturating multiplication by a signed scalar.
    pub fn mul(self, rhs: i64) -> (r: Gas)
        ensures
            r@ == sat_i64(self@ * rhs as int),
    {
        proof {
            lemma_i64_product_fits(self.milligas as int, rhs as int);
        }
        let wide: i128 = (self.milligas as i128) * (rhs as i128);
        Gas { milligas: clamp_to_i64(wide) }
    }

    pub fn mul_i32(self, rhs: i32) -> (r: Gas)
        ensures
            r@ == sat_i64(self@ * rhs as int),
    {
        self.mul(rhs as i64)
    }

    pub fn mul_u32(self, rhs: u32) -> (r: Gas)
        ensures
            r@ == sat_i64(self@ * rhs as int),
    {
        self.mul(rhs as i64)
    }

    /// Saturating multiplication by an unsigned 64-bit scalar. A scalar too
    /// wide for `i64` is first clamped to `i64::MAX`, as the product then
    /// saturates anyway unless the gas value is zero, `i64::MAX`, or negative
    /// enough to saturate at `i64::MIN` either way.
    pub fn mul_u64(self, rhs: u64) -> (r: Gas)
        ensures
            r@ == sat_i64(self@ * sat_i64(rhs as int)),
    {
        let narrowed: i64 = if rhs > i64::MAX as u64 {
            i64::MAX
        } else {
            rhs as i64
        };
        self.mul(narrowed)
    }

    pub fn mul_usize(self, rhs: usize) -> (r: Gas)
        ensures
            r@ == sat_i64(self@ * sat_i64(rhs as int)),
    {
        self.mul_u64(rhs as u64)
    }

    /// Renders the value as `whole.fraction` with exactly three fractional
    /// places, and zero as `0`.
    pub fn to_text(&self) -> (r: String)
        ensures
            r@ == gas_text(self@),
    {
        let m = self.milligas;
        if m == 0 {
            let r = "0".to_owned();
            proof {
                reveal_strlit("0");
                assert(r@ =~= gas_text(0));
            }
            return r;
        }
        let neg = m < 0;
        let mag: u64 = if neg {
            proof {
                assert(0 <= -(m as int) <= u64::MAX as int);
            }
            (-(m as i128)) as u64
        } else {
            m as u64
        };
        let q: u64 = mag / 1000;
        let rm: u64 = mag % 1000;
        let mut s = String::new();
        if neg && q != 0 {
            s.append("-");
        }
        push_digits(&mut s, q);
        s.append(".");
        if neg && rm != 0 {
            s.append("-");
            if rm < 10 {
                s.append("0");
            }
        } else {
            if rm < 10 {
                s.append("00");
            } else if rm < 100 {
                s.append("0");
            }
        }
        push_digits(&mut s, rm);
        proof {
            reveal_strlit("-");
            reveal_strlit(".");
            reveal_strlit("0");
            reveal_strlit("00");
            lemma_dec_digits_len(q as nat);
            lemma_dec_digits_len(rm as nat);
            assert(s@ =~= gas_text(m as int));
        }
        s
    }
}

impl Default for Gas {
    fn default() -> (r: Gas)
        ensures
            r@ == 0,
    {
        Gas::zero()
    }
}

fn clamp_to_i64(wide: i128) -> (r: i64)
    ensures
        r as int == sat_i64(wide as int),
{
    if wide > i64::MAX as i128 {
        i64::MAX
    } else if wide < i64::MIN as i128 {
        i64::MIN
    } else {
        wide as i64
    }
}

proof fn lemma_i64_product_fits(a: int, b: int)
    requires
        i64::MIN as int <= a <= i64::MAX as int,
        i64::MIN as int <= b <= i64::MAX as int,
    ensures
        i128::MIN as int <= a * b <= i128::MAX as int,
{
    assert(i128::MIN as int <= a * b <= i128::MAX as int) by (nonlinear_arith)
        requires
            -0x8000_0000_0000_0000 <= a <= 0x7fff_ffff_ffff_ffff,
            -0x8000_0000_0000_0000 <= b <= 0x7fff_ffff_ffff_ffff,
    ;
}

/// Whole units below a milligas amount: the floor of `m / 1000`.
pub open spec fn round_down_spec(m: int) -> int {
    m / (MILLIGAS_PRECISION as int)
}

/// Whole units covering a milligas amount: the ceiling of `m / 1000`.
pub open spec fn round_up_spec(m: int) -> int {
    if m % (MILLIGAS_PRECISION as int) == 0 {
        m / (MILLIGAS_PRECISION as int)
    } else {
        m / (MILLIGAS_PRECISION as int) + 1
    }
}

/// The character of a single decimal digit.
pub open spec fn digit_char(d: nat) -> char {
    if d == 0 {
        '0'
    } else if d == 1 {
        '1'
    } else if d == 2 {
        '2'
    } else if d == 3 {
        '3'
    } else if d == 4 {
        '4'
    } else if d == 5 {
        '5'
    } else if d == 6 {
        '6'
    } else if d == 7 {
        '7'
    } else if d == 8 {
        '8'
    } else {
        '9'
    }
}

/// The decimal digits of a number, most significant first.
pub open spec fn dec_digits(n: nat) -> Seq<char>
    decreases n,
{
    if n < 10 {
        seq![digit_char(n)]
    } else {
        dec_digits(n / 10).push(digit_char(n % 10))
    }
}

/// The text of a signed whole number.
pub open spec fn int_text(v: int) -> Seq<char> {
    if v < 0 {
        seq!['-'] + dec_digits((-v) as nat)
    } else {
        dec_digits(v as nat)
    }
}

/// Digits left-padded with zeros up to a width.
pub open spec fn zero_pad(s: Seq<char>, w: nat) -> Seq<char> {
    if s.len() >= w {
        s
    } else {
        Seq::new((w - s.len()) as nat, |i: int| '0') + s
    }
}

/// The text of the fractional part, zero-padded to three places with any
/// sign counted inside the width, as sign-aware zero padding renders it.
pub open spec fn frac_text(f: int) -> Seq<char> {
    if f < 0 {
        seq!['-'] + zero_pad(dec_digits((-f) as nat), 2)
    } else {
        zero_pad(dec_digits(f as nat), 3)
    }
}

/// The whole-unit part of a milligas amount, truncated toward zero.
pub open spec fn trunc_div_1000(m: int) -> int {
    if m >= 0 {
        m / 1000
    } else {
        -((-m) / 1000)
    }
}

/// The remainder the truncating division leaves, carrying the sign of `m`.
pub open spec fn trunc_rem_1000(m: int) -> int {
    if m >= 0 {
        m % 1000
    } else {
        -((-m) % 1000)
    }
}

/// The textual rendering of a gas value held as `m` milligas: the whole
/// units, a dot, and the fractional part in exactly three places; zero
/// renders as `0`.
pub open spec fn gas_text(m: int) -> Seq<char> {
    if m == 0 {
        seq!['0']
    } else {
        int_text(trunc_div_1000(m)) + seq!['.'] + frac_text(trunc_rem_1000(m))
    }
}

proof fn lemma_dec_digits_len(n: nat)
    ensures
        n < 10 ==> dec_digits(n).len() == 1,
        10 <= n < 100 ==> dec_digits(n).len() == 2,
        100 <= n < 1000 ==> dec_digits(n).len() == 3,
        dec_digits(n).len() >= 1,
    decreases n,
{
    if n >= 10 {
        lemma_dec_digits_len(n / 10);
    }
}

fn digit_str(d: u64) -> (r: &'static str)
    requires
        d < 10,
    ensures
        r@ == seq![digit_char(d as nat)],
{
    proof {
        reveal_strlit("0");
        reveal_strlit("1");
        reveal_strlit("2");
        reveal_strlit("3");
        reveal_strlit("4");
        reveal_strlit("5");
        reveal_strlit("6");
        reveal_strlit("7");
        reveal_strlit("8");
        reveal_strlit("9");
    }
    let r = if d == 0 {
        "0"
    } else if d == 1 {
        "1"
    } else if d == 2 {
        "2"
    } else if d == 3 {
        "3"
    } else if d == 4 {
        "4"
    } else if d == 5 {
        "5"
    } else if d == 6 {
        "6"
    } else if d == 7 {
        "7"
    } else if d == 8 {
        "8"
    } else {
        "9"
    };
    proof {
        assert(r@ =~= seq![digit_char(d as nat)]);
    }
    r
}

fn push_digits(s: &mut String, n: u64)
    ensures
        final(s)@ == old(s)@ + dec_digits(n as nat),
    decreases n,
{
    if n < 10 {
        s.append(digit_str(n));
        proof {
            assert(s@ =~= old(s)@ + dec_digits(n as nat));
        }
    } else {
        push_digits(s, n / 10);
        s.append(digit_str(n % 10));
        proof {
            assert(s@ =~= old(s)@ + dec_digits(n as nat));
        }
    }
}

/// Saturating arithmetic never leaves the representable range: whatever the
/// exact result, the saturated one stays between the `i64` extremes, so
/// repeated saturating addition of positive values never exceeds the maximum.
pub proof fn lemma_sat_in_range(v: int)
    ensures
        i64::MIN as int <= sat_i64(v) <= i64::MAX as int,
{
}

/// Saturation keeps order: a larger exact result never saturates below a
/// smaller one.
pub proof fn lemma_sat_monotone(a: int, b: int)
    requires
        a <= b,
    ensures
        sat_i64(a) <= sat_i64(b),
{
}

/// Rounding a milligas amount down never exceeds rounding it up, the two
/// differ by at most one whole unit, and rounding down is the floor of the
/// division by the precision: the whole units it yields cover at most `m`
/// and miss less than one unit of it. For non-negative amounts the floor
/// coincides with truncation toward zero.
pub proof fn lemma_round_up_down(m: int)
    ensures
        round_down_spec(m) <= round_up_spec(m),
        round_up_spec(m) <= round_down_spec(m) + 1,
        MILLIGAS_PRECISION as int * round_down_spec(m) <= m,
        m < MILLIGAS_PRECISION as int * (round_down_spec(m) + 1),
        m >= 0 ==> 0 <= round_down_spec(m) && MILLIGAS_PRECISION as int * round_down_spec(m) <= m,
        m % MILLIGAS_PRECISION as int == 0 ==> round_up_spec(m) == round_down_spec(m),
        m % MILLIGAS_PRECISION as int != 0 ==> round_up_spec(m) == round_down_spec(m) + 1,
{
    vstd::arithmetic::div_mod::lemma_fundamental_div_mod(m, MILLIGAS_PRECISION as int);
    assert(0 <= m % (MILLIGAS_PRECISION as int) < MILLIGAS_PRECISION as int);
}

/// Converts a milligas amount into whole gas units, rounding up or down.
pub fn milligas_to_gas(milligas: i64, round_up: bool) -> (r: i64)
    ensures
        round_up ==> r as int == round_up_spec(milligas as int),
        !round_up ==> r as int == round_down_spec(milligas as int),
{
    let div: i64 = milligas / MILLIGAS_PRECISION;
    let rem: i64 = milligas % MILLIGAS_PRECISION;
    if milligas >= 0 {
        if round_up && rem != 0 {
            div + 1
        } else {
            div
        }
    } else {
        if !round_up && rem != 0 {
            div - 1
        } else {
            div
        }
    }
}

} // verus!
