//! Normalisation of the venue's decimal strings.
//!
//! The venue emits amounts at on-chain token precision: a volume comes back as
//! `"0.001390000000000000"`, eighteen decimal places. The engine's fixed-point types cap
//! precision at [`FIXED_PRECISION`], so every decimal string crossing this boundary is
//! normalised: trailing zeros are stripped (lossless, and enough in the common case), and
//! only a value with more significant decimals than the cap is rounded, half to even.
use vstd::prelude::*;

use crate::text::{decimal, owned, push_char, push_str, u64_decimal};

verus! {

/// Decimal places the engine's fixed-point types carry in their standard build.
pub const FIXED_PRECISION: u32 = 9;

/// Why a decimal string could not be normalised; carries the input.
#[derive(Debug, Clone, PartialEq, Eq)]
pub struct DecimalError(pub String);

/// A decimal number as sign, integer mantissa and scale: `(-1)^negative * mantissa / 10^scale`.
#[derive(Debug, Clone, Copy, PartialEq, Eq, Structural)]
pub struct DecimalParts {
    pub negative: bool,
    pub mantissa: u128,
    pub scale: u32,
}

/// The number a decimal string denotes, as `rust_decimal` parses it; `None` when it does
/// not parse.
pub uninterp spec fn decimal_from_str(raw: Seq<char>) -> Option<DecimalParts>;

/// Parses a decimal string with `rust_decimal::Decimal::from_str`, returning its sign,
/// mantissa and scale. The contract names the outcome and states the documented bounds of
/// the type: a scale of at most 28 and a 96-bit mantissa. Which texts parse is left to the
/// name.
#[verifier::external_body]
pub(crate) fn parse_decimal(raw: &str) -> (r: Option<DecimalParts>)
    ensures
        r == decimal_from_str(raw@),
        r matches Some(d) ==> d.scale <= 28 && d.mantissa < 0x1_0000_0000_0000_0000_0000_0000,
{
    match <rust_decimal::Decimal as core::str::FromStr>::from_str(raw) {
        Ok(d) => Some(
            DecimalParts {
                negative: d.is_sign_negative(),
                mantissa: d.mantissa().unsigned_abs(),
                scale: d.scale(),
            },
        ),
        Err(_) => None,
    }
}

pub open spec fn pow10(n: nat) -> nat
    decreases n,
{
    if n == 0 {
        1
    } else {
        10 * pow10((n - 1) as nat)
    }
}

proof fn lemma_pow10_bounds(a: nat, b: nat)
    requires
        a <= b,
    ensures
        1 <= pow10(a) <= pow10(b),
    decreases b,
{
    if b > a {
        lemma_pow10_bounds(a, (b - 1) as nat);
    } else if a > 0 {
        lemma_pow10_bounds((a - 1) as nat, (a - 1) as nat);
    }
}

fn pow10_u128(n: u32) -> (p: u128)
    requires
        n <= 28,
    ensures
        p == pow10(n as nat),
        1 <= p <= pow10(28),
{
    let mut p: u128 = 1;
    let mut i: u32 = 0;
    proof {
        assert(pow10(28) == 10000000000000000000000000000) by {
            reveal_with_fuel(pow10, 30);
        }
    }
    while i < n
        invariant
            i <= n <= 28,
            p == pow10(i as nat),
            pow10(28) == 10000000000000000000000000000,
        decreases n - i,
    {
        proof {
            lemma_pow10_bounds((i + 1) as nat, 28);
        }
        p = p * 10;
        i = i + 1;
    }
    proof {
        lemma_pow10_bounds(n as nat, 28);
        lemma_pow10_bounds(0, n as nat);
    }
    p
}

/// Trailing zeros removed from the fraction.
pub open spec fn strip_zeros(m: nat, s: nat) -> (nat, nat)
    decreases s,
{
    if s > 0 && m % 10 == 0 {
        strip_zeros(m / 10, (s - 1) as nat)
    } else {
        (m, s)
    }
}

/// `Decimal::normalize`: strips trailing zeros and turns negative zero into zero.
pub open spec fn spec_normalize(d: DecimalParts) -> DecimalParts {
    if d.mantissa == 0 {
        DecimalParts { negative: false, mantissa: 0, scale: 0 }
    } else {
        let (m, s) = strip_zeros(d.mantissa as nat, d.scale as nat);
        DecimalParts { negative: d.negative, mantissa: m as u128, scale: s as u32 }
    }
}

/// `Decimal::round_dp`: rounds to `dp` places, ties to even, keeping the sign unless the
/// result is zero. A value already within `dp` places is unchanged.
pub open spec fn spec_round_dp(d: DecimalParts, dp: u32) -> DecimalParts {
    if d.scale <= dp {
        d
    } else {
        let p = pow10((d.scale - dp) as nat);
        let m = d.mantissa as nat;
        let q = m / p;
        let r = m % p;
        let half = 5 * pow10((d.scale - dp - 1) as nat);
        let up = r > half || (r == half && q % 2 == 1);
        let rounded = if up {
            q + 1
        } else {
            q
        };
        DecimalParts { negative: d.negative && rounded != 0, mantissa: rounded as u128, scale: dp }
    }
}

pub open spec fn zeros(n: nat) -> Seq<char> {
    Seq::new(n, |i: int| '0')
}

/// The digits of the mantissa, at least `scale + 1` of them... or exactly as many as the
/// mantissa has when there is no fraction: no digits at all for a zero mantissa.
pub open spec fn padded_digits(m: nat, s: nat) -> Seq<char> {
    let d = if m == 0 {
        Seq::<char>::empty()
    } else {
        decimal(m)
    };
    if d.len() < s {
        zeros((s - d.len()) as nat) + d
    } else {
        d
    }
}

/// How `Decimal` displays: a `-` for a negative sign, the integer digits (`0` when there
/// are none), then a point and exactly `scale` fraction digits when the scale is positive.
pub open spec fn decimal_text(d: DecimalParts) -> Seq<char> {
    let digits = padded_digits(d.mantissa as nat, d.scale as nat);
    let whole = digits.take(digits.len() - d.scale);
    let frac = digits.skip(digits.len() - d.scale);
    let sign = if d.negative {
        seq!['-']
    } else {
        Seq::<char>::empty()
    };
    let int_part = if whole.len() == 0 {
        seq!['0']
    } else {
        whole
    };
    sign + int_part + if d.scale > 0 {
        seq!['.'] + frac
    } else {
        Seq::<char>::empty()
    }
}

/// Normalised and capped at `max_scale` places.
pub open spec fn spec_capped(d: DecimalParts, max_scale: u32) -> DecimalParts {
    let n = spec_normalize(d);
    if n.scale > max_scale {
        spec_round_dp(n, max_scale)
    } else {
        n
    }
}

/// What normalising a decimal string yields.
pub open spec fn normalize_outcome(raw: Seq<char>, max_scale: u32) -> Option<Seq<char>> {
    match decimal_from_str(raw) {
        Some(d) => Some(decimal_text(spec_capped(d, max_scale))),
        None => None,
    }
}

fn normalize_parts(d: DecimalParts) -> (n: DecimalParts)
    requires
        d.scale <= 28,
    ensures
        n == spec_normalize(d),
        n.scale <= d.scale,
        n.mantissa <= d.mantissa,
{
    if d.mantissa == 0 {
        return DecimalParts { negative: false, mantissa: 0, scale: 0 };
    }
    let mut m = d.mantissa;
    let mut s = d.scale;
    while s > 0 && m % 10 == 0
        invariant
            strip_zeros(m as nat, s as nat) == strip_zeros(d.mantissa as nat, d.scale as nat),
            s <= d.scale,
            m <= d.mantissa,
        decreases s,
    {
        m = m / 10;
        s = s - 1;
    }
    DecimalParts { negative: d.negative, mantissa: m, scale: s }
}

fn round_parts(d: DecimalParts, dp: u32) -> (r: DecimalParts)
    requires
        d.scale <= 28,
        d.mantissa < 0x1_0000_0000_0000_0000_0000_0000,
    ensures
        r == spec_round_dp(d, dp),
{
    if d.scale <= dp {
        return d;
    }
    let p = pow10_u128(d.scale - dp);
    let q = d.mantissa / p;
    let rem = d.mantissa % p;
    let half_pow = pow10_u128(d.scale - dp - 1);
    proof {
        assert(pow10((d.scale - dp) as nat) == 10 * pow10((d.scale - dp - 1) as nat));
        assert(q <= d.mantissa) by (nonlinear_arith)
            requires
                p >= 1,
                q == d.mantissa / p,
        ;
    }
    let half = 5 * half_pow;
    let up = rem > half || (rem == half && q % 2 == 1);
    let m = if up {
        q + 1
    } else {
        q
    };
    DecimalParts { negative: d.negative && m != 0, mantissa: m, scale: dp }
}

pub(crate) fn decimal_parts_text(d: DecimalParts) -> (s: String)
    ensures
        s@ == decimal_text(d),
{
    let mut digits: Vec<char> = Vec::new();
    if d.mantissa > 0 {
        let t = u128_decimal(d.mantissa);
        digits = crate::text::chars_of(t.as_str());
    }
    let ghost d0 = digits@;
    proof {
        assert(d0 == if d.mantissa == 0 { Seq::<char>::empty() } else { decimal(d.mantissa as nat) });
    }
    let scale = d.scale as usize;
    if digits.len() < scale {
        let mut padded: Vec<char> = Vec::new();
        let missing = scale - digits.len();
        let mut i: usize = 0;
        while i < missing
            invariant
                i <= missing,
                padded@ == zeros(i as nat),
            decreases missing - i,
        {
            padded.push('0');
            proof {
                assert(padded@ =~= zeros((i + 1) as nat));
            }
            i = i + 1;
        }
        let mut j: usize = 0;
        while j < digits.len()
            invariant
                j <= digits.len(),
                digits@ == d0,
                padded@ == zeros(missing as nat) + d0.take(j as int),
            decreases digits.len() - j,
        {
            padded.push(digits[j]);
            proof {
                assert(padded@ =~= zeros(missing as nat) + d0.take(j + 1));
            }
            j = j + 1;
        }
        proof {
            assert(d0.take(d0.len() as int) == d0);
        }
        digits = padded;
    }
    let ghost all = digits@;
    proof {
        assert(all == padded_digits(d.mantissa as nat, d.scale as nat));
    }
    let whole_len = digits.len() - scale;
    let mut out = String::new();
    if d.negative {
        push_char(&mut out, '-');
    }
    let ghost sign = out@;
    if whole_len == 0 {
        push_char(&mut out, '0');
    } else {
        let mut i: usize = 0;
        while i < whole_len
            invariant
                i <= whole_len <= digits.len(),
                digits@ == all,
                out@ == sign + all.take(i as int),
            decreases whole_len - i,
        {
            push_char(&mut out, digits[i]);
            proof {
                assert(all.take(i + 1) == all.take(i as int).push(all[i as int]));
            }
            i = i + 1;
        }
    }
    let ghost head = out@;
    proof {
        let whole = all.take(whole_len as int);
        assert(head == sign + (if whole.len() == 0 { seq!['0'] } else { whole }));
    }
    if scale > 0 {
        push_char(&mut out, '.');
        let mut k: usize = whole_len;
        while k < digits.len()
            invariant
                whole_len <= k <= digits.len(),
                digits@ == all,
                out@ == head + seq!['.'] + all.subrange(whole_len as int, k as int),
            decreases digits.len() - k,
        {
            push_char(&mut out, digits[k]);
            proof {
                assert(all.subrange(whole_len as int, k + 1) == all.subrange(whole_len as int, k as int).push(all[k as int]));
            }
            k = k + 1;
        }
        proof {
            assert(all.subrange(whole_len as int, all.len() as int) == all.skip(whole_len as int));
            assert(out@ =~= head + (seq!['.'] + all.skip(whole_len as int)));
        }
    } else {
        proof {
            assert(out@ =~= head + Seq::<char>::empty());
        }
    }
    out
}

/// Renders a 128-bit integer in base 10.
fn u128_decimal(n: u128) -> (s: String)
    ensures
        s@ == decimal(n as nat),
{
    let mut rev: Vec<char> = Vec::new();
    let mut m: u128 = n;
    while m >= 10
        invariant
            decimal(n as nat) == decimal(m as nat) + crate::text::reversed(rev@),
        decreases m,
    {
        let c = ((m % 10) as u8 + 48) as char;
        proof {
            assert(decimal(m as nat) == decimal((m / 10) as nat).push(crate::text::digit_char((m % 10) as nat)));
            assert(rev@.push(c).drop_last() == rev@);
            assert(crate::text::reversed(rev@.push(c)) == seq![c] + crate::text::reversed(rev@));
            assert(decimal((m / 10) as nat).push(c) + crate::text::reversed(rev@) =~= decimal((m / 10) as nat) + (seq![c] + crate::text::reversed(rev@)));
        }
        rev.push(c);
        m = m / 10;
    }
    let mut out = String::new();
    push_char(&mut out, ((m as u8) + 48) as char);
    let ghost first = out@;
    let mut i: usize = rev.len();
    while i > 0
        invariant
            i <= rev.len(),
            out@ == first + crate::text::reversed(rev@.skip(i as int)),
            decimal(n as nat) == decimal(m as nat) + crate::text::reversed(rev@),
            decimal(m as nat) == first,
        decreases i,
    {
        i = i - 1;
        proof {
            assert(rev@.skip(i as int) == seq![rev@[i as int]] + rev@.skip(i + 1));
            crate::text::lemma_reversed_prepend(rev@[i as int], rev@.skip(i + 1));
        }
        push_char(&mut out, rev[i]);
    }
    proof {
        assert(rev@.skip(0) == rev@);
    }
    out
}

/// Rewrites a decimal string with trailing zeros stripped and at most `max_scale` places,
/// rounding half to even only when significant digits exceed the cap.
pub fn normalize_to(raw: &str, max_scale: u32) -> (r: Result<String, DecimalError>)
    ensures
        normalize_outcome(raw@, max_scale) matches Some(t) ==> (r matches Ok(s) && s@ == t),
        normalize_outcome(raw@, max_scale) is None ==> (r matches Err(e) && e.0@ == raw@),
{
    match parse_decimal(raw) {
        None => Err(DecimalError(owned(raw))),
        Some(d) => {
            let n = normalize_parts(d);
            let capped = if n.scale > max_scale {
                round_parts(n, max_scale)
            } else {
                n
            };
            Ok(decimal_parts_text(capped))
        },
    }
}

/// Rewrites a venue decimal string so its precision fits the engine's fixed-point types.
pub fn normalize(raw: &str) -> (r: Result<String, DecimalError>)
    ensures
        normalize_outcome(raw@, FIXED_PRECISION) matches Some(t) ==> (r matches Ok(s) && s@ == t),
        normalize_outcome(raw@, FIXED_PRECISION) is None ==> (r matches Err(e) && e.0@ == raw@),
{
    normalize_to(raw, FIXED_PRECISION)
}

/// The result never carries more places than the cap, and a value already within the cap
/// keeps exactly its significant digits.
pub proof fn lemma_capped_scale(d: DecimalParts, max_scale: u32)
    requires
        d.scale <= 28,
    ensures
        spec_capped(d, max_scale).scale <= max_scale,
        spec_normalize(d).scale <= max_scale ==> spec_capped(d, max_scale) == spec_normalize(d),
{
}

} // verus!
