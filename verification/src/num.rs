//! Exact decimal arithmetic and numeric parsing.
//!
//! Monetary amounts and quantities are decimals `mant / 10^scale` with an
//! explicit sign, so every financial computation of the engine is exact and
//! its rounding is stated precisely. The locale parser follows the vendors'
//! shared convention: dots are thousands separators, the comma is the decimal
//! point, and a minus anywhere makes the number negative.

use vstd::prelude::*;
use vstd::string::StrSliceExecFns;
use vstd::string::StringExecFns;
use vstd::arithmetic::div_mod::lemma_fundamental_div_mod;
use vstd::arithmetic::div_mod::lemma_mod_division_less_than_divisor;
use crate::text::spec_is_ws;
use crate::text::is_ws;
use crate::InvoiceParseError;
use crate::ParseErrorModel;

verus! {

/// An exact decimal number: `mant / 10^scale`, negated when `neg` is set.
#[derive(Clone, Copy, PartialEq, Eq, Structural, Debug)]
pub struct Decimal {
    pub neg: bool,
    pub mant: u64,
    pub scale: u32,
}

pub open spec fn pow10(e: nat) -> nat
    decreases e,
{
    if e == 0 {
        1
    } else {
        10 * pow10((e - 1) as nat)
    }
}

pub proof fn lemma_pow10_mono(a: nat, b: nat)
    requires
        a <= b,
    ensures
        1 <= pow10(a) <= pow10(b),
    decreases b,
{
    if b > 0 {
        if a == b {
            lemma_pow10_mono((a - 1) as nat, (b - 1) as nat);
        } else {
            lemma_pow10_mono(a, (b - 1) as nat);
        }
    }
}

pub proof fn lemma_pow10_18()
    ensures
        pow10(18) == 1_000_000_000_000_000_000,
{
    reveal_with_fuel(pow10, 20);
}

pub proof fn lemma_pow10_9()
    ensures
        pow10(9) == 1_000_000_000,
{
    reveal_with_fuel(pow10, 11);
}

proof fn lemma_neg_mul(a: int, b: int)
    ensures
        (-a) * b == -(a * b),
{
    assert((-a) * b == -(a * b)) by (nonlinear_arith);
}

/// 10 to the power `e`.
pub fn pow10_u64(e: u32) -> (r: u64)
    requires
        e <= 18,
    ensures
        r == pow10(e as nat),
        1 <= r <= 1_000_000_000_000_000_000,
{
    proof {
        lemma_pow10_mono(e as nat, 18);
        lemma_pow10_18();
    }
    let mut r: u64 = 1;
    let mut i: u32 = 0;
    while i < e
        invariant
            i <= e <= 18,
            r == pow10(i as nat),
        decreases e - i,
    {
        proof {
            lemma_pow10_mono(i as nat + 1, 18);
            lemma_pow10_18();
        }
        r = r * 10;
        i = i + 1;
    }
    r
}

/// Rounding division: `a / b` rounded to the nearest integer, halves away
/// from zero (both arguments non-negative, `b` positive).
pub open spec fn round_div(a: int, b: int) -> int
    recommends
        a >= 0,
        b > 0,
{
    (2 * a + b) / (2 * b)
}

/// Computes `round_div` on machine integers.
fn round_div_u128(a: u128, b: u128) -> (r: u128)
    requires
        b > 0,
        a <= 0x7fff_ffff_ffff_ffff_ffff_ffff_ffff_fffd,
        b <= 0x7fff_ffff_ffff_ffff_ffff_ffff_ffff_fffd,
        2 * a + b <= u128::MAX,
    ensures
        r == round_div(a as int, b as int),
        r * (2 * b) <= 2 * a + b,
{
    let r = (2 * a + b) / (2 * b);
    proof {
        let x = 2 * a as int + b as int;
        let y = 2 * b as int;
        lemma_fundamental_div_mod(x, y);
        lemma_mod_division_less_than_divisor(x, y);
        assert((x / y) * y == y * (x / y)) by (nonlinear_arith);
    }
    r
}

impl Decimal {
    /// Signed numerator of the denoted value.
    pub open spec fn num(self) -> int {
        if self.neg {
            -(self.mant as int)
        } else {
            self.mant as int
        }
    }

    /// Denominator of the denoted value.
    pub open spec fn den(self) -> nat {
        pow10(self.scale as nat)
    }

    /// Every decimal the engine produces keeps its scale within this bound.
    pub open spec fn wf(self) -> bool {
        self.scale <= 18
    }

    /// Whether `self` and `other` denote the same number.
    pub open spec fn same_value(self, other: Decimal) -> bool {
        self.num() * other.den() as int == other.num() * self.den() as int
    }

    /// Decides numeric equality of two decimals.
    pub fn eq_value(&self, other: &Decimal) -> (r: bool)
        requires
            self.wf(),
            other.wf(),
        ensures
            r == self.same_value(*other),
    {
        let da = pow10_u64(self.scale);
        let db = pow10_u64(other.scale);
        proof {
            assert((self.mant as int) * (db as int) <= 0xffff_ffff_ffff_ffff
                * 1_000_000_000_000_000_000) by (nonlinear_arith)
                requires
                    self.mant <= 0xffff_ffff_ffff_ffff,
                    db <= 1_000_000_000_000_000_000,
            ;
            assert((other.mant as int) * (da as int) <= 0xffff_ffff_ffff_ffff
                * 1_000_000_000_000_000_000) by (nonlinear_arith)
                requires
                    other.mant <= 0xffff_ffff_ffff_ffff,
                    da <= 1_000_000_000_000_000_000,
            ;
        }
        let lhs: u128 = (self.mant as u128) * (db as u128);
        let rhs: u128 = (other.mant as u128) * (da as u128);
        proof {
            lemma_neg_mul(self.mant as int, other.den() as int);
            lemma_neg_mul(other.mant as int, self.den() as int);
        }
        if lhs == 0 && rhs == 0 {
            true
        } else {
            self.neg == other.neg && lhs == rhs
        }
    }
}

/// The greatest mantissa (exclusive) the locale parser accepts: nine
/// significant digits, the precision invoice amounts need.
pub open spec fn spec_mant_cap() -> nat {
    1_000_000_000
}

// ------------------------------------------------------------------
// The locale numeric convention: strip dots and whitespace, note and strip
// the minus, turn the comma into a decimal point, then read a decimal
// literal.
// ------------------------------------------------------------------
/// Step one of the convention: `s` without dots and whitespace.
pub open spec fn spec_strip_dots_ws(s: Seq<char>) -> Seq<char>
    decreases s.len(),
{
    if s.len() == 0 {
        Seq::empty()
    } else {
        let rest = spec_strip_dots_ws(s.drop_last());
        if s.last() == '.' || spec_is_ws(s.last()) {
            rest
        } else {
            rest.push(s.last())
        }
    }
}

/// Whether a minus sign occurs anywhere in `s`.
pub open spec fn spec_has_minus(s: Seq<char>) -> bool
    decreases s.len(),
{
    if s.len() == 0 {
        false
    } else {
        s.last() == '-' || spec_has_minus(s.drop_last())
    }
}

/// `s` without minus signs.
pub open spec fn spec_strip_minus(s: Seq<char>) -> Seq<char>
    decreases s.len(),
{
    if s.len() == 0 {
        Seq::empty()
    } else {
        let rest = spec_strip_minus(s.drop_last());
        if s.last() == '-' {
            rest
        } else {
            rest.push(s.last())
        }
    }
}

/// Every comma replaced by a decimal point.
pub open spec fn spec_commas_to_dots(s: Seq<char>) -> Seq<char>
    decreases s.len(),
{
    if s.len() == 0 {
        Seq::empty()
    } else {
        spec_commas_to_dots(s.drop_last()).push(
            if s.last() == ',' {
                '.'
            } else {
                s.last()
            },
        )
    }
}

/// The cleaned literal: dots and whitespace stripped, minus stripped,
/// commas turned into decimal points.
pub open spec fn spec_locale_clean(s: Seq<char>) -> Seq<char> {
    spec_commas_to_dots(spec_strip_minus(spec_strip_dots_ws(s)))
}

/// How one appended character changes the cleaning pipeline.
proof fn lemma_locale_clean_push(s: Seq<char>, c: char)
    ensures
        spec_locale_clean(s.push(c)) == (if c == '.' || spec_is_ws(c) {
            spec_locale_clean(s)
        } else if c == '-' {
            spec_locale_clean(s)
        } else if c == ',' {
            spec_locale_clean(s).push('.')
        } else {
            spec_locale_clean(s).push(c)
        }),
        spec_has_minus(spec_strip_dots_ws(s.push(c))) == (spec_has_minus(spec_strip_dots_ws(s))
            || c == '-'),
{
    assert(s.push(c).drop_last() =~= s);
    let d0 = spec_strip_dots_ws(s);
    if c == '.' || spec_is_ws(c) {
        assert(spec_strip_dots_ws(s.push(c)) == d0);
        assert(!(c == '-'));
    } else {
        assert(spec_strip_dots_ws(s.push(c)) == d0.push(c));
        assert(d0.push(c).drop_last() =~= d0);
        assert(spec_has_minus(d0.push(c)) == (c == '-' || spec_has_minus(d0)));
        if c == '-' {
            assert(spec_strip_minus(d0.push(c)) == spec_strip_minus(d0));
        } else {
            let m0 = spec_strip_minus(d0);
            assert(spec_strip_minus(d0.push(c)) == m0.push(c));
            assert(m0.push(c).drop_last() =~= m0);
            if c == ',' {
                assert(spec_commas_to_dots(m0.push(c)) == spec_commas_to_dots(m0).push('.'));
            } else {
                assert(spec_commas_to_dots(m0.push(c)) == spec_commas_to_dots(m0).push(c));
            }
        }
    }
}

/// How one appended character changes the literal-shape functions.
proof fn lemma_lit_push(b: Seq<char>, c: char)
    ensures
        spec_remove_dots(b.push(c)) == (if c == '.' {
            spec_remove_dots(b)
        } else {
            spec_remove_dots(b).push(c)
        }),
        spec_count_dots(b.push(c)) == spec_count_dots(b) + (if c == '.' {
            1nat
        } else {
            0nat
        }),
        spec_count_digits(b.push(c)) == spec_count_digits(b) + (if spec_is_digit(c) {
            1nat
        } else {
            0nat
        }),
        spec_has_dot(b.push(c)) == (c == '.' || spec_has_dot(b)),
        spec_frac_len(b.push(c)) == (if c == '.' {
            0nat
        } else if spec_has_dot(b) {
            spec_frac_len(b) + 1
        } else {
            0nat
        }),
{
    assert(b.push(c).drop_last() =~= b);
}

proof fn lemma_has_dot_count(b: Seq<char>)
    ensures
        spec_has_dot(b) <==> spec_count_dots(b) >= 1,
    decreases b.len(),
{
    if b.len() > 0 {
        lemma_has_dot_count(b.drop_last());
    }
}

/// How one appended digit changes the denoted number.
proof fn lemma_digits_val_push(s: Seq<char>, c: char)
    ensures
        spec_digits_val(s.push(c)) == spec_digits_val(s) * 10 + spec_digit_val(c),
{
    assert(s.push(c).drop_last() =~= s);
}

/// The literal after one optional leading plus sign.
pub open spec fn spec_lit_body(t: Seq<char>) -> Seq<char> {
    if t.len() > 0 && t[0] == '+' {
        t.drop_first()
    } else {
        t
    }
}

pub open spec fn spec_is_digit(c: char) -> bool {
    48 <= c as u32 && c as u32 <= 57
}

pub open spec fn spec_digit_val(c: char) -> nat
    recommends
        spec_is_digit(c),
{
    (c as u32 - 48) as nat
}

/// The number denoted by a digit string, most significant digit first.
pub open spec fn spec_digits_val(s: Seq<char>) -> nat
    decreases s.len(),
{
    if s.len() == 0 {
        0
    } else {
        spec_digits_val(s.drop_last()) * 10 + spec_digit_val(s.last())
    }
}

/// `b` without decimal points.
pub open spec fn spec_remove_dots(b: Seq<char>) -> Seq<char>
    decreases b.len(),
{
    if b.len() == 0 {
        Seq::empty()
    } else {
        let rest = spec_remove_dots(b.drop_last());
        if b.last() == '.' {
            rest
        } else {
            rest.push(b.last())
        }
    }
}

pub open spec fn spec_count_dots(b: Seq<char>) -> nat
    decreases b.len(),
{
    if b.len() == 0 {
        0
    } else {
        spec_count_dots(b.drop_last()) + if b.last() == '.' {
            1nat
        } else {
            0nat
        }
    }
}

pub open spec fn spec_count_digits(b: Seq<char>) -> nat
    decreases b.len(),
{
    if b.len() == 0 {
        0
    } else {
        spec_count_digits(b.drop_last()) + if spec_is_digit(b.last()) {
            1nat
        } else {
            0nat
        }
    }
}

pub open spec fn spec_has_dot(b: Seq<char>) -> bool
    decreases b.len(),
{
    if b.len() == 0 {
        false
    } else {
        b.last() == '.' || spec_has_dot(b.drop_last())
    }
}

/// The number of digits after the decimal point (0 without a point).
pub open spec fn spec_frac_len(b: Seq<char>) -> nat
    decreases b.len(),
{
    if b.len() == 0 {
        0
    } else if b.last() == '.' {
        0
    } else if spec_has_dot(b.drop_last()) {
        spec_frac_len(b.drop_last()) + 1
    } else {
        0
    }
}

pub open spec fn spec_chars_ok(b: Seq<char>) -> bool {
    forall|i: int| 0 <= i < b.len() ==> spec_is_digit(b[i]) || b[i] == '.'
}

/// Whether the cleaned text is a decimal literal: digits with at most one
/// decimal point and at least one digit, after an optional plus sign.
pub open spec fn spec_locale_valid(s: Seq<char>) -> bool {
    let b = spec_lit_body(spec_locale_clean(s));
    spec_chars_ok(b) && spec_count_dots(b) <= 1 && spec_count_digits(b) >= 1
}

pub open spec fn spec_locale_mant(s: Seq<char>) -> nat {
    spec_digits_val(spec_remove_dots(spec_lit_body(spec_locale_clean(s))))
}

pub open spec fn spec_locale_scale(s: Seq<char>) -> nat {
    spec_frac_len(spec_lit_body(spec_locale_clean(s)))
}

pub open spec fn spec_locale_neg(s: Seq<char>) -> bool {
    spec_has_minus(spec_strip_dots_ws(s))
}

/// Whether parsing succeeds: a valid literal whose mantissa and scale fit
/// the supported precision of nine significant digits.
pub open spec fn spec_locale_ok(s: Seq<char>) -> bool {
    spec_locale_valid(s) && spec_locale_mant(s) < spec_mant_cap() && spec_locale_scale(s) <= 9
}

/// The decimal a successful parse yields.
pub open spec fn spec_locale_decimal(s: Seq<char>) -> Decimal {
    Decimal {
        neg: spec_locale_neg(s),
        mant: spec_locale_mant(s) as u64,
        scale: spec_locale_scale(s) as u32,
    }
}

/// Parses a numeric literal under the locale convention: every dot
/// (thousands separator) and every whitespace character is stripped, a minus
/// anywhere negates the number, and the comma is the decimal point.
pub fn parse_locale_number(s: &str) -> (r: Result<Decimal, InvoiceParseError>)
    ensures
        r matches Ok(d) ==> spec_locale_ok(s@) && d == spec_locale_decimal(s@) && d.wf(),
        r matches Err(e) ==> !spec_locale_ok(s@) && e@ == ParseErrorModel::NumberFormat(s@),
{
    let n = s.unicode_len();
    let mut cleaned: Vec<char> = Vec::new();
    let mut neg: bool = false;
    let mut i: usize = 0;
    proof {
        assert(s@.take(0) =~= Seq::<char>::empty());
    }
    while i < n
        invariant
            i <= n,
            n == s@.len(),
            cleaned@ == spec_locale_clean(s@.take(i as int)),
            neg == spec_has_minus(spec_strip_dots_ws(s@.take(i as int))),
        decreases n - i,
    {
        let c = s.get_char(i);
        proof {
            assert(s@.take(i as int + 1) =~= s@.take(i as int).push(s@[i as int]));
            lemma_locale_clean_push(s@.take(i as int), s@[i as int]);
        }
        if c == '.' || is_ws(c) {
            // stripped
        } else if c == '-' {
            neg = true;
        } else if c == ',' {
            cleaned.push('.');
        } else {
            cleaned.push(c);
        }
        i = i + 1;
    }
    proof {
        assert(s@.take(n as int) =~= s@);
    }
    let m = cleaned.len();
    let start: usize = if m > 0 && cleaned[0] == '+' {
        1
    } else {
        0
    };
    let ghost b = spec_lit_body(cleaned@);
    proof {
        assert(cleaned@.subrange(start as int, m as int) =~= b);
    }
    let mut mant: u64 = 0;
    let mut scale: u32 = 0;
    let mut ok: bool = true;
    let mut any_digit: bool = false;
    let mut seen_dot: bool = false;
    let mut too_big: bool = false;
    let mut scale_big: bool = false;
    let mut j: usize = start;
    proof {
        assert(cleaned@.subrange(start as int, start as int) =~= Seq::<char>::empty());
    }
    while j < m
        invariant
            start <= j <= m,
            m == cleaned@.len(),
            b == spec_lit_body(cleaned@),
            cleaned@.subrange(start as int, m as int) == b,
            ok == (spec_chars_ok(cleaned@.subrange(start as int, j as int)) && spec_count_dots(
                cleaned@.subrange(start as int, j as int),
            ) <= 1),
            ok ==> seen_dot == spec_has_dot(cleaned@.subrange(start as int, j as int)),
            ok ==> any_digit == (spec_count_digits(cleaned@.subrange(start as int, j as int))
                >= 1),
            ok && !too_big ==> mant == spec_digits_val(
                spec_remove_dots(cleaned@.subrange(start as int, j as int)),
            ),
            ok && too_big ==> spec_digits_val(
                spec_remove_dots(cleaned@.subrange(start as int, j as int)),
            ) >= spec_mant_cap(),
            ok && !scale_big ==> scale == spec_frac_len(
                cleaned@.subrange(start as int, j as int),
            ),
            ok && scale_big ==> spec_frac_len(cleaned@.subrange(start as int, j as int)) > 9,
            mant < 1_000_000_000,
            scale <= 9,
        decreases m - j,
    {
        let c = cleaned[j];
        let ghost p = cleaned@.subrange(start as int, j as int);
        proof {
            assert(cleaned@.subrange(start as int, j as int + 1) =~= p.push(cleaned@[j as int]));
            lemma_lit_push(p, cleaned@[j as int]);
            if spec_is_digit(cleaned@[j as int]) {
                lemma_digits_val_push(spec_remove_dots(p), cleaned@[j as int]);
            }
            lemma_has_dot_count(p);
            lemma_has_dot_count(p.push(cleaned@[j as int]));
            let cj = cleaned@[j as int];
            if spec_chars_ok(p) && (spec_is_digit(cj) || cj == '.') {
                assert forall|k: int|
                    0 <= k < p.push(cj).len() implies spec_is_digit(#[trigger] p.push(cj)[k])
                    || p.push(cj)[k] == '.' by {
                    if k < p.len() {
                        assert(p.push(cj)[k] == p[k]);
                    } else {
                        assert(p.push(cj)[k] == cj);
                    }
                }
                assert(spec_chars_ok(p.push(cj)));
            }
            if !(spec_is_digit(cj) || cj == '.') {
                assert(p.push(cj)[p.len() as int] == cj);
                assert(!spec_chars_ok(p.push(cj)));
            }
            if !spec_chars_ok(p) {
                let k = choose|k: int|
                    0 <= k < p.len() && !(spec_is_digit(p[k]) || p[k] == '.');
                assert(p.push(cj)[k] == p[k]);
                assert(!spec_chars_ok(p.push(cj)));
            }
        }
        if ok {
            let code = c as u32;
            if 48 <= code && code <= 57 {
                let d = (code - 48) as u64;
                if !too_big {
                    if mant >= 100_000_000 {
                        too_big = true;
                    } else {
                        mant = mant * 10 + d;
                    }
                }
                if seen_dot && !scale_big {
                    if scale >= 9 {
                        scale_big = true;
                    } else {
                        scale = scale + 1;
                    }
                }
                any_digit = true;
            } else if c == '.' {
                if seen_dot {
                    ok = false;
                } else {
                    seen_dot = true;
                }
            } else {
                ok = false;
            }
        }
        j = j + 1;
    }
    if ok && any_digit && !too_big && !scale_big {
        Ok(Decimal { neg, mant, scale })
    } else {
        Err(InvoiceParseError::NumberFormat(String::from_str(s)))
    }
}

// ------------------------------------------------------------------
// Net from gross, products and quotients of decimals.
// ------------------------------------------------------------------
/// The mantissa, at scale 3, of `gross / (1 + vat)` rounded to three decimal
/// places, with `vat == vat_bp / 10000`. Equal to
/// `round(gross * (1 - vat / (1 + vat)) * 1000)`.
pub open spec fn spec_net_mant(gross: Decimal, vat_bp: u32) -> int {
    round_div(
        gross.mant as int * 10_000_000,
        pow10(gross.scale as nat) as int * (10_000 + vat_bp as int),
    )
}

/// The net amount derived from a gross amount: same sign, scale 3.
pub open spec fn spec_net_for_gross(gross: Decimal, vat_bp: u32) -> Decimal {
    Decimal { neg: gross.neg, mant: spec_net_mant(gross, vat_bp) as u64, scale: 3 }
}

/// Derives the net amount from a gross amount and a VAT rate given in basis
/// points: `round(gross * (1 - vat / (1 + vat)), 3)` with `vat = vat_bp / 10000`,
/// rounding halves away from zero.
pub fn calculate_net_for_gross(gross: &Decimal, vat_bp: u32) -> (r: Decimal)
    requires
        gross.wf(),
        gross.mant < 1_000_000_000_000,
    ensures
        r == spec_net_for_gross(*gross, vat_bp),
        r.wf(),
        r.mant <= 1_000_000_000_000_000,
{
    let den10 = pow10_u64(gross.scale);
    let a: u128 = gross.mant as u128 * 10_000_000;
    proof {
        assert((den10 as int) * (10_000 + vat_bp as int) <= 1_000_000_000_000_000_000 * (10_000
            + 0xffff_ffff)) by (nonlinear_arith)
            requires
                den10 <= 1_000_000_000_000_000_000,
                vat_bp <= 0xffff_ffff,
        ;
        assert((den10 as int) * (10_000 + vat_bp as int) >= 10_000) by (nonlinear_arith)
            requires
                den10 >= 1,
                vat_bp >= 0,
        ;
    }
    let b: u128 = den10 as u128 * (10_000 + vat_bp as u128);
    let q = round_div_u128(a, b);
    proof {
        assert(q <= 1_000_000_000_000_000) by (nonlinear_arith)
            requires
                q * (2 * b) <= 2 * a + b,
                a < 10_000_000_000_000_000_000,
                b >= 10_000,
        ;
    }
    Decimal { neg: gross.neg, mant: q as u64, scale: 3 }
}

/// The exact product of two decimals: mantissas multiply, scales add, signs
/// combine.
pub open spec fn spec_dec_mul(a: Decimal, b: Decimal) -> Decimal {
    Decimal {
        neg: a.neg != b.neg,
        mant: (a.mant * b.mant) as u64,
        scale: (a.scale + b.scale) as u32,
    }
}

/// Multiplies two decimals exactly.
pub fn dec_mul(a: &Decimal, b: &Decimal) -> (r: Decimal)
    requires
        a.mant < 1_000_000_000,
        b.mant < 1_000_000_000,
        a.scale <= 9,
        b.scale <= 9,
    ensures
        r == spec_dec_mul(*a, *b),
        r.wf(),
        r.mant < 1_000_000_000_000_000_000,
{
    proof {
        assert((a.mant as int) * (b.mant as int) < 1_000_000_000 * 1_000_000_000)
            by (nonlinear_arith)
            requires
                a.mant < 1_000_000_000,
                b.mant < 1_000_000_000,
        ;
    }
    Decimal { neg: a.neg != b.neg, mant: a.mant * b.mant, scale: a.scale + b.scale }
}

/// The mantissa, at scale 3, of `n / d` rounded to three decimal places.
pub open spec fn spec_div3_mant(n: Decimal, d: Decimal) -> int {
    round_div(
        n.mant as int * pow10(d.scale as nat) as int * 1000,
        pow10(n.scale as nat) as int * d.mant as int,
    )
}

/// `n / d` rounded to three decimal places; `None` when `d` denotes zero or
/// the result does not fit.
pub open spec fn spec_dec_div3(n: Decimal, d: Decimal) -> Option<Decimal> {
    if d.mant == 0 || spec_div3_mant(n, d) > u64::MAX {
        None
    } else {
        Some(Decimal { neg: n.neg != d.neg, mant: spec_div3_mant(n, d) as u64, scale: 3 })
    }
}

/// Divides `n` by `d` and rounds to three decimal places, halves away from
/// zero.
pub fn dec_div_round3(n: &Decimal, d: &Decimal) -> (r: Option<Decimal>)
    requires
        n.mant <= 10_000_000_000_000_000,
        n.scale <= 9,
        d.mant < 1_000_000_000,
        d.scale <= 9,
    ensures
        r == spec_dec_div3(*n, *d),
        r matches Some(q) ==> q.wf(),
{
    if d.mant == 0 {
        return None;
    }
    proof {
        lemma_pow10_mono(d.scale as nat, 9);
        lemma_pow10_mono(n.scale as nat, 9);
        lemma_pow10_9();
    }
    let np = pow10_u64(d.scale);
    let dp = pow10_u64(n.scale);
    proof {
        assert((n.mant as int) * (np as int) <= 10_000_000_000_000_000 * 1_000_000_000)
            by (nonlinear_arith)
            requires
                n.mant <= 10_000_000_000_000_000,
                np <= 1_000_000_000,
        ;
        assert((dp as int) * (d.mant as int) <= 1_000_000_000 * 1_000_000_000)
            by (nonlinear_arith)
            requires
                dp <= 1_000_000_000,
                d.mant < 1_000_000_000,
        ;
        assert((dp as int) * (d.mant as int) >= 1) by (nonlinear_arith)
            requires
                dp >= 1,
                d.mant >= 1,
        ;
    }
    let a: u128 = n.mant as u128 * np as u128 * 1000;
    let b: u128 = dp as u128 * d.mant as u128;
    let q = round_div_u128(a, b);
    if q > u64::MAX as u128 {
        None
    } else {
        Some(Decimal { neg: n.neg != d.neg, mant: q as u64, scale: 3 })
    }
}

// ------------------------------------------------------------------
// Plain integer parsing for capture groups.
// ------------------------------------------------------------------
/// Whether `t`, after one optional leading plus sign, is a non-empty digit
/// string.
pub open spec fn spec_uint_valid(t: Seq<char>) -> bool {
    let b = spec_lit_body(t);
    b.len() >= 1 && (forall|i: int| 0 <= i < b.len() ==> spec_is_digit(b[i]))
}

pub open spec fn spec_uint_val(t: Seq<char>) -> nat {
    spec_digits_val(spec_lit_body(t))
}

/// Parses an unsigned integer: digits after one optional plus sign.
pub fn parse_u32_str(s: &str) -> (r: Option<u32>)
    ensures
        r matches Some(v) ==> spec_uint_valid(s@) && spec_uint_val(s@) == v,
        r is None ==> !(spec_uint_valid(s@) && spec_uint_val(s@) <= u32::MAX),
{
    let n = s.unicode_len();
    let start: usize = if n > 0 && s.get_char(0) == '+' {
        1
    } else {
        0
    };
    let ghost b = spec_lit_body(s@);
    proof {
        assert(s@.subrange(start as int, n as int) =~= b);
        assert(s@.subrange(start as int, start as int) =~= Seq::<char>::empty());
    }
    if start == n {
        return None;
    }
    let mut acc: u64 = 0;
    let mut big: bool = false;
    let mut i: usize = start;
    while i < n
        invariant
            start <= i <= n,
            n == s@.len(),
            b == spec_lit_body(s@),
            s@.subrange(start as int, n as int) == b,
            forall|k: int| start <= k < i ==> spec_is_digit(s@[k]),
            !big ==> acc == spec_digits_val(s@.subrange(start as int, i as int)),
            big ==> spec_digits_val(s@.subrange(start as int, i as int)) > u32::MAX,
            acc <= u32::MAX,
        decreases n - i,
    {
        let c = s.get_char(i);
        let code = c as u32;
        proof {
            assert(s@.subrange(start as int, i as int + 1).drop_last() =~= s@.subrange(
                start as int,
                i as int,
            ));
            assert(s@.subrange(start as int, i as int + 1).last() == s@[i as int]);
        }
        if code < 48 || code > 57 {
            return None;
        }
        let d = (code - 48) as u64;
        if !big {
            if acc > 429_496_729 || (acc == 429_496_729 && d > 5) {
                big = true;
            } else {
                acc = acc * 10 + d;
            }
        }
        i = i + 1;
    }
    proof {
        assert(s@.subrange(start as int, n as int) =~= b);
    }
    if big {
        None
    } else {
        Some(acc as u32)
    }
}

/// Whether `t`, after one optional leading plus or minus sign, is a
/// non-empty digit string.
pub open spec fn spec_int_valid(t: Seq<char>) -> bool {
    let b = spec_int_body(t);
    b.len() >= 1 && (forall|i: int| 0 <= i < b.len() ==> spec_is_digit(b[i]))
}

/// The digit string after one optional sign character.
pub open spec fn spec_int_body(t: Seq<char>) -> Seq<char> {
    if t.len() > 0 && (t[0] == '+' || t[0] == '-') {
        t.drop_first()
    } else {
        t
    }
}

pub open spec fn spec_int_neg(t: Seq<char>) -> bool {
    t.len() > 0 && t[0] == '-'
}

/// The signed value denoted by `t`.
pub open spec fn spec_int_val(t: Seq<char>) -> int {
    if spec_int_neg(t) {
        -(spec_digits_val(spec_int_body(t)) as int)
    } else {
        spec_digits_val(spec_int_body(t)) as int
    }
}

/// Parses a signed integer: digits after one optional sign.
pub fn parse_i32_str(s: &str) -> (r: Option<i32>)
    ensures
        r matches Some(v) ==> spec_int_valid(s@) && spec_int_val(s@) == v,
        r is None ==> !(spec_int_valid(s@) && i32::MIN <= spec_int_val(s@) <= i32::MAX),
{
    let n = s.unicode_len();
    let mut negative: bool = false;
    let mut start: usize = 0;
    if n > 0 {
        let c0 = s.get_char(0);
        if c0 == '-' {
            negative = true;
            start = 1;
        } else if c0 == '+' {
            start = 1;
        }
    }
    let ghost b = spec_int_body(s@);
    proof {
        assert(s@.subrange(start as int, n as int) =~= b);
        assert(s@.subrange(start as int, start as int) =~= Seq::<char>::empty());
    }
    if start == n {
        return None;
    }
    let mut acc: u64 = 0;
    let mut big: bool = false;
    let mut i: usize = start;
    while i < n
        invariant
            start <= i <= n,
            n == s@.len(),
            b == spec_int_body(s@),
            s@.subrange(start as int, n as int) == b,
            forall|k: int| start <= k < i ==> spec_is_digit(s@[k]),
            !big ==> acc == spec_digits_val(s@.subrange(start as int, i as int)),
            big ==> spec_digits_val(s@.subrange(start as int, i as int)) > 0x8000_0000,
            acc <= 0x8000_0000,
        decreases n - i,
    {
        let c = s.get_char(i);
        let code = c as u32;
        proof {
            assert(s@.subrange(start as int, i as int + 1).drop_last() =~= s@.subrange(
                start as int,
                i as int,
            ));
            assert(s@.subrange(start as int, i as int + 1).last() == s@[i as int]);
        }
        if code < 48 || code > 57 {
            return None;
        }
        let d = (code - 48) as u64;
        if !big {
            if acc > 214_748_364 || (acc == 214_748_364 && d > 8) {
                big = true;
            } else {
                acc = acc * 10 + d;
            }
        }
        i = i + 1;
    }
    proof {
        assert(s@.subrange(start as int, n as int) =~= b);
    }
    if big {
        None
    } else if negative {
        Some(-(acc as i64) as i32)
    } else {
        if acc > i32::MAX as u64 {
            None
        } else {
            Some(acc as i32)
        }
    }
}

} // verus!
