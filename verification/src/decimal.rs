//! Signed decimal numbers kept exactly as they read on the wire.
//!
//! The chip writes and reads temperatures, voltages and stored readings as
//! plain decimal text such as `-10.5` or `35.25`.  This type holds such a
//! number as a sign, an integer part and a run of fraction digits whose
//! count is kept, so that `-10.035` and `-10.35` stay distinct and a parsed
//! number renders back to the same text.

use vstd::prelude::*;
use crate::text::{
    all_digits, chars_of, find_char, find_from, is_digit, lemma_digits_val_bound,
    lemma_digits_of_val, lemma_find_from, lemma_padded_digits_val, lemma_pow10_increases,
    lemma_pow10_values, parse_digits_u64_all, parse_frac_all, pow10, push_digits_u64,
    push_padded_digits, spec_digits_of, spec_padded_digits, spec_parse_digits_u64,
    spec_parse_frac, string_from_chars, sub_vec,
};

verus! {

/// Upper bound (exclusive) of the integer part: `10^18`.
pub const INTEGRAL_LIMIT: u64 = 1_000_000_000_000_000_000;

/// A signed decimal number: `negative`, then `integral`, then `frac_len`
/// fraction digits whose value is `frac_digits` (leading zeros included in
/// the count, so `frac_digits == 35, frac_len == 3` reads `.035`).
#[derive(Clone, Copy, Debug, PartialEq, Eq, Structural)]
pub struct Decimal {
    pub negative: bool,
    pub integral: u64,
    pub frac_digits: u64,
    pub frac_len: u8,
}

impl Decimal {
    /// The integer part fits in 18 digits and the fraction digits fit their
    /// declared count, which is at most 17.
    pub open spec fn wf(self) -> bool {
        &&& self.integral < INTEGRAL_LIMIT
        &&& self.frac_len <= 17
        &&& (self.frac_digits as nat) < pow10(self.frac_len as nat)
    }
}

/// The text of `d`: sign, integer digits, and the fraction digits after a
/// point when there are any.
pub open spec fn spec_render_decimal(d: Decimal) -> Seq<char> {
    let sign: Seq<char> = if d.negative {
        seq!['-']
    } else {
        Seq::empty()
    };
    if d.frac_len == 0 {
        sign + spec_digits_of(d.integral as nat)
    } else {
        sign + spec_digits_of(d.integral as nat) + seq!['.'] + spec_padded_digits(
            d.frac_digits as nat,
            d.frac_len as nat,
        )
    }
}

/// The decimal grammar: an optional sign, one or more integer digits, and
/// optionally a point followed by one to seventeen fraction digits.
pub open spec fn spec_parse_decimal(s: Seq<char>) -> Option<Decimal> {
    let neg = s.len() > 0 && s[0] == '-';
    let t = if s.len() > 0 && (s[0] == '-' || s[0] == '+') {
        s.subrange(1, s.len() as int)
    } else {
        s
    };
    let dot = find_from(t, 0, '.');
    if dot == -1 {
        match spec_parse_digits_u64(t) {
            Some(n) => Some(
                Decimal { negative: neg, integral: n, frac_digits: 0, frac_len: 0 },
            ),
            None => None,
        }
    } else {
        let ipart = t.subrange(0, dot);
        let fpart = t.subrange(dot + 1, t.len() as int);
        match (spec_parse_digits_u64(ipart), spec_parse_frac(fpart)) {
            (Some(n), Some((f, l))) => Some(
                Decimal { negative: neg, integral: n, frac_digits: f, frac_len: l },
            ),
            _ => None,
        }
    }
}

impl Decimal {
    /// Builds a decimal from its parts, refusing parts that do not fit.
    pub fn new(negative: bool, integral: u64, frac_digits: u64, frac_len: u8) -> (r: Option<
        Decimal,
    >)
        ensures
            ({
                let d = Decimal { negative, integral, frac_digits, frac_len };
                match r {
                    Some(out) => out == d && d.wf(),
                    None => !d.wf(),
                }
            }),
    {
        if integral < INTEGRAL_LIMIT && frac_len <= 17 && frac_digits < pow10_u64(frac_len) {
            Some(Decimal { negative, integral, frac_digits, frac_len })
        } else {
            None
        }
    }

    /// Parses the characters of `v` as a decimal number.
    pub fn parse_chars(v: &Vec<char>) -> (r: Option<Decimal>)
        ensures
            r == spec_parse_decimal(v@),
            r matches Some(d) ==> d.wf(),
    {
        let ghost s = v@;
        let neg = v.len() > 0 && v[0] == '-';
        let start: usize = if v.len() > 0 && (v[0] == '-' || v[0] == '+') {
            1
        } else {
            0
        };
        let t = sub_vec(v, start, v.len());
        proof {
            if s.len() > 0 && (s[0] == '-' || s[0] == '+') {
                assert(t@ =~= s.subrange(1, s.len() as int));
            } else {
                assert(t@ =~= s);
            }
        }
        match find_char(&t, 0, '.') {
            None => {
                match parse_digits_u64_all(&t) {
                    Some(n) => {
                        proof {
                            lemma_pow10_values();
                        }
                        Some(Decimal { negative: neg, integral: n, frac_digits: 0, frac_len: 0 })
                    },
                    None => None,
                }
            },
            Some(dot) => {
                let ip = sub_vec(&t, 0, dot);
                let fp = sub_vec(&t, dot + 1, t.len());
                let ni = parse_digits_u64_all(&ip);
                let nf = parse_frac_all(&fp);
                match (ni, nf) {
                    (Some(n), Some((f, l))) => {
                        proof {
                            lemma_digits_val_bound(fp@);
                            lemma_pow10_values();
                        }
                        Some(Decimal { negative: neg, integral: n, frac_digits: f, frac_len: l })
                    },
                    _ => None,
                }
            },
        }
    }

    /// Parses `s` as a decimal number.
    pub fn parse(s: &str) -> (r: Option<Decimal>)
        ensures
            r == spec_parse_decimal(s@),
            r matches Some(d) ==> d.wf(),
    {
        let v = chars_of(s);
        Decimal::parse_chars(&v)
    }

    /// Appends the text of this number to `out`.
    pub fn push_render(&self, out: &mut Vec<char>)
        ensures
            final(out)@ == old(out)@ + spec_render_decimal(*self),
    {
        if self.negative {
            out.push('-');
        }
        push_digits_u64(out, self.integral);
        if self.frac_len > 0 {
            out.push('.');
            push_padded_digits(out, self.frac_digits, self.frac_len);
        }
        assert(final(out)@ =~= old(out)@ + spec_render_decimal(*self));
    }

    /// The text of this number.
    pub fn render(&self) -> (r: String)
        ensures
            r@ == spec_render_decimal(*self),
    {
        let mut v: Vec<char> = Vec::new();
        self.push_render(&mut v);
        string_from_chars(&v)
    }
}

/// The integer and fraction parts of `d` rounded to exactly `places`
/// fraction digits, half rounded away from zero.
pub open spec fn spec_rounded(d: Decimal, places: nat) -> (nat, nat) {
    if d.frac_len <= places {
        (d.integral as nat, d.frac_digits as nat * pow10((places - d.frac_len as nat) as nat))
    } else {
        let cut = (d.frac_len as nat - places) as nat;
        let q = d.frac_digits as nat / pow10(cut);
        let first_dropped = (d.frac_digits as nat / pow10((cut - 1) as nat)) % 10;
        let q2: nat = if first_dropped >= 5 {
            q + 1
        } else {
            q
        };
        if q2 == pow10(places) {
            (d.integral as nat + 1, 0)
        } else {
            (d.integral as nat, q2)
        }
    }
}

/// The text of `d` with exactly `places` fraction digits.
pub open spec fn spec_render_fixed(d: Decimal, places: nat) -> Seq<char> {
    let sign: Seq<char> = if d.negative {
        seq!['-']
    } else {
        Seq::empty()
    };
    sign + spec_digits_of(spec_rounded(d, places).0) + seq!['.'] + spec_padded_digits(
        spec_rounded(d, places).1,
        places,
    )
}

impl Decimal {
    /// The text of this number with exactly `places` fraction digits,
    /// rounded half away from zero on the decimal digits.
    pub fn render_fixed(&self, places: u8) -> (r: String)
        requires
            1 <= places <= 17,
            self.wf(),
        ensures
            r@ == spec_render_fixed(*self, places as nat),
    {
        let mut v: Vec<char> = Vec::new();
        if self.negative {
            v.push('-');
        }
        let ip: u64;
        let fp: u64;
        if self.frac_len <= places {
            let mult = pow10_u64(places - self.frac_len);
            proof {
                lemma_pow10_values();
                lemma_pow10_adds(self.frac_len as nat, (places - self.frac_len) as nat);
                lemma_pow10_increases((places - self.frac_len) as nat, 17);
                lemma_pow10_increases(places as nat, 17);
                lemma_pow10_increases(0, self.frac_len as nat);
                lemma_pow10_increases(0, (places - self.frac_len) as nat);
                assert((self.frac_digits as nat) * (mult as nat) < pow10(self.frac_len as nat)
                    * (mult as nat)) by (nonlinear_arith)
                    requires
                        (self.frac_digits as nat) < pow10(self.frac_len as nat),
                        mult as nat >= 1,
                ;
            }
            ip = self.integral;
            fp = self.frac_digits * mult;
        } else {
            let cut = self.frac_len - places;
            let p = pow10_u64(cut);
            let p1 = pow10_u64(cut - 1);
            proof {
                lemma_pow10_increases(0, cut as nat);
                lemma_pow10_increases(0, (cut - 1) as nat);
            }
            let q = self.frac_digits / p;
            proof {
                lemma_pow10_values();
                lemma_pow10_increases(self.frac_len as nat, 17);
                assert(self.frac_digits as nat / (p as nat) <= self.frac_digits as nat)
                    by (nonlinear_arith)
                    requires
                        p as nat >= 1,
                ;
            }
            let fd = (self.frac_digits / p1) % 10;
            let q2 = if fd >= 5 {
                q + 1
            } else {
                q
            };
            let lim = pow10_u64(places);
            if q2 == lim {
                ip = self.integral + 1;
                fp = 0;
            } else {
                ip = self.integral;
                fp = q2;
            }
        }
        push_digits_u64(&mut v, ip);
        v.push('.');
        push_padded_digits(&mut v, fp, places);
        assert(v@ =~= spec_render_fixed(*self, places as nat));
        string_from_chars(&v)
    }
}

/// `10^(a+b)` is `10^a * 10^b`.
pub proof fn lemma_pow10_adds(a: nat, b: nat)
    ensures
        pow10(a + b) == pow10(a) * pow10(b),
    decreases a,
{
    if a == 0 {
        assert(pow10(0) == 1);
        assert(pow10(a + b) == 1 * pow10(a + b)) by (nonlinear_arith);
    } else {
        lemma_pow10_adds((a - 1) as nat, b);
        assert(pow10(a + b) == 10 * pow10((a + b - 1) as nat));
        assert((a + b - 1) as nat == (a - 1) as nat + b);
        assert(pow10(a) == 10 * pow10((a - 1) as nat));
        assert(10 * (pow10((a - 1) as nat) * pow10(b)) == (10 * pow10((a - 1) as nat)) * pow10(b))
            by (nonlinear_arith);
    }
}

/// `10^e`.
pub fn pow10_u64(e: u8) -> (r: u64)
    requires
        e <= 18,
    ensures
        r as nat == pow10(e as nat),
{
    let mut r: u64 = 1;
    let mut j: u8 = 0;
    while j < e
        invariant
            j <= e <= 18,
            r as nat == pow10(j as nat),
        decreases e - j,
    {
        proof {
            lemma_pow10_increases(j as nat, 17);
            lemma_pow10_values();
        }
        r = r * 10;
        j += 1;
    }
    r
}

/// No character of a rendered decimal is a comma.
pub proof fn lemma_render_decimal_no_comma(d: Decimal)
    ensures
        forall|i: int|
            0 <= i < spec_render_decimal(d).len() ==> #[trigger] spec_render_decimal(d)[i] != ',',
{
    lemma_digits_of_val(d.integral as nat);
    lemma_padded_digits_val_weak(d.frac_digits as nat, d.frac_len as nat);
    assert forall|i: int|
        0 <= i < spec_render_decimal(d).len() implies #[trigger] spec_render_decimal(d)[i]
        != ',' by {
        let s = spec_render_decimal(d);
        let c = s[i];
        if c == ',' {
            assert(!is_digit(c));
            assert(c != '-' && c != '.');
        }
    }
}

/// The padded numeral is all digits of the asked length, whatever the value.
pub proof fn lemma_padded_digits_val_weak(n: nat, len: nat)
    ensures
        spec_padded_digits(n, len).len() == len,
        all_digits(spec_padded_digits(n, len)),
    decreases len,
{
    if len > 0 {
        lemma_padded_digits_val_weak(n / 10, (len - 1) as nat);
        crate::text::lemma_digit_char_val(n % 10);
    }
}

/// Parsing the rendered text of a well-formed decimal gives the value back.
pub proof fn lemma_decimal_roundtrip(d: Decimal)
    requires
        d.wf(),
    ensures
        spec_parse_decimal(spec_render_decimal(d)) == Some(d),
{
    lemma_pow10_values();
    let s = spec_render_decimal(d);
    let ip = spec_digits_of(d.integral as nat);
    lemma_digits_of_val(d.integral as nat);
    lemma_digits_val_bound(ip);
    let sign: Seq<char> = if d.negative {
        seq!['-']
    } else {
        Seq::empty()
    };
    // The first character decides the sign; digits are not signs.
    assert(is_digit(ip[0]));
    if d.frac_len == 0 {
        assert(s =~= sign + ip);
        let t = if s.len() > 0 && (s[0] == '-' || s[0] == '+') {
            s.subrange(1, s.len() as int)
        } else {
            s
        };
        assert(t =~= ip);
        lemma_all_digits_no_dot(ip);
        lemma_find_from(t, 0, '.');
        assert(find_from(t, 0, '.') == -1);
        assert(spec_parse_digits_u64(t) == Some(d.integral));
        assert(d.frac_digits == 0);
    } else {
        let fp = spec_padded_digits(d.frac_digits as nat, d.frac_len as nat);
        lemma_padded_digits_val(d.frac_digits as nat, d.frac_len as nat);
        assert(s =~= sign + ip + seq!['.'] + fp);
        let t = if s.len() > 0 && (s[0] == '-' || s[0] == '+') {
            s.subrange(1, s.len() as int)
        } else {
            s
        };
        assert(t =~= ip + seq!['.'] + fp);
        lemma_all_digits_no_dot(ip);
        crate::text::lemma_find_from_is(t, 0, '.', ip.len() as int);
        let dot = ip.len() as int;
        assert(t.subrange(0, dot) =~= ip);
        assert(t.subrange(dot + 1, t.len() as int) =~= fp);
        assert(spec_parse_digits_u64(ip) == Some(d.integral));
        assert(spec_parse_frac(fp) == Some((d.frac_digits, d.frac_len)));
    }
}

/// A digit string holds no decimal point.
pub proof fn lemma_all_digits_no_dot(s: Seq<char>)
    requires
        all_digits(s),
    ensures
        forall|j: int| 0 <= j < s.len() ==> s[j] != '.',
{
    assert forall|j: int| 0 <= j < s.len() implies s[j] != '.' by {
        assert(is_digit(s[j]));
    }
}

} // verus!
