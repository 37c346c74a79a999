//! Character-level helpers shared by the command encoder and the response
//! parsers: decimal digits, number parsing and rendering, and searching and
//! matching over character sequences.
//!
//! Every grammar of the chip's protocol is plain ASCII, so parsing works on
//! `Vec<char>` obtained from the input string, and rendering builds a
//! `Vec<char>` that is turned into a `String` at the very end.

use vstd::prelude::*;
use vstd::string::StrSliceExecFns;

verus! {

// ---------------------------------------------------------------------------
// Digits
// ---------------------------------------------------------------------------

/// `c` is one of the ASCII digits `'0'` to `'9'`.
pub open spec fn is_digit(c: char) -> bool {
    48 <= c as u32 && c as u32 <= 57
}

/// Numeric value of an ASCII digit.
pub open spec fn digit_val(c: char) -> nat
    recommends
        is_digit(c),
{
    (c as u32 - 48) as nat
}

/// The ASCII digit that stands for `d`.
pub open spec fn spec_digit_char(d: nat) -> char
    recommends
        d < 10,
{
    if d == 0 {
        '0'
    } else if d == 1 {
        '1'
    } else if d == 2 {
        '2'
    } else if d == 3 {
        '3'
    } else if d == 4 {
        '4'
    } else if d == 5 {
        '5'
    } else if d == 6 {
        '6'
    } else if d == 7 {
        '7'
    } else if d == 8 {
        '8'
    } else {
        '9'
    }
}

pub open spec fn all_digits(s: Seq<char>) -> bool {
    forall|i: int| 0 <= i < s.len() ==> is_digit(#[trigger] s[i])
}

/// Value of a digit string, most significant digit first.
pub open spec fn digits_val(s: Seq<char>) -> nat
    decreases s.len(),
{
    if s.len() == 0 {
        0
    } else {
        digits_val(s.drop_last()) * 10 + digit_val(s.last())
    }
}

pub open spec fn pow10(n: nat) -> nat
    decreases n,
{
    if n == 0 {
        1
    } else {
        10 * pow10((n - 1) as nat)
    }
}

pub proof fn lemma_digit_char_val(d: nat)
    requires
        d < 10,
    ensures
        is_digit(spec_digit_char(d)),
        digit_val(spec_digit_char(d)) == d,
{
}

pub proof fn lemma_digits_val_snoc(s: Seq<char>, c: char)
    ensures
        digits_val(s.push(c)) == digits_val(s) * 10 + digit_val(c),
{
    assert(s.push(c).drop_last() =~= s);
}

/// A digit string of length `n` has value below `10^n`.
pub proof fn lemma_digits_val_bound(s: Seq<char>)
    requires
        all_digits(s),
    ensures
        digits_val(s) < pow10(s.len()),
    decreases s.len(),
{
    if s.len() > 0 {
        lemma_digits_val_bound(s.drop_last());
        assert(digit_val(s.last()) <= 9);
    }
}

pub proof fn lemma_pow10_values()
    ensures
        pow10(0) == 1,
        pow10(1) == 10,
        pow10(2) == 100,
        pow10(3) == 1000,
        pow10(16) == 10_000_000_000_000_000,
        pow10(17) == 100_000_000_000_000_000,
        pow10(18) == 1_000_000_000_000_000_000,
{
    reveal_with_fuel(pow10, 20);
}

// ---------------------------------------------------------------------------
// Searching
// ---------------------------------------------------------------------------

/// Index of the first occurrence of `x` in `s` at or after `from`, or `-1`.
pub open spec fn find_from<A>(s: Seq<A>, from: int, x: A) -> int
    decreases s.len() - from,
{
    if from < 0 || from >= s.len() {
        -1
    } else if s[from] == x {
        from
    } else {
        find_from(s, from + 1, x)
    }
}

pub proof fn lemma_find_from<A>(s: Seq<A>, from: int, x: A)
    requires
        0 <= from <= s.len(),
    ensures
        find_from(s, from, x) == -1 ==> (forall|j: int| from <= j < s.len() ==> s[j] != x),
        find_from(s, from, x) != -1 ==> from <= find_from(s, from, x) < s.len(),
        find_from(s, from, x) != -1 ==> s[find_from(s, from, x)] == x,
        find_from(s, from, x) != -1 ==> (forall|j: int| from <= j < find_from(s, from, x) ==> s[j] != x),
    decreases s.len() - from,
{
    if from < s.len() && s[from] != x {
        lemma_find_from(s, from + 1, x);
    }
}

/// An index that holds `x`, with no occurrence before it, is where `find_from` lands.
pub proof fn lemma_find_from_is<A>(s: Seq<A>, from: int, x: A, k: int)
    requires
        0 <= from <= k < s.len(),
        s[k] == x,
        forall|j: int| from <= j < k ==> s[j] != x,
    ensures
        find_from(s, from, x) == k,
    decreases k - from,
{
    if from < k {
        lemma_find_from_is(s, from + 1, x, k);
    }
}

/// First occurrence of `c` in `v` at or after `from`.
pub fn find_char(v: &Vec<char>, from: usize, c: char) -> (r: Option<usize>)
    requires
        from <= v@.len(),
    ensures
        match r {
            Some(i) => from <= i < v@.len() && find_from(v@, from as int, c) == i,
            None => find_from(v@, from as int, c) == -1,
        },
{
    let mut i: usize = from;
    while i < v.len()
        invariant
            from <= i <= v@.len(),
            find_from(v@, from as int, c) == find_from(v@, i as int, c),
        decreases v@.len() - i,
    {
        if v[i] == c {
            return Some(i);
        }
        i += 1;
    }
    None
}

/// First occurrence of `b` in `v` at or after `from`.
pub fn find_byte(v: &Vec<u8>, from: usize, b: u8) -> (r: Option<usize>)
    requires
        from <= v@.len(),
    ensures
        match r {
            Some(i) => from <= i < v@.len() && find_from(v@, from as int, b) == i,
            None => find_from(v@, from as int, b) == -1,
        },
{
    let mut i: usize = from;
    while i < v.len()
        invariant
            from <= i <= v@.len(),
            find_from(v@, from as int, b) == find_from(v@, i as int, b),
        decreases v@.len() - i,
    {
        if v[i] == b {
            return Some(i);
        }
        i += 1;
    }
    None
}

// ---------------------------------------------------------------------------
// Strings and character vectors
// ---------------------------------------------------------------------------

/// The characters of `s`, in order.
pub fn chars_of(s: &str) -> (v: Vec<char>)
    ensures
        v@ == s@,
{
    let n = s.unicode_len();
    let mut v: Vec<char> = Vec::new();
    let mut i: usize = 0;
    while i < n
        invariant
            i <= n,
            n == s@.len(),
            v@ == s@.subrange(0, i as int),
        decreases n - i,
    {
        let c = s.get_char(i);
        v.push(c);
        assert(v@ =~= s@.subrange(0, i + 1 as int));
        i += 1;
    }
    assert(v@ =~= s@);
    v
}

/// Relies on `String: FromIterator<char>` through `Iterator::collect`: the
/// collected string holds exactly the characters of the vector, in order.
#[verifier::external_body]
pub fn string_from_chars(v: &Vec<char>) -> (s: String)
    ensures
        s@ == v@,
{
    v.iter().collect()
}

/// Appends the characters of `lit` to `out`.
pub fn push_str_chars(out: &mut Vec<char>, lit: &str)
    ensures
        final(out)@ == old(out)@ + lit@,
{
    let n = lit.unicode_len();
    let mut i: usize = 0;
    assert(out@ =~= old(out)@ + lit@.subrange(0, 0));
    while i < n
        invariant
            i <= n,
            n == lit@.len(),
            out@ == old(out)@ + lit@.subrange(0, i as int),
        decreases n - i,
    {
        let c = lit.get_char(i);
        out.push(c);
        assert(out@ =~= old(out)@ + lit@.subrange(0, i + 1 as int));
        i += 1;
    }
    assert(out@ =~= old(out)@ + lit@);
}

/// The characters of `v` from `from` (inclusive) to `to` (exclusive).
pub fn sub_vec(v: &Vec<char>, from: usize, to: usize) -> (out: Vec<char>)
    requires
        from <= to <= v@.len(),
    ensures
        out@ == v@.subrange(from as int, to as int),
{
    let mut out: Vec<char> = Vec::new();
    let mut i: usize = from;
    while i < to
        invariant
            from <= i <= to <= v@.len(),
            out@ == v@.subrange(from as int, i as int),
        decreases to - i,
    {
        out.push(v[i]);
        assert(out@ =~= v@.subrange(from as int, i + 1 as int));
        i += 1;
    }
    out
}

/// The bytes of `v` from `from` (inclusive) to `to` (exclusive).
pub fn sub_bytes(v: &Vec<u8>, from: usize, to: usize) -> (out: Vec<u8>)
    requires
        from <= to <= v@.len(),
    ensures
        out@ == v@.subrange(from as int, to as int),
{
    let mut out: Vec<u8> = Vec::new();
    let mut i: usize = from;
    while i < to
        invariant
            from <= i <= to <= v@.len(),
            out@ == v@.subrange(from as int, i as int),
        decreases to - i,
    {
        out.push(v[i]);
        assert(out@ =~= v@.subrange(from as int, i + 1 as int));
        i += 1;
    }
    out
}

/// Whether `v` holds exactly the text of `lit`.
pub fn eq_lit(v: &Vec<char>, lit: &str) -> (r: bool)
    ensures
        r == (v@ == lit@),
{
    let n = lit.unicode_len();
    if v.len() != n {
        return false;
    }
    let mut i: usize = 0;
    while i < n
        invariant
            i <= n,
            n == lit@.len(),
            v@.len() == n,
            forall|j: int| 0 <= j < i ==> v@[j] == lit@[j],
        decreases n - i,
    {
        if v[i] != lit.get_char(i) {
            return false;
        }
        i += 1;
    }
    assert(v@ =~= lit@);
    true
}

/// Whether `v` starts with the text of `lit`.
pub fn has_prefix(v: &Vec<char>, lit: &str) -> (r: bool)
    ensures
        r == (v@.len() >= lit@.len() && v@.subrange(0, lit@.len() as int) == lit@),
{
    let n = lit.unicode_len();
    if v.len() < n {
        return false;
    }
    let mut i: usize = 0;
    while i < n
        invariant
            i <= n,
            n == lit@.len(),
            v@.len() >= n,
            forall|j: int| 0 <= j < i ==> v@[j] == lit@[j],
        decreases n - i,
    {
        if v[i] != lit.get_char(i) {
            assert(v@.subrange(0, lit@.len() as int)[i as int] != lit@[i as int]);
            return false;
        }
        i += 1;
    }
    assert(v@.subrange(0, lit@.len() as int) =~= lit@);
    true
}

/// Every character of `s` is ASCII.
pub open spec fn ascii_seq(s: Seq<char>) -> bool {
    forall|i: int| 0 <= i < s.len() ==> ((#[trigger] s[i]) as u32) < 128
}

/// Whether every character of `v` is ASCII.
pub fn is_ascii_vec(v: &Vec<char>) -> (r: bool)
    ensures
        r == ascii_seq(v@),
{
    let mut i: usize = 0;
    while i < v.len()
        invariant
            i <= v@.len(),
            forall|j: int| 0 <= j < i ==> ((#[trigger] v@[j]) as u32) < 128,
        decreases v@.len() - i,
    {
        if v[i] as u32 >= 128 {
            return false;
        }
        i += 1;
    }
    true
}

/// `c` equals the pattern character `l`, ignoring ASCII case: `l` is taken
/// from an upper-case pattern, and a lower-case `c` matches its upper-case
/// counterpart.
pub open spec fn upper_eq(c: char, l: char) -> bool {
    c as u32 == l as u32 || (65 <= l as u32 <= 90 && c as u32 == l as u32 + 32)
}

/// `s` matches the upper-case pattern `lit`, ignoring ASCII case.
pub open spec fn matches_ci(s: Seq<char>, lit: Seq<char>) -> bool {
    s.len() == lit.len() && forall|i: int| 0 <= i < s.len() ==> upper_eq(#[trigger] s[i], lit[i])
}

/// Whether `v` matches the text of `lit` up to ASCII case.
pub fn eq_lit_ci(v: &Vec<char>, lit: &str) -> (r: bool)
    ensures
        r == matches_ci(v@, lit@),
{
    let n = lit.unicode_len();
    if v.len() != n {
        return false;
    }
    let mut i: usize = 0;
    while i < n
        invariant
            i <= n,
            n == lit@.len(),
            v@.len() == n,
            forall|j: int| 0 <= j < i ==> upper_eq(#[trigger] v@[j], lit@[j]),
        decreases n - i,
    {
        let c = v[i] as u32;
        let l = lit.get_char(i) as u32;
        if !(c == l || (65 <= l && l <= 90 && c == l + 32)) {
            return false;
        }
        i += 1;
    }
    true
}

/// `s` starts with the upper-case pattern `lit`, ignoring ASCII case.
pub open spec fn prefix_ci(s: Seq<char>, lit: Seq<char>) -> bool {
    s.len() >= lit.len() && matches_ci(s.subrange(0, lit.len() as int), lit)
}

/// Whether `v` starts with the text of `lit` up to ASCII case.
pub fn has_prefix_ci(v: &Vec<char>, lit: &str) -> (r: bool)
    ensures
        r == prefix_ci(v@, lit@),
{
    let n = lit.unicode_len();
    if v.len() < n {
        return false;
    }
    let mut i: usize = 0;
    while i < n
        invariant
            i <= n,
            n == lit@.len(),
            v@.len() >= n,
            forall|j: int| 0 <= j < i ==> upper_eq(#[trigger] v@[j], lit@[j]),
        decreases n - i,
    {
        let c = v[i] as u32;
        let l = lit.get_char(i) as u32;
        if !(c == l || (65 <= l && l <= 90 && c == l + 32)) {
            assert(!upper_eq(v@.subrange(0, lit@.len() as int)[i as int], lit@[i as int]));
            return false;
        }
        i += 1;
    }
    assert forall|j: int| 0 <= j < lit@.len() implies upper_eq(
        #[trigger] v@.subrange(0, lit@.len() as int)[j],
        lit@[j],
    ) by {
        assert(v@.subrange(0, lit@.len() as int)[j] == v@[j]);
    }
    true
}

// ---------------------------------------------------------------------------
// Number parsing
// ---------------------------------------------------------------------------

/// An unsigned decimal numeral as `u32::from_str` reads it: an optional
/// leading `+`, then one or more digits, with a value that fits in `u32`.
pub open spec fn spec_parse_u32(s: Seq<char>) -> Option<u32> {
    let digits = if s.len() > 0 && s[0] == '+' {
        s.subrange(1, s.len() as int)
    } else {
        s
    };
    if digits.len() > 0 && all_digits(digits) && digits_val(digits) <= u32::MAX {
        Some(digits_val(digits) as u32)
    } else {
        None
    }
}

/// A plain digit string (no sign) with a value below `10^18`.
pub open spec fn spec_parse_digits_u64(s: Seq<char>) -> Option<u64> {
    if s.len() > 0 && all_digits(s) && digits_val(s) < 1_000_000_000_000_000_000 {
        Some(digits_val(s) as u64)
    } else {
        None
    }
}

/// A fraction digit string: 1 to 17 digits, kept with its length so that
/// leading and trailing zeros survive.
pub open spec fn spec_parse_frac(s: Seq<char>) -> Option<(u64, u8)> {
    if 1 <= s.len() <= 17 && all_digits(s) {
        Some((digits_val(s) as u64, s.len() as u8))
    } else {
        None
    }
}

/// Parses all of `v` as `spec_parse_u32` describes.
pub fn parse_u32_all(v: &Vec<char>) -> (r: Option<u32>)
    ensures
        r == spec_parse_u32(v@),
{
    let ghost s = v@;
    let start: usize = if v.len() > 0 && v[0] == '+' {
        1
    } else {
        0
    };
    let ghost digits = if s.len() > 0 && s[0] == '+' {
        s.subrange(1, s.len() as int)
    } else {
        s
    };
    assert(digits =~= s.subrange(start as int, s.len() as int));
    if start == v.len() {
        return None;
    }
    let mut acc: u64 = 0;
    let mut i: usize = start;
    while i < v.len()
        invariant
            start <= i <= v@.len(),
            v@ == s,
            s.len() > 0 && s[0] == '+' ==> start == 1,
            !(s.len() > 0 && s[0] == '+') ==> start == 0,
            digits == s.subrange(start as int, s.len() as int),
            start < s.len(),
            all_digits(s.subrange(start as int, i as int)),
            digits_val(s.subrange(start as int, i as int)) <= u32::MAX ==> acc == digits_val(
                s.subrange(start as int, i as int),
            ),
            digits_val(s.subrange(start as int, i as int)) > u32::MAX ==> acc == 0x1_0000_0000u64,
            acc <= 0x1_0000_0000u64,
        decreases v@.len() - i,
    {
        let ghost p = s.subrange(start as int, i as int);
        let c = v[i];
        let u = c as u32;
        if !(48 <= u && u <= 57) {
            assert(!is_digit(digits[i - start]));
            return None;
        }
        let d = (u - 48) as u64;
        proof {
            assert(is_digit(c) && digit_val(c) == d);
            assert(s.subrange(start as int, i + 1 as int) =~= p.push(c));
            lemma_digits_val_snoc(p, c);
        }
        if acc > u32::MAX as u64 {
            acc = 0x1_0000_0000u64;
        } else {
            acc = acc * 10 + d;
            if acc > u32::MAX as u64 {
                acc = 0x1_0000_0000u64;
            }
        }
        i += 1;
    }
    assert(digits =~= s.subrange(start as int, s.len() as int));
    if acc > u32::MAX as u64 {
        return None;
    }
    Some(acc as u32)
}

/// Parses all of `v` as `spec_parse_digits_u64` describes.
pub fn parse_digits_u64_all(v: &Vec<char>) -> (r: Option<u64>)
    ensures
        r == spec_parse_digits_u64(v@),
{
    let ghost s = v@;
    if v.len() == 0 {
        return None;
    }
    let mut acc: u64 = 0;
    let mut i: usize = 0;
    while i < v.len()
        invariant
            i <= v@.len(),
            v@ == s,
            all_digits(s.subrange(0, i as int)),
            digits_val(s.subrange(0, i as int)) < 1_000_000_000_000_000_000 ==> acc == digits_val(
                s.subrange(0, i as int),
            ),
            digits_val(s.subrange(0, i as int)) >= 1_000_000_000_000_000_000 ==> acc == 1_000_000_000_000_000_000u64,
            acc <= 1_000_000_000_000_000_000u64,
        decreases v@.len() - i,
    {
        let ghost p = s.subrange(0, i as int);
        let c = v[i];
        let u = c as u32;
        if !(48 <= u && u <= 57) {
            assert(!is_digit(s[i as int]));
            return None;
        }
        let d = (u - 48) as u64;
        proof {
            assert(is_digit(c) && digit_val(c) == d);
            assert(s.subrange(0, i + 1 as int) =~= p.push(c));
            lemma_digits_val_snoc(p, c);
        }
        if acc >= 1_000_000_000_000_000_000u64 {
            acc = 1_000_000_000_000_000_000u64;
        } else {
            acc = acc * 10 + d;
            if acc > 1_000_000_000_000_000_000u64 {
                acc = 1_000_000_000_000_000_000u64;
            }
        }
        i += 1;
    }
    assert(s =~= s.subrange(0, s.len() as int));
    if acc >= 1_000_000_000_000_000_000u64 {
        return None;
    }
    Some(acc)
}

/// Parses all of `v` as `spec_parse_frac` describes.
pub fn parse_frac_all(v: &Vec<char>) -> (r: Option<(u64, u8)>)
    ensures
        r == spec_parse_frac(v@),
{
    let ghost s = v@;
    if v.len() == 0 || v.len() > 17 {
        return None;
    }
    let mut acc: u64 = 0;
    let mut i: usize = 0;
    while i < v.len()
        invariant
            i <= v@.len(),
            v@ == s,
            s.len() <= 17,
            all_digits(s.subrange(0, i as int)),
            acc == digits_val(s.subrange(0, i as int)),
            acc < pow10(i as nat),
        decreases v@.len() - i,
    {
        let ghost p = s.subrange(0, i as int);
        let c = v[i];
        let u = c as u32;
        if !(48 <= u && u <= 57) {
            assert(!is_digit(s[i as int]));
            return None;
        }
        let d = (u - 48) as u64;
        proof {
            assert(is_digit(c) && digit_val(c) == d);
            assert(s.subrange(0, i + 1 as int) =~= p.push(c));
            lemma_digits_val_snoc(p, c);
            lemma_pow10_values();
            lemma_pow10_increases(i as nat, 16);
        }
        acc = acc * 10 + d;
        i += 1;
    }
    assert(s =~= s.subrange(0, s.len() as int));
    Some((acc, v.len() as u8))
}

pub proof fn lemma_pow10_increases(a: nat, b: nat)
    requires
        a <= b,
    ensures
        pow10(a) <= pow10(b),
    decreases b,
{
    if a < b {
        lemma_pow10_increases(a, (b - 1) as nat);
        assert(pow10(b) == 10 * pow10((b - 1) as nat));
    }
}

// ---------------------------------------------------------------------------
// Number rendering
// ---------------------------------------------------------------------------

/// The decimal numeral of `n`, without leading zeros (`0` stands alone).
pub open spec fn spec_digits_of(n: nat) -> Seq<char>
    decreases n,
{
    if n < 10 {
        seq![spec_digit_char(n)]
    } else {
        spec_digits_of(n / 10).push(spec_digit_char(n % 10))
    }
}

/// The numeral of `n` padded with leading zeros to exactly `len` digits.
pub open spec fn spec_padded_digits(n: nat, len: nat) -> Seq<char>
    decreases len,
{
    if len == 0 {
        Seq::empty()
    } else {
        spec_padded_digits(n / 10, (len - 1) as nat).push(spec_digit_char(n % 10))
    }
}

fn char_of_digit(d: u8) -> (c: char)
    requires
        d < 10,
    ensures
        c == spec_digit_char(d as nat),
{
    match d {
        0 => '0',
        1 => '1',
        2 => '2',
        3 => '3',
        4 => '4',
        5 => '5',
        6 => '6',
        7 => '7',
        8 => '8',
        _ => '9',
    }
}

/// Appends the numeral of `n` to `out`.
pub fn push_digits_u64(out: &mut Vec<char>, n: u64)
    ensures
        final(out)@ == old(out)@ + spec_digits_of(n as nat),
    decreases n,
{
    if n < 10 {
        out.push(char_of_digit(n as u8));
        assert(final(out)@ =~= old(out)@ + spec_digits_of(n as nat));
    } else {
        push_digits_u64(out, n / 10);
        out.push(char_of_digit((n % 10) as u8));
        assert(final(out)@ =~= old(out)@ + spec_digits_of(n as nat));
    }
}

/// Appends the zero-padded `len`-digit numeral of `n` to `out`.
pub fn push_padded_digits(out: &mut Vec<char>, n: u64, len: u8)
    ensures
        final(out)@ == old(out)@ + spec_padded_digits(n as nat, len as nat),
    decreases len,
{
    if len == 0 {
        assert(final(out)@ =~= old(out)@ + spec_padded_digits(n as nat, 0));
    } else {
        push_padded_digits(out, n / 10, len - 1);
        out.push(char_of_digit((n % 10) as u8));
        assert(final(out)@ =~= old(out)@ + spec_padded_digits(n as nat, len as nat));
    }
}

/// The numeral of `n` reads back as `n`.
pub proof fn lemma_digits_of_val(n: nat)
    ensures
        spec_digits_of(n).len() >= 1,
        all_digits(spec_digits_of(n)),
        digits_val(spec_digits_of(n)) == n,
    decreases n,
{
    if n < 10 {
        lemma_digit_char_val(n);
        assert(spec_digits_of(n) =~= Seq::empty().push(spec_digit_char(n)));
        lemma_digits_val_snoc(Seq::empty(), spec_digit_char(n));
    } else {
        lemma_digits_of_val(n / 10);
        lemma_digit_char_val(n % 10);
        lemma_digits_val_snoc(spec_digits_of(n / 10), spec_digit_char(n % 10));
    }
}

/// The padded numeral of `n` reads back as `n` when `n` fits in `len` digits.
pub proof fn lemma_padded_digits_val(n: nat, len: nat)
    requires
        n < pow10(len),
    ensures
        spec_padded_digits(n, len).len() == len,
        all_digits(spec_padded_digits(n, len)),
        digits_val(spec_padded_digits(n, len)) == n,
    decreases len,
{
    if len > 0 {
        lemma_padded_digits_val(n / 10, (len - 1) as nat);
        lemma_digit_char_val(n % 10);
        lemma_digits_val_snoc(spec_padded_digits(n / 10, (len - 1) as nat), spec_digit_char(n % 10));
    }
}

} // verus!
