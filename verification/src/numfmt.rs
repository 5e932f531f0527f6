//! Decimal rendering and parsing of the integers that appear in launch
//! arguments and wire bodies, with exact character-level contracts.

use vstd::prelude::*;

verus! {

/// The character for one decimal digit.
pub open spec fn digit_char(d: nat) -> char {
    if d == 0 {
        '0'
    } else if d == 1 {
        '1'
    } else if d == 2 {
        '2'
    } else if d == 3 {
        '3'
    } else if d == 4 {
        '4'
    } else if d == 5 {
        '5'
    } else if d == 6 {
        '6'
    } else if d == 7 {
        '7'
    } else if d == 8 {
        '8'
    } else {
        '9'
    }
}

/// Decimal digits of `n`, most significant first, without sign or padding.
pub open spec fn spec_dec(n: nat) -> Seq<char>
    decreases n,
{
    if n < 10 {
        seq![digit_char(n)]
    } else {
        spec_dec(n / 10).push(digit_char(n % 10))
    }
}

/// Decimal rendering of a signed value: a leading '-' for negatives.
pub open spec fn spec_dec_int(n: int) -> Seq<char> {
    if n < 0 {
        seq!['-'] + spec_dec((-n) as nat)
    } else {
        spec_dec(n as nat)
    }
}

/// Rendering of a value held in tenths with one digit after the point,
/// as `to_string` renders such one-decimal floating-point values.
pub open spec fn spec_tenths(n: nat) -> Seq<char> {
    spec_dec(n / 10) + seq!['.'] + seq![digit_char(n % 10)]
}

/// Numeric value of a digit character; 10 marks a non-digit.
pub open spec fn digit_val(c: char) -> nat {
    if c == '0' {
        0
    } else if c == '1' {
        1
    } else if c == '2' {
        2
    } else if c == '3' {
        3
    } else if c == '4' {
        4
    } else if c == '5' {
        5
    } else if c == '6' {
        6
    } else if c == '7' {
        7
    } else if c == '8' {
        8
    } else if c == '9' {
        9
    } else {
        10
    }
}

pub open spec fn is_digit(c: char) -> bool {
    digit_val(c) < 10
}

pub open spec fn all_digits(s: Seq<char>) -> bool {
    forall|i: int| 0 <= i < s.len() ==> is_digit(#[trigger] s[i])
}

/// Value of a digit string read in base ten.
pub open spec fn digits_val(s: Seq<char>) -> nat
    decreases s.len(),
{
    if s.len() == 0 {
        0
    } else {
        digits_val(s.drop_last()) * 10 + digit_val(s.last())
    }
}

/// What parsing a decimal string yields: the value of a non-empty all-digit
/// string whose value fits, and nothing otherwise.
pub open spec fn spec_parse_u32(s: Seq<char>) -> Option<u32> {
    if s.len() > 0 && all_digits(s) && digits_val(s) <= u32::MAX {
        Some(digits_val(s) as u32)
    } else {
        None
    }
}

/// A one-character string slice for one decimal digit.
fn digit_str(d: u32) -> (r: &'static str)
    requires
        d < 10,
    ensures
        r@ == seq![digit_char(d as nat)],
{
    proof {
        reveal_strlit("0");
        reveal_strlit("1");
        reveal_strlit("2");
        reveal_strlit("3");
        reveal_strlit("4");
        reveal_strlit("5");
        reveal_strlit("6");
        reveal_strlit("7");
        reveal_strlit("8");
        reveal_strlit("9");
    }
    let r = if d == 0 {
        "0"
    } else if d == 1 {
        "1"
    } else if d == 2 {
        "2"
    } else if d == 3 {
        "3"
    } else if d == 4 {
        "4"
    } else if d == 5 {
        "5"
    } else if d == 6 {
        "6"
    } else if d == 7 {
        "7"
    } else if d == 8 {
        "8"
    } else {
        "9"
    };
    proof {
        assert(r@ =~= seq![digit_char(d as nat)]);
    }
    r
}

/// Appends the decimal digits of `n` to `s`.
pub fn append_u32(s: &mut String, n: u32)
    ensures
        final(s)@ == old(s)@ + spec_dec(n as nat),
    decreases n,
{
    if n < 10 {
        let t = digit_str(n);
        s.append(t);
        proof {
            assert(s@ =~= old(s)@ + spec_dec(n as nat));
        }
    } else {
        append_u32(s, n / 10);
        let t = digit_str(n % 10);
        s.append(t);
        proof {
            assert(s@ =~= old(s)@ + spec_dec(n as nat));
        }
    }
}

/// Renders `n` in decimal.
pub fn format_u32(n: u32) -> (r: String)
    ensures
        r@ == spec_dec(n as nat),
{
    let mut s = String::new();
    append_u32(&mut s, n);
    proof {
        assert(s@ =~= spec_dec(n as nat));
    }
    s
}

/// Renders a signed value in decimal, with a leading '-' for negatives.
pub fn format_i32(n: i32) -> (r: String)
    ensures
        r@ == spec_dec_int(n as int),
{
    let mut s = String::new();
    if n < 0 {
        s.append("-");
        proof {
            reveal_strlit("-");
        }
        let wide: i64 = -(n as i64);
        let m: u32 = wide as u32;
        append_u32(&mut s, m);
        proof {
            assert(s@ =~= spec_dec_int(n as int));
        }
    } else {
        append_u32(&mut s, n as u32);
        proof {
            assert(s@ =~= spec_dec_int(n as int));
        }
    }
    s
}

/// Renders a value held in tenths with one digit after the point.
pub fn format_tenths(n: u32) -> (r: String)
    ensures
        r@ == spec_tenths(n as nat),
{
    let mut s = String::new();
    append_u32(&mut s, n / 10);
    s.append(".");
    proof {
        reveal_strlit(".");
    }
    let t = digit_str(n % 10);
    s.append(t);
    proof {
        assert(s@ =~= spec_tenths(n as nat));
    }
    s
}

/// Numeric value of one digit character, or 10 for any other character.
fn digit_of(c: char) -> (r: u32)
    ensures
        r == digit_val(c),
{
    if c == '0' {
        0
    } else if c == '1' {
        1
    } else if c == '2' {
        2
    } else if c == '3' {
        3
    } else if c == '4' {
        4
    } else if c == '5' {
        5
    } else if c == '6' {
        6
    } else if c == '7' {
        7
    } else if c == '8' {
        8
    } else if c == '9' {
        9
    } else {
        10
    }
}

/// The value of a prefix of a digit string never exceeds the whole.
proof fn lemma_digits_val_prefix_le(s: Seq<char>, i: int)
    requires
        0 <= i <= s.len(),
    ensures
        digits_val(s.subrange(0, i)) <= digits_val(s),
    decreases s.len() - i,
{
    if i < s.len() {
        lemma_digits_val_prefix_le(s, i + 1);
        let a = s.subrange(0, i);
        let b = s.subrange(0, i + 1);
        assert(b.drop_last() =~= a);
        assert(digits_val(b) == digits_val(a) * 10 + digit_val(b.last()));
        assert(digits_val(a) <= digits_val(a) * 10) by (nonlinear_arith)
            requires
                digits_val(a) >= 0,
        ;
    } else {
        assert(s.subrange(0, i) =~= s);
    }
}

/// Parses a decimal string: the value of a non-empty all-digit string whose
/// value fits in `u32`, and `None` otherwise.
pub fn parse_u32(s: &str) -> (r: Option<u32>)
    ensures
        r == spec_parse_u32(s@),
{
    let len = s.unicode_len();
    if len == 0 {
        return None;
    }
    let mut acc: u32 = 0;
    let mut i: usize = 0;
    while i < len
        invariant
            0 < len == s@.len(),
            0 <= i <= len,
            all_digits(s@.subrange(0, i as int)),
            acc == digits_val(s@.subrange(0, i as int)),
        decreases len - i,
    {
        let c = s.get_char(i);
        let d = digit_of(c);
        if d >= 10 {
            assert(!is_digit(s@[i as int]));
            return None;
        }
        if acc > (u32::MAX - d) / 10 {
            proof {
                let b = s@.subrange(0, i as int + 1);
                assert(b.drop_last() =~= s@.subrange(0, i as int));
                assert(digits_val(b) == acc * 10 + d);
                assert(acc * 10 + d > u32::MAX) by (nonlinear_arith)
                    requires
                        acc > (u32::MAX - d) / 10 && d < 10,
                ;
                lemma_digits_val_prefix_le(s@, i as int + 1);
            }
            return None;
        }
        proof {
            let b = s@.subrange(0, i as int + 1);
            assert(b.drop_last() =~= s@.subrange(0, i as int));
            assert(digits_val(b) == acc * 10 + d);
            assert(acc * 10 + d <= u32::MAX) by (nonlinear_arith)
                requires
                    acc <= (u32::MAX - d) / 10 && d < 10,
            ;
        }
        acc = acc * 10 + d;
        i = i + 1;
    }
    proof {
        assert(s@.subrange(0, len as int) =~= s@);
    }
    Some(acc)
}

/// Index of the first '.' in `s`, or its length when it has none.
pub open spec fn first_dot(s: Seq<char>) -> int
    decreases s.len(),
{
    if s.len() == 0 {
        0
    } else if s[0] == '.' {
        0
    } else {
        1 + first_dot(s.drop_first())
    }
}

/// The integer part of a decimal text: what stands before the first '.'.
pub open spec fn spec_int_part(s: Seq<char>) -> Seq<char> {
    s.subrange(0, first_dot(s))
}

/// The fraction part of a decimal text: what stands after the first '.',
/// empty when there is none.
pub open spec fn spec_frac_part(s: Seq<char>) -> Seq<char> {
    if first_dot(s) < s.len() {
        s.subrange(first_dot(s) + 1, s.len() as int)
    } else {
        Seq::<char>::empty()
    }
}

/// Whether a text has the plain decimal shape `digits` or `digits.digits`.
pub open spec fn spec_decimal_shape(s: Seq<char>) -> bool {
    &&& spec_int_part(s).len() > 0
    &&& all_digits(spec_int_part(s))
    &&& (first_dot(s) == s.len() || (spec_frac_part(s).len() > 0 && all_digits(
        spec_frac_part(s),
    )))
}

/// The first three fraction digits read as thousandths, zero-padded.
pub open spec fn spec_frac3(fp: Seq<char>) -> nat {
    if fp.len() >= 3 {
        digits_val(fp.subrange(0, 3))
    } else if fp.len() == 2 {
        digits_val(fp) * 10
    } else if fp.len() == 1 {
        digits_val(fp) * 100
    } else {
        0
    }
}

/// A non-negative plain decimal text scaled by 1000 and truncated to an
/// integer, saturating at `u32::MAX`; a text of any other shape counts as
/// zero.
pub open spec fn spec_scaled_1000(s: Seq<char>) -> u32 {
    if spec_decimal_shape(s) {
        let v = digits_val(spec_int_part(s)) * 1000 + spec_frac3(spec_frac_part(s));
        if v > u32::MAX {
            u32::MAX
        } else {
            v as u32
        }
    } else {
        0u32
    }
}

/// `first_dot` is the position of the first '.' found by a left-to-right
/// scan.
proof fn lemma_first_dot_at(s: Seq<char>, d: int)
    requires
        0 <= d <= s.len(),
        forall|j: int| 0 <= j < d ==> s[j] != '.',
        d == s.len() || s[d] == '.',
    ensures
        first_dot(s) == d,
    decreases d,
{
    if s.len() == 0 {
    } else if d == 0 {
    } else {
        assert(s[0] != '.');
        assert forall|j: int| 0 <= j < d - 1 implies s.drop_first()[j] != '.' by {
            assert(s.drop_first()[j] == s[j + 1]);
        }
        if d < s.len() {
            assert(s.drop_first()[d - 1] == s[d]);
        }
        lemma_first_dot_at(s.drop_first(), d - 1);
    }
}

/// Reads a non-negative plain decimal text scaled by 1000, truncated,
/// saturating at `u32::MAX`; any other text reads as zero.
pub fn scale_decimal_1000(s: &str) -> (r: u32)
    ensures
        r == spec_scaled_1000(s@),
{
    let n = s.unicode_len();
    let mut i: usize = 0;
    while i < n && s.get_char(i) != '.'
        invariant
            n == s@.len(),
            0 <= i <= n,
            forall|j: int| 0 <= j < i ==> s@[j] != '.',
        decreases n - i,
    {
        i = i + 1;
    }
    let dot: usize = i;
    proof {
        lemma_first_dot_at(s@, dot as int);
    }
    if dot == 0 {
        // no integer digits before the dot, or an empty text
        return 0;
    }
    // integer part: all digits, value saturated above u32::MAX
    let mut acc: u64 = 0;
    let mut big = false;
    let mut k: usize = 0;
    while k < dot
        invariant
            n == s@.len(),
            0 < dot <= n,
            first_dot(s@) == dot,
            0 <= k <= dot,
            all_digits(s@.subrange(0, k as int)),
            big <==> digits_val(s@.subrange(0, k as int)) > u32::MAX,
            !big ==> acc == digits_val(s@.subrange(0, k as int)),
            acc <= u32::MAX,
        decreases dot - k,
    {
        let c = s.get_char(k);
        let d = digit_of(c);
        if d >= 10 {
            assert(!is_digit(spec_int_part(s@)[k as int]));
            return 0;
        }
        proof {
            let b = s@.subrange(0, k as int + 1);
            assert(b.drop_last() =~= s@.subrange(0, k as int));
            assert(digits_val(b) == digits_val(s@.subrange(0, k as int)) * 10 + d);
        }
        if big {
            proof {
                assert(digits_val(s@.subrange(0, k as int)) * 10 + d > u32::MAX)
                    by (nonlinear_arith)
                    requires
                        digits_val(s@.subrange(0, k as int)) > u32::MAX && d >= 0,
                ;
            }
        } else {
            let next = acc * 10 + (d as u64);
            if next > 0xFFFF_FFFF {
                big = true;
            } else {
                acc = next;
            }
        }
        k = k + 1;
    }
    proof {
        assert(s@.subrange(0, dot as int) =~= spec_int_part(s@));
    }
    // fraction part: all digits when present; its first three digits count
    let mut f3: u32 = 0;
    let mut seen: u32 = 0;
    if dot < n {
        if dot + 1 == n {
            // a trailing dot with no fraction digits
            return 0;
        }
        let mut k2: usize = dot + 1;
        while k2 < n
            invariant
                n == s@.len(),
                0 <= dot < n,
                first_dot(s@) == dot,
                dot + 1 < n,
                dot + 1 <= k2 <= n,
                all_digits(s@.subrange(dot as int + 1, k2 as int)),
                seen == if k2 - dot - 1 <= 3 {
                    (k2 - dot - 1) as u32
                } else {
                    3u32
                },
                f3 == spec_frac3(s@.subrange(dot as int + 1, k2 as int)),
            f3 <= 999,
            decreases n - k2,
        {
            let c = s.get_char(k2);
            let d = digit_of(c);
            if d >= 10 {
                assert(!is_digit(spec_frac_part(s@)[k2 - dot - 1]));
                return 0;
            }
            proof {
                let pre = s@.subrange(dot as int + 1, k2 as int);
                let ext = s@.subrange(dot as int + 1, k2 as int + 1);
                assert(ext.drop_last() =~= pre);
                assert(ext.last() == s@[k2 as int]);
                if pre.len() < 3 {
                    if pre.len() == 0 {
                        assert(pre =~= Seq::<char>::empty());
                        assert(digits_val(ext) == d);
                    }
                    assert(digits_val(ext) == digits_val(pre) * 10 + d);
                    if ext.len() == 3 {
                        assert(ext.subrange(0, 3) =~= ext);
                    }
                } else {
                    assert(ext.subrange(0, 3) =~= pre.subrange(0, 3));
                }
            }
            if seen == 0 {
                f3 = (d as u32) * 100;
                seen = 1;
            } else if seen == 1 {
                f3 = f3 / 100 * 100 + (d as u32) * 10;
                proof {
                    let pre = s@.subrange(dot as int + 1, k2 as int);
                    let ext = s@.subrange(dot as int + 1, k2 as int + 1);
                    assert(digits_val(ext) * 10 == (digits_val(pre) * 10 + d) * 10);
                }
                seen = 2;
            } else if seen == 2 {
                f3 = f3 / 10 * 10 + (d as u32);
                seen = 3;
            }
            proof {
                let ext = s@.subrange(dot as int + 1, k2 as int + 1);
                assert(f3 == spec_frac3(ext));
            }
            k2 = k2 + 1;
        }
        proof {
            assert(s@.subrange(dot as int + 1, n as int) =~= spec_frac_part(s@));
        }
    } else {
        proof {
            assert(spec_frac_part(s@) =~= Seq::<char>::empty());
        }
    }
    proof {
        assert(spec_decimal_shape(s@));
    }
    if big {
        proof {
            assert(digits_val(spec_int_part(s@)) * 1000 + spec_frac3(spec_frac_part(s@))
                > u32::MAX) by (nonlinear_arith)
                requires
                    digits_val(spec_int_part(s@)) > u32::MAX,
                    spec_frac3(spec_frac_part(s@)) >= 0,
            ;
        }
        return u32::MAX;
    }
    let total: u64 = acc * 1000 + (f3 as u64);
    if total > 0xFFFF_FFFF {
        u32::MAX
    } else {
        total as u32
    }
}

/// Every decimal rendering is a non-empty string of digits.
pub proof fn lemma_dec_digits(n: nat)
    ensures
        spec_dec(n).len() >= 1,
        all_digits(spec_dec(n)),
    decreases n,
{
    if n >= 10 {
        lemma_dec_digits(n / 10);
    }
}

/// Reading a decimal rendering back recovers the value.
pub proof fn lemma_dec_val(n: nat)
    ensures
        digits_val(spec_dec(n)) == n,
    decreases n,
{
    if n < 10 {
        let s = spec_dec(n);
        assert(s.len() == 1 && s.last() == digit_char(n));
        assert(s.drop_last() =~= Seq::<char>::empty());
        assert(digits_val(s.drop_last()) == 0);
        assert(digits_val(s) == digit_val(digit_char(n)));
    } else {
        lemma_dec_val(n / 10);
        let s = spec_dec(n);
        assert(s.drop_last() =~= spec_dec(n / 10));
        assert(digits_val(s) == digits_val(spec_dec(n / 10)) * 10 + digit_val(digit_char(n % 10)));
        assert(digit_val(digit_char(n % 10)) == n % 10);
        assert((n / 10) * 10 + n % 10 == n) by (nonlinear_arith);
    }
}

/// A rendered value round-trips through parsing: formatting any `u32` and
/// parsing the digits back recovers exactly the same integer.
pub proof fn lemma_format_parse_roundtrip(n: u32)
    ensures
        spec_parse_u32(spec_dec(n as nat)) == Some(n),
{
    lemma_dec_digits(n as nat);
    lemma_dec_val(n as nat);
}

} // verus!
