//! Decimal rendering and parsing of the numbers that the monitor shows and reads.

use vstd::prelude::*;

verus! {

/// The character of the decimal digit `d` (for `d < 10`).
pub open spec fn digit_char(d: nat) -> char {
    if d == 0 { '0' }
    else if d == 1 { '1' }
    else if d == 2 { '2' }
    else if d == 3 { '3' }
    else if d == 4 { '4' }
    else if d == 5 { '5' }
    else if d == 6 { '6' }
    else if d == 7 { '7' }
    else if d == 8 { '8' }
    else { '9' }
}

/// The decimal notation of `n`, without sign or leading zeros.
pub open spec fn decimal(n: nat) -> Seq<char>
    decreases n,
{
    if n < 10 {
        seq![digit_char(n)]
    } else {
        decimal(n / 10).push(digit_char(n % 10))
    }
}

/// The one-character string of the digit `d`.
fn digit_str(d: u64) -> (s: &'static str)
    requires
        d < 10,
    ensures
        s@ == seq![digit_char(d as nat)],
{
    match d {
        0 => { proof { reveal_strlit("0"); } "0" },
        1 => { proof { reveal_strlit("1"); } "1" },
        2 => { proof { reveal_strlit("2"); } "2" },
        3 => { proof { reveal_strlit("3"); } "3" },
        4 => { proof { reveal_strlit("4"); } "4" },
        5 => { proof { reveal_strlit("5"); } "5" },
        6 => { proof { reveal_strlit("6"); } "6" },
        7 => { proof { reveal_strlit("7"); } "7" },
        8 => { proof { reveal_strlit("8"); } "8" },
        _ => { proof { reveal_strlit("9"); } "9" },
    }
}

/// Renders `n` in decimal, as `Display` for an unsigned integer does.
pub fn render_u128(n: u128) -> (s: String)
    ensures
        s@ == decimal(n as nat),
    decreases n,
{
    if n < 10 {
        String::from_str(digit_str(n as u64))
    } else {
        let mut s = render_u128(n / 10);
        s.append(digit_str((n % 10) as u64));
        s
    }
}

/// Renders `n` in decimal, as `Display` for an unsigned integer does.
pub fn render_u64(n: u64) -> (s: String)
    ensures
        s@ == decimal(n as nat),
{
    render_u128(n as u128)
}


/// `v` hundredths written with two decimals, as `{:.2}` writes `v / 100`.
pub open spec fn fixed2(v: nat) -> Seq<char> {
    decimal(v / 100) + seq!['.', digit_char((v % 100) / 10), digit_char(v % 10)]
}

/// Renders `v` hundredths with exactly two decimals ("97.53", "0.05").
pub fn render_fixed2(v: u128) -> (s: String)
    ensures
        s@ == fixed2(v as nat),
{
    let mut s = render_u128(v / 100);
    proof { reveal_strlit("."); }
    s.append(".");
    s.append(digit_str(((v % 100) / 10) as u64));
    s.append(digit_str((v % 10) as u64));
    assert(s@ =~= fixed2(v as nat));
    s
}

/// The shortest decimal notation of `t` hundredths, as `Display` writes a
/// floating-point number with at most two decimals: "98", "90.5", "-2.25".
pub open spec fn centi_display(t: int) -> Seq<char> {
    let a: nat = (if t < 0 { -t } else { t }) as nat;
    let sign: Seq<char> = if t < 0 { seq!['-'] } else { Seq::empty() };
    let frac: Seq<char> = if a % 100 == 0 {
        Seq::empty()
    } else if a % 10 == 0 {
        seq!['.', digit_char((a % 100) / 10)]
    } else {
        seq!['.', digit_char((a % 100) / 10), digit_char(a % 10)]
    };
    sign + decimal(a / 100) + frac
}

/// Renders `t` hundredths in the shortest notation (see `centi_display`).
pub fn render_centi(t: i32) -> (s: String)
    ensures
        s@ == centi_display(t as int),
{
    let a: u64 = if t < 0 { (-(t as i64)) as u64 } else { t as u64 };
    let mut s = String::new();
    if t < 0 {
        proof { reveal_strlit("-"); }
        s.append("-");
    }
    let whole = render_u64(a / 100);
    s.append(whole.as_str());
    if a % 100 != 0 {
        proof { reveal_strlit("."); }
        s.append(".");
        s.append(digit_str((a % 100) / 10));
        if a % 10 != 0 {
            s.append(digit_str(a % 10));
        }
    }
    assert(s@ =~= centi_display(t as int));
    s
}

/// `unit` written `n` times.
pub open spec fn repeated(unit: Seq<char>, n: nat) -> Seq<char>
    decreases n,
{
    if n == 0 {
        Seq::empty()
    } else {
        repeated(unit, (n - 1) as nat) + unit
    }
}

/// `unit` written `n` times, as `str::repeat` builds it.
pub fn repeat_str(unit: &str, n: usize) -> (s: String)
    ensures
        s@ == repeated(unit@, n as nat),
{
    let mut s = String::new();
    let mut i: usize = 0;
    while i < n
        invariant
            i <= n,
            s@ == repeated(unit@, i as nat),
        decreases n - i,
    {
        s.append(unit);
        i = i + 1;
    }
    s
}

/// `fixed2(v)` is `v` hundredths with two decimals: digits, a point, and two
/// digits, which read back as `v`.
pub proof fn law_fixed2_reads_back(v: nat)
    ensures
        ({
            let s = fixed2(v);
            let n = s.len() as int;
            &&& n >= 4
            &&& s[n - 3] == '.'
            &&& all_digits(s.take(n - 3))
            &&& all_digits(s.skip(n - 2))
            &&& digits_value(s.take(n - 3)) * 100 + digits_value(s.skip(n - 2)) == v
        }),
{
    let s = fixed2(v);
    let n = s.len() as int;
    lemma_decimal_digits(v / 100);
    lemma_digit_char((v % 100) / 10);
    lemma_digit_char(v % 10);
    assert(s.take(n - 3) =~= decimal(v / 100));
    let f = s.skip(n - 2);
    assert(f =~= seq![digit_char((v % 100) / 10), digit_char(v % 10)]);
    assert(f.drop_last() =~= seq![digit_char((v % 100) / 10)]);
    assert(f.drop_last().drop_last() =~= Seq::<char>::empty());
    reveal_with_fuel(digits_value, 3);
    assert(digits_value(f) == ((v % 100) / 10) * 10 + v % 10);
    assert(v == (v / 100) * 100 + ((v % 100) / 10) * 10 + v % 10);
}

/// How a threshold of `t` hundredths is shown: whole percentages without a
/// point, a negative one as `-` before the positive one, and otherwise the
/// whole part, a point and one or two digits (no trailing zero) that read as
/// the hundredths.
pub proof fn law_centi_display(t: int)
    ensures
        t >= 0 && t % 100 == 0 ==> centi_display(t) == decimal((t / 100) as nat),
        t > 0 ==> centi_display(-t) == seq!['-'] + centi_display(t),
        t >= 0 && t % 100 != 0 ==> ({
            let s = centi_display(t);
            let w = decimal((t / 100) as nat);
            let f = s.skip(w.len() as int + 1);
            &&& s.take(w.len() as int) == w
            &&& s[w.len() as int] == '.'
            &&& 1 <= f.len() <= 2
            &&& all_digits(f)
            &&& f.last() != '0'
            &&& digits_value(f) * (if f.len() == 1 { 10int } else { 1int }) == t % 100
        }),
{
    if t >= 0 && t % 100 != 0 {
        let s = centi_display(t);
        let a = t as nat;
        let w = decimal(a / 100);
        lemma_digit_char((a % 100) / 10);
        lemma_digit_char(a % 10);
        assert(s.take(w.len() as int) =~= w);
        reveal_with_fuel(digits_value, 3);
        let f = s.skip(w.len() as int + 1);
        if a % 10 == 0 {
            assert(f =~= seq![digit_char((a % 100) / 10)]);
            assert(f.drop_last() =~= Seq::<char>::empty());
            assert((a % 100) == ((a % 100) / 10) * 10);
        } else {
            assert(f =~= seq![digit_char((a % 100) / 10), digit_char(a % 10)]);
            assert(f.drop_last() =~= seq![digit_char((a % 100) / 10)]);
            assert(f.drop_last().drop_last() =~= Seq::<char>::empty());
            assert(a % 100 == ((a % 100) / 10) * 10 + a % 10);
        }
    }
    if t > 0 {
        assert(centi_display(-t) =~= seq!['-'] + centi_display(t));
    }
}

/// A character written `n` times is `n` copies of that character.
pub proof fn law_repeated(c: char, n: nat)
    ensures
        repeated(seq![c], n).len() == n,
        forall|i: int| 0 <= i < n ==> #[trigger] repeated(seq![c], n)[i] == c,
    decreases n,
{
    if n > 0 {
        law_repeated(c, (n - 1) as nat);
    }
}

/// Whether `c` is an ASCII decimal digit.
pub open spec fn is_digit(c: char) -> bool {
    '0' <= c && c <= '9'
}

/// The value of the digit `c`.
pub open spec fn digit_value(c: char) -> nat {
    (c as int - '0' as int) as nat
}

/// Whether every character of `s` is a decimal digit.
pub open spec fn all_digits(s: Seq<char>) -> bool {
    forall|i: int| 0 <= i < s.len() ==> is_digit(#[trigger] s[i])
}

/// The value of a string of decimal digits, read most significant first.
pub open spec fn digits_value(s: Seq<char>) -> nat
    decreases s.len(),
{
    if s.len() == 0 {
        0
    } else {
        digits_value(s.drop_last()) * 10 + digit_value(s.last())
    }
}

/// The part of `s` after an optional leading `+`.
pub open spec fn unsigned_body(s: Seq<char>) -> Seq<char> {
    if s.len() > 0 && s[0] == '+' {
        s.drop_first()
    } else {
        s
    }
}

/// The number that `str::parse` reads from `s` for an unsigned integer type,
/// before the check against the type's bound: an optional `+` followed by at
/// least one decimal digit, and nothing else.
pub open spec fn unsigned_numeral(s: Seq<char>) -> Option<nat> {
    let body = unsigned_body(s);
    if body.len() > 0 && all_digits(body) {
        Some(digits_value(body))
    } else {
        None
    }
}

/// What parsing `s` as an unsigned integer type whose largest value is `max` gives.
pub open spec fn parse_unsigned_spec(s: Seq<char>, max: nat) -> Option<nat> {
    match unsigned_numeral(s) {
        Some(v) => if v <= max { Some(v) } else { None },
        None => None,
    }
}

/// The value of a prefix of a digit string is at most the value of the whole.
proof fn lemma_digits_value_prefix(s: Seq<char>, k: int)
    requires
        all_digits(s),
        0 <= k <= s.len(),
    ensures
        digits_value(s.subrange(0, k)) <= digits_value(s),
    decreases s.len(),
{
    if k < s.len() {
        lemma_digits_value_prefix(s.drop_last(), k);
        assert(s.drop_last().subrange(0, k) =~= s.subrange(0, k));
    } else {
        assert(s.subrange(0, k) =~= s);
    }
}

/// Parses `s` as `str::parse` does for an unsigned integer type whose largest
/// value is `max` (`u64::MAX` for `u64`, `65535` for `u16`): `None` where the
/// standard library returns an error.
pub fn parse_unsigned(s: &str, max: u64) -> (r: Option<u64>)
    ensures
        r matches Some(v) ==> parse_unsigned_spec(s@, max as nat) == Some(v as nat),
        r is None ==> parse_unsigned_spec(s@, max as nat) is None,
{
    let len = s.unicode_len();
    let mut start: usize = 0;
    if len > 0 && s.get_char(0) == '+' {
        start = 1;
    }
    let ghost body = unsigned_body(s@);
    assert(body =~= s@.subrange(start as int, len as int));
    if start == len {
        return None;
    }
    let mut acc: u64 = 0;
    let mut i: usize = start;
    assert(s@.subrange(start as int, start as int) =~= Seq::<char>::empty());
    while i < len
        invariant
            start <= i <= len,
            len == s@.len(),
            body == s@.subrange(start as int, len as int),
            body == unsigned_body(s@),
            all_digits(s@.subrange(start as int, i as int)),
            acc as nat == digits_value(s@.subrange(start as int, i as int)),
            acc <= max,
        decreases len - i,
    {
        let c = s.get_char(i);
        if !('0' <= c && c <= '9') {
            assert(body[i - start] == c);
            assert(!is_digit(body[i - start]));
            return None;
        }
        let d: u64 = (c as u32 - '0' as u32) as u64;
        let next: u128 = acc as u128 * 10 + d as u128;
        let ghost pre = s@.subrange(start as int, i as int + 1);
        assert(pre.drop_last() =~= s@.subrange(start as int, i as int));
        assert(all_digits(pre));
        if next > max as u128 {
            proof {
                if all_digits(body) {
                    assert(body.subrange(0, i - start + 1) =~= pre);
                    lemma_digits_value_prefix(body, i - start + 1);
                }
            }
            return None;
        }
        acc = next as u64;
        i = i + 1;
    }
    assert(s@.subrange(start as int, i as int) =~= body);
    Some(acc)
}

/// A digit's character is a digit and reads back as the digit.
pub proof fn lemma_digit_char(d: nat)
    requires
        d < 10,
    ensures
        is_digit(digit_char(d)),
        digit_value(digit_char(d)) == d,
{
}

/// The decimal notation of a number holds only digits and reads back as the number.
pub proof fn lemma_decimal_digits(n: nat)
    ensures
        decimal(n).len() > 0,
        all_digits(decimal(n)),
        digits_value(decimal(n)) == n,
    decreases n,
{
    lemma_digit_char(n % 10);
    if n < 10 {
        assert(n % 10 == n);
        assert(decimal(n).drop_last() =~= Seq::<char>::empty());
        assert(digits_value(Seq::<char>::empty()) == 0);
    } else {
        lemma_decimal_digits(n / 10);
        let s = decimal(n);
        assert(s.drop_last() =~= decimal(n / 10));
        assert(digits_value(s) == digits_value(decimal(n / 10)) * 10 + digit_value(s.last()));
        assert(s.last() == digit_char(n % 10));
        assert(n == (n / 10) * 10 + n % 10);
        assert forall|i: int| 0 <= i < s.len() implies is_digit(#[trigger] s[i]) by {
            if i < s.len() - 1 {
                assert(s[i] == decimal(n / 10)[i]);
            }
        }
    }
}

/// Parsing what `render_u64` renders gives the number back, for every bound
/// that the number is within.
pub proof fn law_parse_renders_back(n: u64, max: u64)
    requires
        n <= max,
    ensures
        parse_unsigned_spec(decimal(n as nat), max as nat) == Some(n as nat),
{
    lemma_decimal_digits(n as nat);
    let s = decimal(n as nat);
    assert(is_digit(s[0]));
    assert(unsigned_body(s) == s);
}

} // verus!
