//! Character-level helpers shared by the identifier formats and wire values.

use vstd::prelude::*;
use vstd::string::*;

verus! {

/// The characters of a string slice, in order.
pub fn chars_of(s: &str) -> (r: Vec<char>)
    ensures
        r@ == s@,
{
    let n = s.unicode_len();
    let mut r: Vec<char> = Vec::new();
    let mut i: usize = 0;
    while i < n
        invariant
            n == s@.len(),
            i <= n,
            r@ == s@.subrange(0, i as int),
        decreases n - i,
    {
        let c = s.get_char(i);
        r.push(c);
        i = i + 1;
        assert(r@ =~= s@.subrange(0, i as int));
    }
    assert(r@ =~= s@);
    r
}

/// The UTF-8 bytes of a text.
pub open spec fn utf8_of(s: Seq<char>) -> Seq<u8> {
    vstd::utf8::encode_utf8(s)
}

/// How `{:?}` writes a text (std's `Debug` for `str`): quoted, with escapes.
pub uninterp spec fn debug_text_of(s: Seq<char>) -> Seq<char>;

/// Writes a text as `{:?}` does.
#[verifier::external_body]
pub(crate) fn debug_text(s: &str) -> (r: String)
    ensures
        r@ == debug_text_of(s@),
{
    format!("{s:?}")
}

/// Builds an owned string from characters (std `String::from_iter`).
#[verifier::external_body]
pub(crate) fn string_from_chars(cs: &[char]) -> (r: String)
    ensures
        r@ == cs@,
{
    String::from_iter(cs.iter())
}

/// Whether two character sequences are equal.
pub fn chars_eq(a: &[char], b: &[char]) -> (r: bool)
    ensures
        r == (a@ == b@),
{
    if a.len() != b.len() {
        return false;
    }
    let mut i: usize = 0;
    while i < a.len()
        invariant
            a@.len() == b@.len(),
            i <= a@.len(),
            forall|j: int| 0 <= j < i ==> a@[j] == b@[j],
        decreases a.len() - i,
    {
        if a[i] != b[i] {
            return false;
        }
        i = i + 1;
    }
    assert(a@ =~= b@);
    true
}

/// Whether two string slices hold the same text.
pub fn text_eq(a: &str, b: &str) -> (r: bool)
    ensures
        r == (a@ == b@),
{
    let x = chars_of(a);
    let y = chars_of(b);
    chars_eq(x.as_slice(), y.as_slice())
}

/// Whether `c` is an ASCII decimal digit.
pub open spec fn is_digit(c: char) -> bool {
    '0' <= c && c <= '9'
}

/// The decimal digit character of a value below 10.
pub open spec fn digit_char(d: nat) -> char {
    (48 + d) as char
}

/// Whether every character of `s` is an ASCII decimal digit.
pub open spec fn all_digits(s: Seq<char>) -> bool {
    forall|i: int| 0 <= i < s.len() ==> is_digit(#[trigger] s[i])
}

/// The value of a run of decimal digits, most significant first.
pub open spec fn digits_value(s: Seq<char>) -> nat
    decreases s.len(),
{
    if s.len() == 0 {
        0
    } else {
        digits_value(s.drop_last()) * 10 + ((s.last() as nat) - 48) as nat
    }
}

/// The shortest decimal text of a natural number.
pub open spec fn nat_text(n: nat) -> Seq<char>
    decreases n,
{
    if n < 10 {
        seq![digit_char(n)]
    } else {
        nat_text(n / 10).push(digit_char(n % 10))
    }
}

/// The decimal text of an integer, with a leading `-` when negative.
pub open spec fn int_text(v: int) -> Seq<char> {
    if v < 0 {
        seq!['-'] + nat_text((-v) as nat)
    } else {
        nat_text(v as nat)
    }
}

/// The magnitude read by std's integer parsing: an optional sign character
/// (`+`, or `-` when `signed`) followed by at least one decimal digit.
pub open spec fn unsigned_magnitude(s: Seq<char>) -> Option<nat> {
    if s.len() > 0 && all_digits(s) {
        Some(digits_value(s))
    } else if s.len() > 1 && s[0] == '+' && all_digits(s.subrange(1, s.len() as int)) {
        Some(digits_value(s.subrange(1, s.len() as int)))
    } else {
        None
    }
}

/// What `str::parse::<u64>` gives for a text.
pub open spec fn parse_u64_result(s: Seq<char>) -> Option<u64> {
    match unsigned_magnitude(s) {
        Some(m) if m <= u64::MAX => Some(m as u64),
        _ => None,
    }
}

/// What `str::parse::<i32>` gives for a text.
pub open spec fn parse_i32_result(s: Seq<char>) -> Option<i32> {
    if s.len() > 1 && s[0] == '-' && all_digits(s.subrange(1, s.len() as int)) {
        let m = digits_value(s.subrange(1, s.len() as int));
        if m <= 0x8000_0000 {
            Some((-m) as i32)
        } else {
            None
        }
    } else {
        match unsigned_magnitude(s) {
            Some(m) if m <= i32::MAX => Some(m as i32),
            _ => None,
        }
    }
}

/// The value of a digit run grows with each further digit.
pub proof fn lemma_digits_value_prefix(s: Seq<char>, k: int)
    requires
        0 <= k <= s.len(),
        all_digits(s),
    ensures
        digits_value(s.subrange(0, k)) <= digits_value(s),
    decreases s.len() - k,
{
    if k < s.len() {
        lemma_digits_value_prefix(s, k + 1);
        let t = s.subrange(0, k + 1);
        assert(t.drop_last() =~= s.subrange(0, k));
        assert(is_digit(s[k]));
    }
    else {
        assert(s.subrange(0, k) =~= s);
    }
}

/// The decimal text of `n` is a non-empty digit run whose value is `n`.
pub proof fn lemma_nat_text(n: nat)
    ensures
        nat_text(n).len() > 0,
        all_digits(nat_text(n)),
        digits_value(nat_text(n)) == n,
        nat_text(n)[0] != '-' && nat_text(n)[0] != '+',
    decreases n,
{
    if n >= 10 {
        lemma_nat_text(n / 10);
        let t = nat_text(n);
        assert(t.drop_last() =~= nat_text(n / 10));
        assert(t[0] == nat_text(n / 10)[0]);
        assert((digit_char(n % 10) as nat) == 48 + n % 10);
        assert(t.last() == digit_char(n % 10));
        assert(digits_value(t) == digits_value(nat_text(n / 10)) * 10 + n % 10);
        assert((n / 10) * 10 + n % 10 == n) by (nonlinear_arith);
        assert forall|i: int| 0 <= i < t.len() implies is_digit(#[trigger] t[i]) by {
            if i < t.len() - 1 {
                assert(t[i] == nat_text(n / 10)[i]);
            }
        }
    } else {
        assert(nat_text(n).drop_last() =~= Seq::<char>::empty());
        assert((digit_char(n) as nat) == 48 + n);
        assert(nat_text(n).last() == digit_char(n));
        assert(digits_value(nat_text(n).drop_last()) == 0);
    }
}

/// `str::parse::<i32>` reads back the decimal text of any `i32`.
pub proof fn lemma_int_text_parses(v: i32)
    ensures
        parse_i32_result(int_text(v as int)) == Some(v),
{
    if v < 0 {
        let m = (-(v as int)) as nat;
        lemma_nat_text(m);
        let t = int_text(v as int);
        assert(t.subrange(1, t.len() as int) =~= nat_text(m));
    } else {
        lemma_nat_text(v as nat);
    }
}

/// The decimal characters of a natural number.
pub fn nat_chars(n: u64) -> (r: Vec<char>)
    ensures
        r@ == nat_text(n as nat),
    decreases n,
{
    if n < 10 {
        let mut r: Vec<char> = Vec::new();
        r.push(((48u8 + n as u8) as char));
        assert(r@ =~= seq![digit_char(n as nat)]);
        r
    } else {
        let mut r = nat_chars(n / 10);
        let d: u8 = (n % 10) as u8;
        r.push((48u8 + d) as char);
        r
    }
}

/// The decimal characters of an `i32`, with a leading `-` when negative.
pub fn int_chars(v: i32) -> (r: Vec<char>)
    ensures
        r@ == int_text(v as int),
{
    if v < 0 {
        let m: u64 = (-(v as i64)) as u64;
        let digits = nat_chars(m);
        let mut r: Vec<char> = Vec::new();
        r.push('-');
        let mut i: usize = 0;
        while i < digits.len()
            invariant
                r@ == seq!['-'] + digits@.subrange(0, i as int),
                i <= digits@.len(),
            decreases digits.len() - i,
        {
            r.push(digits[i]);
            i = i + 1;
            assert(r@ =~= seq!['-'] + digits@.subrange(0, i as int));
        }
        assert(digits@.subrange(0, digits@.len() as int) =~= digits@);
        r
    } else {
        nat_chars(v as u64)
    }
}

/// Reads a non-empty run of decimal digits whose value fits in `u64`.
pub fn parse_digits(s: &[char]) -> (r: Option<u64>)
    ensures
        r == (if s@.len() > 0 && all_digits(s@) && digits_value(s@) <= u64::MAX {
            Some(digits_value(s@) as u64)
        } else {
            None::<u64>
        }),
{
    if s.len() == 0 {
        return None;
    }
    let mut acc: u64 = 0;
    let mut i: usize = 0;
    while i < s.len()
        invariant
            i <= s@.len(),
            all_digits(s@.subrange(0, i as int)),
            acc as nat == digits_value(s@.subrange(0, i as int)),
        decreases s.len() - i,
    {
        let c = s[i];
        if !('0' <= c && c <= '9') {
            assert(!all_digits(s@));
            return None;
        }
        let d: u64 = (c as u64) - 48;
        assert(s@.subrange(0, i + 1).drop_last() =~= s@.subrange(0, i as int));
        if acc > (u64::MAX - d) / 10 {
            proof {
                assert(all_digits(s@.subrange(0, i + 1)));
                assert(digits_value(s@.subrange(0, i + 1)) > u64::MAX);
                if all_digits(s@) {
                    lemma_digits_value_prefix(s@, i + 1);
                }
            }
            return None;
        }
        acc = acc * 10 + d;
        i = i + 1;
    }
    assert(s@.subrange(0, s@.len() as int) =~= s@);
    Some(acc)
}

/// `str::parse::<u64>` over characters.
pub fn parse_u64(s: &[char]) -> (r: Option<u64>)
    ensures
        r == parse_u64_result(s@),
{
    if s.len() > 1 && s[0] == '+' {
        let rest = slice_from(s, 1);
        proof {
            if s@.len() > 0 && all_digits(s@) {
                assert(!is_digit(s@[0]));
            }
        }
        parse_digits(rest.as_slice())
    } else {
        parse_digits(s)
    }
}

/// `str::parse::<i32>` over characters.
pub fn parse_i32(s: &[char]) -> (r: Option<i32>)
    ensures
        r == parse_i32_result(s@),
{
    if s.len() > 1 && s[0] == '-' {
        let rest = slice_from(s, 1);
        match parse_digits(rest.as_slice()) {
            Some(m) => {
                if m <= 0x8000_0000 {
                    Some((-(m as i64)) as i32)
                } else {
                    None
                }
            },
            None => {
                proof {
                    if all_digits(rest@) {
                        assert(digits_value(rest@) > u64::MAX);
                    }
                }
                None
            },
        }
    } else {
        proof {
            if s@.len() > 0 && all_digits(s@) {
                assert(is_digit(s@[0]));
            }
        }
        match parse_u64(s) {
            Some(m) => {
                if m <= 0x7fff_ffff {
                    Some(m as i32)
                } else {
                    None
                }
            },
            None => {
                proof {
                    if unsigned_magnitude(s@).is_some() {
                        assert(unsigned_magnitude(s@).unwrap() > u64::MAX);
                    }
                }
                None
            },
        }
    }
}

/// The characters of `s` from position `start` on.
pub fn slice_from(s: &[char], start: usize) -> (r: Vec<char>)
    requires
        start <= s@.len(),
    ensures
        r@ == s@.subrange(start as int, s@.len() as int),
{
    let mut r: Vec<char> = Vec::new();
    let mut i: usize = start;
    while i < s.len()
        invariant
            start <= i <= s@.len(),
            r@ == s@.subrange(start as int, i as int),
        decreases s.len() - i,
    {
        r.push(s[i]);
        i = i + 1;
        assert(r@ =~= s@.subrange(start as int, i as int));
    }
    r
}

/// Unicode `White_Space` (std `char::is_whitespace`).
pub open spec fn is_white_space(c: char) -> bool {
    ('\u{9}' <= c && c <= '\u{d}') || c == ' ' || c == '\u{85}' || c == '\u{a0}' || c == '\u{1680}' || (
    '\u{2000}' <= c && c <= '\u{200a}') || c == '\u{2028}' || c == '\u{2029}' || c == '\u{202f}' || c
        == '\u{205f}' || c == '\u{3000}'
}

/// `s` without its leading white space.
pub open spec fn trim_start(s: Seq<char>) -> Seq<char>
    decreases s.len(),
{
    if s.len() > 0 && is_white_space(s[0]) {
        trim_start(s.drop_first())
    } else {
        s
    }
}

/// `s` without its trailing white space.
pub open spec fn trim_end(s: Seq<char>) -> Seq<char>
    decreases s.len(),
{
    if s.len() > 0 && is_white_space(s.last()) {
        trim_end(s.drop_last())
    } else {
        s
    }
}

/// `s` without leading and trailing white space (std `str::trim`).
pub open spec fn trimmed(s: Seq<char>) -> Seq<char> {
    trim_end(trim_start(s))
}

/// Whether `c` is Unicode white space.
pub fn white_space(c: char) -> (r: bool)
    ensures
        r == is_white_space(c),
{
    ('\u{9}' <= c && c <= '\u{d}') || c == ' ' || c == '\u{85}' || c == '\u{a0}' || c == '\u{1680}' || (
    '\u{2000}' <= c && c <= '\u{200a}') || c == '\u{2028}' || c == '\u{2029}' || c == '\u{202f}' || c
        == '\u{205f}' || c == '\u{3000}'
}

proof fn lemma_trim_start_skip(s: Seq<char>, a: int)
    requires
        0 <= a <= s.len(),
        forall|i: int| 0 <= i < a ==> is_white_space(#[trigger] s[i]),
    ensures
        trim_start(s) == trim_start(s.subrange(a, s.len() as int)),
    decreases a,
{
    if a > 0 {
        lemma_trim_start_skip(s.drop_first(), a - 1);
        assert(s.drop_first().subrange(a - 1, s.drop_first().len() as int) =~= s.subrange(a, s.len() as int));
    } else {
        assert(s.subrange(0, s.len() as int) =~= s);
    }
}

proof fn lemma_trim_end_cut(s: Seq<char>, b: int)
    requires
        0 <= b <= s.len(),
        forall|i: int| b <= i < s.len() ==> is_white_space(#[trigger] s[i]),
    ensures
        trim_end(s) == trim_end(s.subrange(0, b)),
    decreases s.len() - b,
{
    if b < s.len() {
        assert(is_white_space(s[s.len() - 1]));
        lemma_trim_end_cut(s.drop_last(), b);
        assert(s.drop_last().subrange(0, b) =~= s.subrange(0, b));
    } else {
        assert(s.subrange(0, b) =~= s);
    }
}

/// `s` without leading and trailing white space.
pub fn trim_chars(s: &[char]) -> (r: Vec<char>)
    ensures
        r@ == trimmed(s@),
{
    let mut a: usize = 0;
    while a < s.len() && white_space(s[a])
        invariant
            a <= s@.len(),
            forall|i: int| 0 <= i < a ==> is_white_space(#[trigger] s@[i]),
        decreases s.len() - a,
    {
        a = a + 1;
    }
    proof {
        lemma_trim_start_skip(s@, a as int);
    }
    let rest = slice_from(s, a);
    let mut b: usize = rest.len();
    while b > 0 && white_space(rest[b - 1])
        invariant
            b <= rest@.len(),
            forall|i: int| b <= i < rest@.len() ==> is_white_space(#[trigger] rest@[i]),
        decreases b,
    {
        b = b - 1;
    }
    proof {
        assert(trim_start(rest@) == rest@);
        lemma_trim_end_cut(rest@, b as int);
        let c = rest@.subrange(0, b as int);
        assert(!(c.len() > 0 && is_white_space(c.last())));
    }
    let mut r: Vec<char> = Vec::new();
    let mut i: usize = 0;
    while i < b
        invariant
            b <= rest@.len(),
            i <= b,
            r@ == rest@.subrange(0, i as int),
        decreases b - i,
    {
        r.push(rest[i]);
        i = i + 1;
        assert(r@ =~= rest@.subrange(0, i as int));
    }
    r
}

} // verus!
