//! Character-level text handling shared by the prompts and the archive search:
//! Unicode white-space trimming, unsigned decimal numerals (both ways) and
//! suffix tests.

use vstd::prelude::*;

verus! {

// ---------------------------------------------------------------------------
// Characters
// ---------------------------------------------------------------------------

/// Copies the characters of `s` into a vector, in order.
pub fn chars_of(s: &str) -> (res: Vec<char>)
    ensures
        res@ == s@,
{
    let mut out: Vec<char> = Vec::new();
    for c in it: s.chars()
        invariant
            it.seq() == s@,
            out@ == it.seq().take(it.index()),
    {
        out.push(c);
    }
    out
}

/// Whether `a` and `b` hold the same characters.
pub fn same_text(a: &str, b: &str) -> (res: bool)
    ensures
        res == (a@ == b@),
{
    let x = chars_of(a);
    let y = chars_of(b);
    if x.len() != y.len() {
        return false;
    }
    let mut i: usize = 0;
    while i < x.len()
        invariant
            x@ == a@,
            y@ == b@,
            x.len() == y.len(),
            i <= x.len(),
            forall|k: int| 0 <= k < i ==> x@[k] == y@[k],
        decreases x.len() - i,
    {
        if x[i] != y[i] {
            return false;
        }
        i = i + 1;
    }
    assert(a@ =~= b@);
    true
}

/// The characters with the Unicode `White_Space` property, which is what
/// `char::is_whitespace` tests.
pub open spec fn is_white_space(c: char) -> bool {
    ||| ('\u{9}' <= c && c <= '\u{d}')
    ||| c == ' '
    ||| c == '\u{85}'
    ||| c == '\u{a0}'
    ||| c == '\u{1680}'
    ||| ('\u{2000}' <= c && c <= '\u{200a}')
    ||| c == '\u{2028}'
    ||| c == '\u{2029}'
    ||| c == '\u{202f}'
    ||| c == '\u{205f}'
    ||| c == '\u{3000}'
}

/// Executable form of [`is_white_space`].
pub fn white_space(c: char) -> (res: bool)
    ensures
        res == is_white_space(c),
{
    ('\u{9}' <= c && c <= '\u{d}') || c == ' ' || c == '\u{85}' || c == '\u{a0}' || c
        == '\u{1680}' || ('\u{2000}' <= c && c <= '\u{200a}') || c == '\u{2028}' || c
        == '\u{2029}' || c == '\u{202f}' || c == '\u{205f}' || c == '\u{3000}'
}

// ---------------------------------------------------------------------------
// Trimming
// ---------------------------------------------------------------------------

/// `s` without its leading white space.
pub open spec fn trim_start_spec(s: Seq<char>) -> Seq<char>
    decreases s.len(),
{
    if s.len() > 0 && is_white_space(s[0]) {
        trim_start_spec(s.drop_first())
    } else {
        s
    }
}

/// `s` without its trailing white space.
pub open spec fn trim_end_spec(s: Seq<char>) -> Seq<char>
    decreases s.len(),
{
    if s.len() > 0 && is_white_space(s.last()) {
        trim_end_spec(s.drop_last())
    } else {
        s
    }
}

/// `s` without leading and trailing white space (what `str::trim` returns).
pub open spec fn trim_spec(s: Seq<char>) -> Seq<char> {
    trim_end_spec(trim_start_spec(s))
}

/// Removes the leading and trailing white space of `s`.
pub fn trim(s: &str) -> (res: String)
    ensures
        res@ == trim_spec(s@),
{
    let v = chars_of(s);
    let n = v.len();
    let mut i: usize = 0;
    assert(s@.subrange(0, n as int) =~= s@);
    while i < n && white_space(v[i])
        invariant
            v@ == s@,
            n == v.len(),
            i <= n,
            trim_start_spec(s@) == trim_start_spec(s@.subrange(i as int, n as int)),
        decreases n - i,
    {
        assert(s@.subrange(i as int, n as int).drop_first() =~= s@.subrange(
            i + 1,
            n as int,
        ));
        i = i + 1;
    }
    let ghost tail = s@.subrange(i as int, n as int);
    assert(trim_start_spec(tail) == tail);
    let mut j: usize = n;
    while j > i && white_space(v[j - 1])
        invariant
            v@ == s@,
            n == v.len(),
            i <= j <= n,
            tail == s@.subrange(i as int, n as int),
            trim_end_spec(tail) == trim_end_spec(s@.subrange(i as int, j as int)),
        decreases j - i,
    {
        assert(s@.subrange(i as int, j as int).drop_last() =~= s@.subrange(
            i as int,
            j - 1,
        ));
        j = j - 1;
    }
    assert(tail =~= s@.subrange(i as int, n as int));
    let kept = s.substring_char(i, j);
    kept.to_owned()
}

/// Trimming from the front never leaves white space at the front.
proof fn lemma_trim_start_front(s: Seq<char>)
    ensures
        trim_start_spec(s).len() > 0 ==> !is_white_space(trim_start_spec(s)[0]),
    decreases s.len(),
{
    if s.len() > 0 && is_white_space(s[0]) {
        lemma_trim_start_front(s.drop_first());
    }
}

/// Trimming from the back keeps a prefix and leaves no white space at the back.
proof fn lemma_trim_end_prefix(s: Seq<char>)
    ensures
        trim_end_spec(s).len() <= s.len(),
        trim_end_spec(s) =~= s.subrange(0, trim_end_spec(s).len() as int),
        trim_end_spec(s).len() > 0 ==> !is_white_space(trim_end_spec(s).last()),
    decreases s.len(),
{
    if s.len() > 0 && is_white_space(s.last()) {
        lemma_trim_end_prefix(s.drop_last());
    }
}

/// Trimming twice gives what trimming once gives.
pub proof fn lemma_trim_idempotent(s: Seq<char>)
    ensures
        trim_spec(trim_spec(s)) == trim_spec(s),
{
    let t = trim_start_spec(s);
    let u = trim_end_spec(t);
    lemma_trim_start_front(s);
    lemma_trim_end_prefix(t);
    if u.len() > 0 {
        assert(u[0] == t[0]);
    }
    assert(trim_start_spec(u) == u);
    assert(trim_end_spec(u) == u);
}

// ---------------------------------------------------------------------------
// Unsigned decimal numerals
// ---------------------------------------------------------------------------

/// An ASCII decimal digit.
pub open spec fn is_digit(c: char) -> bool {
    '0' <= c && c <= '9'
}

/// The value of an ASCII decimal digit.
pub open spec fn digit_value(c: char) -> int {
    c as int - '0' as int
}

/// Every character of `s` is an ASCII decimal digit.
pub open spec fn all_digits(s: Seq<char>) -> bool {
    forall|i: int| 0 <= i < s.len() ==> is_digit(#[trigger] s[i])
}

/// The number that the digits `s` write in base ten (0 for no digits).
pub open spec fn digits_value(s: Seq<char>) -> int
    decreases s.len(),
{
    if s.len() == 0 {
        0
    } else {
        digits_value(s.drop_last()) * 10 + digit_value(s.last())
    }
}

/// What is left of a numeral once an optional leading `+` is taken off.
pub open spec fn unsigned_body(s: Seq<char>) -> Seq<char> {
    if s.len() > 0 && s[0] == '+' {
        s.drop_first()
    } else {
        s
    }
}

/// What `str::parse` gives for an unsigned integer type whose largest value is
/// `max`: an optional `+`, then at least one ASCII digit and nothing else, with
/// a value no larger than `max`.
pub open spec fn parse_unsigned_spec(s: Seq<char>, max: int) -> Option<int> {
    let body = unsigned_body(s);
    if body.len() > 0 && all_digits(body) && digits_value(body) <= max {
        Some(digits_value(body))
    } else {
        None
    }
}

/// The value of digits is never negative, and a prefix of them never writes
/// a larger number.
proof fn lemma_digits_prefix(s: Seq<char>, k: int)
    requires
        all_digits(s),
        0 <= k <= s.len(),
    ensures
        0 <= digits_value(s.take(k)) <= digits_value(s),
    decreases s.len(),
{
    if k == s.len() {
        assert(s.take(k) =~= s);
        lemma_digits_nonneg(s);
    } else {
        let d = s.drop_last();
        assert(all_digits(d)) by {
            assert forall|i: int| 0 <= i < d.len() implies is_digit(#[trigger] d[i]) by {
                assert(d[i] == s[i]);
            }
        }
        lemma_digits_prefix(d, k);
        assert(d.take(k) =~= s.take(k));
        assert(is_digit(s[s.len() - 1]));
    }
}

proof fn lemma_digits_nonneg(s: Seq<char>)
    requires
        all_digits(s),
    ensures
        digits_value(s) >= 0,
    decreases s.len(),
{
    if s.len() > 0 {
        let d = s.drop_last();
        assert(all_digits(d)) by {
            assert forall|i: int| 0 <= i < d.len() implies is_digit(#[trigger] d[i]) by {
                assert(d[i] == s[i]);
            }
        }
        lemma_digits_nonneg(d);
        assert(is_digit(s[s.len() - 1]));
    }
}

/// Reads `s` as an unsigned decimal numeral no larger than `max`, as
/// `str::parse` reads one for an unsigned integer type with that largest value.
pub fn parse_unsigned(s: &str, max: u64) -> (res: Option<u64>)
    ensures
        match res {
            Some(v) => parse_unsigned_spec(s@, max as int) == Some(v as int),
            None => parse_unsigned_spec(s@, max as int) is None,
        },
{
    let v = chars_of(s);
    let n = v.len();
    let start: usize = if n > 0 && v[0] == '+' {
        1
    } else {
        0
    };
    let ghost body = s@.subrange(start as int, n as int);
    assert(body =~= unsigned_body(s@));
    if start == n {
        assert(unsigned_body(s@).len() == 0);
        assert(parse_unsigned_spec(s@, max as int) is None);
        return None;
    }
    let mut i: usize = start;
    while i < n
        invariant
            v@ == s@,
            n == v.len(),
            start <= i <= n,
            body == s@.subrange(start as int, n as int),
            body == unsigned_body(s@),
            forall|k: int| start <= k < i ==> is_digit(#[trigger] s@[k]),
        decreases n - i,
    {
        if !('0' <= v[i] && v[i] <= '9') {
            assert(!is_digit(body[i - start]));
            return None;
        }
        i = i + 1;
    }
    assert(all_digits(body)) by {
        assert forall|k: int| 0 <= k < body.len() implies is_digit(#[trigger] body[k]) by {
            assert(body[k] == s@[k + start]);
        }
    }
    let mut acc: u64 = 0;
    let mut i: usize = start;
    assert(body.take(0) =~= Seq::<char>::empty());
    while i < n
        invariant
            v@ == s@,
            n == v.len(),
            start <= i <= n,
            body == s@.subrange(start as int, n as int),
            body == unsigned_body(s@),
            all_digits(body),
            acc as int == digits_value(body.take(i - start)),
            acc <= max,
        decreases n - i,
    {
        let c = v[i];
        let d: u64 = if c == '0' { 0 } else if c == '1' { 1 } else if c == '2' { 2 } else if c
            == '3' { 3 } else if c == '4' { 4 } else if c == '5' { 5 } else if c == '6' {
            6
        } else if c == '7' { 7 } else if c == '8' { 8 } else { 9 };
        assert(body[i - start] == c);
        assert(is_digit(body[i - start]));
        assert(d as int == digit_value(c));
        assert(body.take(i - start + 1).drop_last() =~= body.take(i - start));
        let next: u128 = (acc as u128) * 10 + (d as u128);
        assert(body.take(i - start + 1).last() == c);
        assert(digits_value(body.take(i - start + 1)) == next as int);
        if next > max as u128 {
            proof {
                lemma_digits_prefix(body, i - start + 1);
            }
            return None;
        }
        acc = next as u64;
        i = i + 1;
    }
    assert(body.take(n - start) =~= body);
    Some(acc)
}

/// The character of a digit value below ten.
pub open spec fn digit_char(d: int) -> char {
    (d + '0' as int) as char
}

/// The shortest base-ten numeral of `n`.
pub open spec fn decimal_spec(n: nat) -> Seq<char>
    decreases n,
{
    if n < 10 {
        seq![digit_char(n as int)]
    } else {
        decimal_spec(n / 10).push(digit_char((n % 10) as int))
    }
}

/// The one-character numeral of a digit value.
fn digit_text(d: u64) -> (res: &'static str)
    requires
        d < 10,
    ensures
        res@ == seq![digit_char(d as int)],
{
    proof {
        reveal_strlit("0");
        reveal_strlit("1");
        reveal_strlit("2");
        reveal_strlit("3");
        reveal_strlit("4");
        reveal_strlit("5");
        reveal_strlit("6");
        reveal_strlit("7");
        reveal_strlit("8");
        reveal_strlit("9");
    }
    let r = if d == 0 {
        "0"
    } else if d == 1 {
        "1"
    } else if d == 2 {
        "2"
    } else if d == 3 {
        "3"
    } else if d == 4 {
        "4"
    } else if d == 5 {
        "5"
    } else if d == 6 {
        "6"
    } else if d == 7 {
        "7"
    } else if d == 8 {
        "8"
    } else {
        "9"
    };
    assert(r@ =~= seq![digit_char(d as int)]);
    r
}

/// Writes `n` in base ten, as `n.to_string()` does.
pub fn decimal(n: u64) -> (res: String)
    ensures
        res@ == decimal_spec(n as nat),
    decreases n,
{
    if n < 10 {
        String::from_str(digit_text(n))
    } else {
        let mut s = decimal(n / 10);
        s.append(digit_text(n % 10));
        s
    }
}

/// The base-ten numeral of a signed number: a minus sign before the digits of
/// a negative one.
pub open spec fn signed_decimal_spec(n: int) -> Seq<char> {
    if n < 0 {
        "-"@ + decimal_spec((-n) as nat)
    } else {
        decimal_spec(n as nat)
    }
}

/// Writes `n` in base ten, as `n.to_string()` does.
pub fn signed_decimal(n: i32) -> (res: String)
    ensures
        res@ == signed_decimal_spec(n as int),
{
    if n < 0 {
        let magnitude: u64 = (-(n as i64)) as u64;
        let mut s = String::from_str("-");
        let digits = decimal(magnitude);
        s.append(digits.as_str());
        s
    } else {
        decimal(n as u64)
    }
}

/// Every numeral that [`decimal_spec`] writes is a run of digits whose value is
/// the number written.
pub proof fn lemma_decimal_digits(n: nat)
    ensures
        decimal_spec(n).len() > 0,
        all_digits(decimal_spec(n)),
        digits_value(decimal_spec(n)) == n,
    decreases n,
{
    if n >= 10 {
        lemma_decimal_digits(n / 10);
        let s = decimal_spec(n);
        let p = decimal_spec(n / 10);
        assert(s.drop_last() =~= p);
        assert(s.last() == digit_char((n % 10) as int));
        assert(digit_value(digit_char((n % 10) as int)) == n % 10);
        assert(digits_value(p) == n / 10);
        assert(digits_value(s) == digits_value(p) * 10 + digit_value(s.last()));
        assert(n == (n / 10) * 10 + n % 10);
        assert forall|i: int| 0 <= i < s.len() implies is_digit(#[trigger] s[i]) by {
            if i < p.len() {
                assert(s[i] == p[i]);
            }
        }
    } else {
        let s = decimal_spec(n);
        assert(s.drop_last() =~= Seq::<char>::empty());
        assert(digit_value(digit_char(n as int)) == n);
        assert(digits_value(s.drop_last()) == 0);
        assert(digits_value(s) == digit_value(s.last()));
    }
}

/// A decimal numeral has no white space around it, so trimming keeps it.
pub proof fn lemma_digits_untrimmed(n: nat)
    ensures
        trim_spec(decimal_spec(n)) == decimal_spec(n),
{
    lemma_decimal_digits(n);
    let s = decimal_spec(n);
    assert(is_digit(s[0]));
    assert(is_digit(s[s.len() - 1]));
    assert(trim_start_spec(s) == s);
    assert(s.last() == s[s.len() - 1]);
    assert(trim_end_spec(s) == s);
}

/// Reading back what [`decimal`] writes gives the number written.
pub proof fn lemma_decimal_roundtrip(n: nat, max: int)
    requires
        n <= max,
    ensures
        parse_unsigned_spec(decimal_spec(n), max) == Some(n as int),
{
    lemma_decimal_digits(n);
    let s = decimal_spec(n);
    assert(is_digit(s[0]));
    assert(unsigned_body(s) == s);
}

// ---------------------------------------------------------------------------
// Suffixes
// ---------------------------------------------------------------------------

/// `suffix` is the end of `s`.
pub open spec fn ends_with_spec(s: Seq<char>, suffix: Seq<char>) -> bool {
    suffix.len() <= s.len() && s.subrange(s.len() - suffix.len(), s.len() as int) == suffix
}

/// Whether `s` ends with `suffix` (what `str::ends_with` answers for a string
/// pattern).
pub fn ends_with(s: &str, suffix: &str) -> (res: bool)
    ensures
        res == ends_with_spec(s@, suffix@),
{
    let x = chars_of(s);
    let y = chars_of(suffix);
    if y.len() > x.len() {
        return false;
    }
    let off = x.len() - y.len();
    let mut i: usize = 0;
    while i < y.len()
        invariant
            x@ == s@,
            y@ == suffix@,
            y.len() <= x.len(),
            off == x.len() - y.len(),
            i <= y.len(),
            forall|k: int| 0 <= k < i ==> x@[off + k] == y@[k],
        decreases y.len() - i,
    {
        if x[off + i] != y[i] {
            assert(s@.subrange(off as int, x.len() as int)[i as int] != suffix@[i as int]);
            return false;
        }
        i = i + 1;
    }
    assert(s@.subrange(off as int, x.len() as int) =~= suffix@);
    true
}

} // verus!
