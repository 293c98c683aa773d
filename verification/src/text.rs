//! Text helpers shared by the bot's modules, each with its meaning stated
//! over sequences of characters.
use vstd::prelude::*;

verus! {

/// `String::push` appends one character at the end of the string.
pub assume_specification[ String::push ](s: &mut String, ch: char)
    ensures
        final(s)@ == old(s)@.push(ch),
;

// ---------------------------------------------------------------------------
// Conversions between strings and character vectors
// ---------------------------------------------------------------------------

/// The characters of `s`, in order, as a vector.
pub fn chars_of(s: &str) -> (v: Vec<char>)
    ensures
        v@ == s@,
{
    let mut v: Vec<char> = Vec::new();
    for c in it: s.chars()
        invariant
            v@ == it.seq().take(it.index() as int),
            it.seq() == s@,
    {
        v.push(c);
    }
    v
}

/// A string holding exactly the characters of `cs`.
pub fn string_of(cs: &[char]) -> (r: String)
    ensures
        r@ == cs@,
{
    let mut r = String::new();
    let mut i: usize = 0;
    while i < cs.len()
        invariant
            i <= cs@.len(),
            r@ == cs@.take(i as int),
        decreases cs@.len() - i,
    {
        r.push(cs[i]);
        i = i + 1;
        assert(cs@.take(i as int) =~= cs@.take((i - 1) as int).push(cs@[i - 1]));
    }
    assert(cs@.take(cs@.len() as int) =~= cs@);
    r
}

/// Appends the characters `cs[from..to]` to `out`.
pub fn push_range(out: &mut String, cs: &[char], from: usize, to: usize)
    requires
        from <= to <= cs@.len(),
    ensures
        final(out)@ == old(out)@ + cs@.subrange(from as int, to as int),
{
    let mut i = from;
    while i < to
        invariant
            from <= i <= to <= cs@.len(),
            out@ == old(out)@ + cs@.subrange(from as int, i as int),
        decreases to - i,
    {
        out.push(cs[i]);
        i = i + 1;
        assert(cs@.subrange(from as int, i as int) =~= cs@.subrange(from as int, (i - 1) as int).push(
            cs@[i - 1],
        ));
    }
}

/// A new string holding the characters of `s`.
pub fn owned(s: &str) -> (r: String)
    ensures
        r@ == s@,
{
    s.to_owned()
}

/// `a` followed by `b`, as a new string.
pub fn concat2(a: &str, b: &str) -> (r: String)
    ensures
        r@ == a@ + b@,
{
    let mut r = a.to_owned();
    r.append(b);
    r
}

// ---------------------------------------------------------------------------
// Decimal numbers
// ---------------------------------------------------------------------------

/// The ASCII digit for a value below ten.
pub open spec fn digit_char(d: int) -> char {
    if d <= 0 {
        '0'
    } else if d == 1 {
        '1'
    } else if d == 2 {
        '2'
    } else if d == 3 {
        '3'
    } else if d == 4 {
        '4'
    } else if d == 5 {
        '5'
    } else if d == 6 {
        '6'
    } else if d == 7 {
        '7'
    } else if d == 8 {
        '8'
    } else {
        '9'
    }
}

/// The decimal notation of a natural number, without leading zeros.
pub open spec fn decimal(n: nat) -> Seq<char>
    decreases n,
{
    if n < 10 {
        seq![digit_char(n as int)]
    } else {
        decimal(n / 10).push(digit_char((n % 10) as int))
    }
}

/// The decimal notation of an integer, with a leading `-` when negative.
pub open spec fn signed_decimal(n: int) -> Seq<char> {
    if n < 0 {
        seq!['-'] + decimal((-n) as nat)
    } else {
        decimal(n as nat)
    }
}

fn digit(d: u64) -> (c: char)
    requires
        d < 10,
    ensures
        c == digit_char(d as int),
{
    if d == 0 {
        '0'
    } else if d == 1 {
        '1'
    } else if d == 2 {
        '2'
    } else if d == 3 {
        '3'
    } else if d == 4 {
        '4'
    } else if d == 5 {
        '5'
    } else if d == 6 {
        '6'
    } else if d == 7 {
        '7'
    } else if d == 8 {
        '8'
    } else {
        '9'
    }
}

/// Appends the decimal notation of `n` to `out`.
pub fn push_decimal(out: &mut String, n: u64)
    ensures
        final(out)@ == old(out)@ + decimal(n as nat),
    decreases n,
{
    if n >= 10 {
        push_decimal(out, n / 10);
    }
    out.push(digit(n % 10));
    assert(old(out)@ + decimal(n as nat) =~= if n >= 10 {
        (old(out)@ + decimal((n / 10) as nat)).push(digit_char((n % 10) as int))
    } else {
        old(out)@.push(digit_char((n % 10) as int))
    });
}

/// Appends the decimal notation of the wide number `n` to `out`.
pub fn push_wide_decimal(out: &mut String, n: u128)
    ensures
        final(out)@ == old(out)@ + decimal(n as nat),
    decreases n,
{
    if n >= 10 {
        push_wide_decimal(out, n / 10);
    }
    out.push(digit((n % 10) as u64));
    assert(old(out)@ + decimal(n as nat) =~= if n >= 10 {
        (old(out)@ + decimal((n / 10) as nat)).push(digit_char((n % 10) as int))
    } else {
        old(out)@.push(digit_char((n % 10) as int))
    });
}

/// The decimal notation of `n`.
pub fn decimal_string(n: u64) -> (r: String)
    ensures
        r@ == decimal(n as nat),
{
    let mut r = String::new();
    push_decimal(&mut r, n);
    assert(Seq::<char>::empty() + decimal(n as nat) =~= decimal(n as nat));
    r
}

/// Appends the decimal notation of the signed number `n` to `out`.
pub fn push_signed_decimal(out: &mut String, n: i64)
    ensures
        final(out)@ == old(out)@ + signed_decimal(n as int),
{
    if n < 0 {
        out.push('-');
        let m: u64 = if n == i64::MIN {
            9223372036854775808u64
        } else {
            (-n) as u64
        };
        push_decimal(out, m);
        assert(old(out)@ + signed_decimal(n as int) =~= old(out)@.push('-') + decimal(m as nat));
    } else {
        push_decimal(out, n as u64);
    }
}


// ---------------------------------------------------------------------------
// Parsing a signed 64-bit number (the grammar of `str::parse::<i64>`)
// ---------------------------------------------------------------------------

/// Whether `c` is an ASCII digit.
pub open spec fn is_digit(c: char) -> bool {
    '0' <= c <= '9'
}

/// The value of an ASCII digit.
pub open spec fn digit_value(c: char) -> int {
    (c as int) - ('0' as int)
}

/// The value of a sequence of ASCII digits read in base ten.
pub open spec fn digits_value(s: Seq<char>) -> int
    decreases s.len(),
{
    if s.len() == 0 {
        0
    } else {
        digits_value(s.drop_last()) * 10 + digit_value(s.last())
    }
}

/// Whether every character of `s` is an ASCII digit.
pub open spec fn all_digits(s: Seq<char>) -> bool {
    forall|i: int| 0 <= i < s.len() ==> is_digit(#[trigger] s[i])
}

/// The number that `s` denotes as an `i64`: an optional `+` or `-` followed
/// by one or more ASCII digits, within the range of `i64`; `None` otherwise.
pub open spec fn parse_i64_spec(s: Seq<char>) -> Option<i64> {
    let neg = s.len() > 0 && s[0] == '-';
    let signed = s.len() > 0 && (s[0] == '-' || s[0] == '+');
    let body = if signed {
        s.drop_first()
    } else {
        s
    };
    let v = if neg {
        -digits_value(body)
    } else {
        digits_value(body)
    };
    if body.len() > 0 && all_digits(body) && i64::MIN <= v <= i64::MAX {
        Some(v as i64)
    } else {
        None
    }
}

proof fn lemma_digits_value_nonneg(s: Seq<char>)
    requires
        all_digits(s),
    ensures
        digits_value(s) >= 0,
    decreases s.len(),
{
    if s.len() > 0 {
        lemma_digits_value_nonneg(s.drop_last());
    }
}

proof fn lemma_digits_value_monotone(s: Seq<char>, i: int)
    requires
        all_digits(s),
        0 <= i <= s.len(),
    ensures
        digits_value(s.take(i)) <= digits_value(s),
    decreases s.len(),
{
    if i < s.len() {
        lemma_digits_value_monotone(s.drop_last(), i);
        assert(s.drop_last().take(i) =~= s.take(i));
        lemma_digits_value_nonneg(s.drop_last());
        assert(digits_value(s) == digits_value(s.drop_last()) * 10 + digit_value(s.last()));
    } else {
        assert(s.take(i) =~= s);
    }
}

/// Parses `s` as `str::parse::<i64>` does.
pub fn parse_i64(s: &str) -> (r: Option<i64>)
    ensures
        r == parse_i64_spec(s@),
{
    let cs = chars_of(s);
    let n = cs.len();
    if n == 0 {
        return None;
    }
    let neg = cs[0] == '-';
    let start: usize = if cs[0] == '-' || cs[0] == '+' {
        1
    } else {
        0
    };
    let ghost body = if start == 1 {
        cs@.drop_first()
    } else {
        cs@
    };
    assert(body =~= cs@.skip(start as int));
    if start == n {
        return None;
    }
    // Accumulate the magnitude; the limit is 2^63 for negatives and 2^63 - 1 otherwise.
    let limit: u64 = if neg {
        9223372036854775808u64
    } else {
        9223372036854775807u64
    };
    let mut acc: u64 = 0;
    let mut i = start;
    while i < n
        invariant
            start <= i <= n,
            n == cs@.len(),
            cs@ == s@,
            n > 0,
            neg == (cs@[0] == '-'),
            (start == 1) == (cs@[0] == '-' || cs@[0] == '+'),
            start <= 1,
            limit == if neg {
                9223372036854775808u64
            } else {
                9223372036854775807u64
            },
            body == if start == 1 {
                cs@.drop_first()
            } else {
                cs@
            },
            body =~= cs@.skip(start as int),
            all_digits(body.take(i - start)),
            acc as int == digits_value(body.take(i - start)),
            acc <= limit,
        decreases n - i,
    {
        let c = cs[i];
        assert(body[i - start] == c);
        if !('0' <= c && c <= '9') {
            assert(!is_digit(body[i - start]));
            assert(!all_digits(body));
            return None;
        }
        let d = (c as u32 - '0' as u32) as u64;
        assert(d <= 9);
        assert(d == digit_value(c));
        assert(body.take(i - start + 1).drop_last() =~= body.take(i - start));
        assert(body.take(i - start + 1).last() == c);
        if acc > (limit - d) / 10 {
            proof {
                assert(digits_value(body.take(i - start + 1)) > limit) by (nonlinear_arith)
                    requires
                        acc > (limit - d) / 10,
                        digits_value(body.take(i - start + 1)) == acc * 10 + d,
                        d <= 9,
                        d <= limit,
                ;
                if all_digits(body) {
                    lemma_digits_value_monotone(body, i - start + 1);
                }
            }
            return None;
        }
        assert(acc * 10 + d <= limit) by (nonlinear_arith)
            requires
                acc <= (limit - d) / 10,
                d <= limit,
        ;
        acc = acc * 10 + d;
        i = i + 1;
        assert(all_digits(body.take(i - start))) by {
            assert forall|j: int| 0 <= j < body.take(i - start).len() implies is_digit(
                #[trigger] body.take(i - start)[j],
            ) by {
                if j < i - start - 1 {
                    assert(body.take(i - start)[j] == body.take(i - start - 1)[j]);
                }
            }
        }
    }
    assert(body.take(n - start) =~= body);
    if neg {
        if acc == 9223372036854775808u64 {
            Some(i64::MIN)
        } else {
            Some(-(acc as i64))
        }
    } else {
        Some(acc as i64)
    }
}

/// The number that `s` denotes as a `u64`: an optional `+` followed by one or
/// more ASCII digits, within the range of `u64`; `None` otherwise.
pub open spec fn parse_u64_spec(s: Seq<char>) -> Option<u64> {
    let body = if s.len() > 0 && s[0] == '+' {
        s.drop_first()
    } else {
        s
    };
    if body.len() > 0 && all_digits(body) && digits_value(body) <= u64::MAX {
        Some(digits_value(body) as u64)
    } else {
        None
    }
}

/// Parses `s` as `str::parse::<u64>` does.
pub fn parse_u64(s: &str) -> (r: Option<u64>)
    ensures
        r == parse_u64_spec(s@),
{
    let cs = chars_of(s);
    let n = cs.len();
    if n == 0 {
        return None;
    }
    let start: usize = if cs[0] == '+' {
        1
    } else {
        0
    };
    let ghost body = if start == 1 {
        cs@.drop_first()
    } else {
        cs@
    };
    if start == n {
        return None;
    }
    let mut acc: u64 = 0;
    let mut i = start;
    while i < n
        invariant
            start <= i <= n,
            n == cs@.len(),
            cs@ == s@,
            n > 0,
            (start == 1) == (cs@[0] == '+'),
            start <= 1,
            body == if start == 1 {
                cs@.drop_first()
            } else {
                cs@
            },
            body =~= cs@.skip(start as int),
            all_digits(body.take(i - start)),
            acc as int == digits_value(body.take(i - start)),
        decreases n - i,
    {
        let c = cs[i];
        assert(body[i - start] == c);
        if !('0' <= c && c <= '9') {
            assert(!is_digit(body[i - start]));
            assert(!all_digits(body));
            return None;
        }
        let d = (c as u32 - '0' as u32) as u64;
        assert(d <= 9);
        assert(d == digit_value(c));
        assert(body.take(i - start + 1).drop_last() =~= body.take(i - start));
        assert(body.take(i - start + 1).last() == c);
        if acc > (u64::MAX - d) / 10 {
            proof {
                assert(digits_value(body.take(i - start + 1)) > u64::MAX) by (nonlinear_arith)
                    requires
                        acc > (u64::MAX - d) / 10,
                        digits_value(body.take(i - start + 1)) == acc * 10 + d,
                        d <= 9,
                ;
                if all_digits(body) {
                    lemma_digits_value_monotone(body, i - start + 1);
                }
            }
            return None;
        }
        assert(acc * 10 + d <= u64::MAX) by (nonlinear_arith)
            requires
                acc <= (u64::MAX - d) / 10,
                d <= 9,
        ;
        acc = acc * 10 + d;
        i = i + 1;
        assert(all_digits(body.take(i - start))) by {
            assert forall|j: int| 0 <= j < body.take(i - start).len() implies is_digit(
                #[trigger] body.take(i - start)[j],
            ) by {
                if j < i - start - 1 {
                    assert(body.take(i - start)[j] == body.take(i - start - 1)[j]);
                }
            }
        }
    }
    assert(body.take(n - start) =~= body);
    Some(acc)
}

// ---------------------------------------------------------------------------
// Whitespace, trimming and splitting
// ---------------------------------------------------------------------------

/// The Unicode `White_Space` property, which `char::is_whitespace` tests.
pub open spec fn is_white_space(c: char) -> bool {
    let u = c as u32;
    ||| 9 <= u <= 13
    ||| u == 32
    ||| u == 0x85
    ||| u == 0xA0
    ||| u == 0x1680
    ||| 0x2000 <= u <= 0x200A
    ||| u == 0x2028
    ||| u == 0x2029
    ||| u == 0x202F
    ||| u == 0x205F
    ||| u == 0x3000
}

/// Whether `c` has the Unicode `White_Space` property.
pub fn is_whitespace(c: char) -> (b: bool)
    ensures
        b == is_white_space(c),
{
    let u = c as u32;
    (9 <= u && u <= 13) || u == 32 || u == 0x85 || u == 0xA0 || u == 0x1680 || (0x2000 <= u && u
        <= 0x200A) || u == 0x2028 || u == 0x2029 || u == 0x202F || u == 0x205F || u == 0x3000
}

/// The first position at or after `i` that does not hold whitespace.
pub open spec fn skip_ws_from(s: Seq<char>, i: int) -> int
    decreases s.len() - i,
{
    if i < s.len() && 0 <= i && is_white_space(s[i]) {
        skip_ws_from(s, i + 1)
    } else {
        i
    }
}

/// The end of `s[lo..j]` once whitespace at its end is dropped.
pub open spec fn back_ws_from(s: Seq<char>, lo: int, j: int) -> int
    decreases j - lo,
{
    if lo < j && j <= s.len() && is_white_space(s[j - 1]) {
        back_ws_from(s, lo, j - 1)
    } else {
        j
    }
}

/// `s` with leading and trailing whitespace removed, as `str::trim` does.
pub open spec fn trim_spec(s: Seq<char>) -> Seq<char> {
    let a = skip_ws_from(s, 0);
    s.subrange(a, back_ws_from(s, a, s.len() as int))
}

proof fn lemma_skip_ws_bounds(s: Seq<char>, i: int)
    requires
        0 <= i <= s.len(),
    ensures
        i <= skip_ws_from(s, i) <= s.len(),
    decreases s.len() - i,
{
    if i < s.len() && is_white_space(s[i]) {
        lemma_skip_ws_bounds(s, i + 1);
    }
}

proof fn lemma_back_ws_bounds(s: Seq<char>, lo: int, j: int)
    requires
        0 <= lo <= j <= s.len(),
    ensures
        lo <= back_ws_from(s, lo, j) <= j,
    decreases j - lo,
{
    if lo < j && is_white_space(s[j - 1]) {
        lemma_back_ws_bounds(s, lo, j - 1);
    }
}

/// The bounds `(a, b)` with `s[a..b]` the trimmed text of `cs`.
pub fn trim_bounds(cs: &[char]) -> (r: (usize, usize))
    ensures
        r.0 == skip_ws_from(cs@, 0),
        r.1 == back_ws_from(cs@, r.0 as int, cs@.len() as int),
        r.0 <= r.1 <= cs@.len(),
{
    let mut a: usize = 0;
    while a < cs.len() && is_whitespace(cs[a])
        invariant
            a <= cs@.len(),
            skip_ws_from(cs@, a as int) == skip_ws_from(cs@, 0),
        decreases cs@.len() - a,
    {
        a = a + 1;
    }
    let mut b: usize = cs.len();
    while b > a && is_whitespace(cs[b - 1])
        invariant
            a <= b <= cs@.len(),
            back_ws_from(cs@, a as int, b as int) == back_ws_from(cs@, a as int, cs@.len() as int),
        decreases b - a,
    {
        b = b - 1;
    }
    (a, b)
}

/// `s` without leading and trailing whitespace.
pub fn trim(s: &str) -> (r: String)
    ensures
        r@ == trim_spec(s@),
{
    let cs = chars_of(s);
    let (a, b) = trim_bounds(cs.as_slice());
    let mut r = String::new();
    push_range(&mut r, cs.as_slice(), a, b);
    assert(r@ =~= trim_spec(s@));
    r
}

/// The words of `s[i..]`, given the word `cur` read so far: the maximal runs
/// of characters without whitespace, in order, as `str::split_whitespace`
/// yields them.
pub open spec fn words_from(s: Seq<char>, i: int, cur: Seq<char>) -> Seq<Seq<char>>
    decreases s.len() - i,
{
    if i >= s.len() || i < 0 {
        if cur.len() > 0 {
            seq![cur]
        } else {
            seq![]
        }
    } else if is_white_space(s[i]) {
        (if cur.len() > 0 {
            seq![cur]
        } else {
            seq![]
        }) + words_from(s, i + 1, seq![])
    } else {
        words_from(s, i + 1, cur.push(s[i]))
    }
}

/// The words of `s`.
pub open spec fn words(s: Seq<char>) -> Seq<Seq<char>> {
    words_from(s, 0, seq![])
}

/// The views of a sequence of strings.
pub open spec fn views(v: Seq<String>) -> Seq<Seq<char>> {
    v.map_values(|x: String| x@)
}

/// The words of `s`, split at whitespace.
pub fn split_whitespace(s: &str) -> (r: Vec<String>)
    ensures
        views(r@) == words(s@),
{
    let cs = chars_of(s);
    let mut out: Vec<String> = Vec::new();
    let mut cur = String::new();
    let mut i: usize = 0;
    while i < cs.len()
        invariant
            i <= cs@.len(),
            cs@ == s@,
            views(out@) + words_from(cs@, i as int, cur@) == words(s@),
        decreases cs@.len() - i,
    {
        let c = cs[i];
        let ghost old_out = views(out@);
        let ghost old_cur = cur@;
        assert(words_from(cs@, i as int, old_cur) == if is_white_space(c) {
            (if old_cur.len() > 0 {
                seq![old_cur]
            } else {
                seq![]
            }) + words_from(cs@, i + 1, seq![])
        } else {
            words_from(cs@, i + 1, old_cur.push(c))
        });
        if is_whitespace(c) {
            if !cur.as_str().is_empty() {
                let w = cur;
                out.push(w);
                cur = String::new();
                assert(views(out@) =~= old_out + seq![w@]);
                assert(views(out@) + words_from(cs@, i + 1, cur@) =~= old_out + (seq![old_cur]
                    + words_from(cs@, i + 1, seq![])));
            } else {
                assert(old_cur =~= Seq::<char>::empty());
                assert(seq![] + words_from(cs@, i + 1, seq![]) =~= words_from(cs@, i + 1, seq![]));
            }
        } else {
            cur.push(c);
        }
        i = i + 1;
    }
    if !cur.as_str().is_empty() {
        let ghost before = out@;
        let w = cur;
        out.push(w);
        assert(views(out@) =~= views(before) + seq![w@]);
    }
    assert(views(out@) =~= words(s@));
    out
}

// ---------------------------------------------------------------------------
// ASCII case folding
// ---------------------------------------------------------------------------

/// `c` with an ASCII capital letter turned into its small letter.
pub open spec fn ascii_lower(c: char) -> char {
    if 'A' <= c <= 'Z' {
        ((c as u32) + 32) as char
    } else {
        c
    }
}

/// Whether `a` and `b` are equal once ASCII letters are folded to small
/// letters, as `str::eq_ignore_ascii_case` decides.
pub open spec fn eq_ignore_ascii_case_spec(a: Seq<char>, b: Seq<char>) -> bool {
    &&& a.len() == b.len()
    &&& forall|i: int| 0 <= i < a.len() ==> ascii_lower(#[trigger] a[i]) == ascii_lower(b[i])
}

fn ascii_lower_exec(c: char) -> (r: char)
    ensures
        r == ascii_lower(c),
{
    if 'A' <= c && c <= 'Z' {
        let u = (c as u32 + 32) as u8;
        u as char
    } else {
        c
    }
}

/// Whether `a` and `b` are equal up to ASCII case.
pub fn eq_ignore_ascii_case(a: &str, b: &str) -> (r: bool)
    ensures
        r == eq_ignore_ascii_case_spec(a@, b@),
{
    let ca = chars_of(a);
    let cb = chars_of(b);
    if ca.len() != cb.len() {
        return false;
    }
    let mut i: usize = 0;
    while i < ca.len()
        invariant
            i <= ca@.len(),
            ca@.len() == cb@.len(),
            ca@ == a@,
            cb@ == b@,
            forall|j: int| 0 <= j < i ==> ascii_lower(#[trigger] ca@[j]) == ascii_lower(cb@[j]),
        decreases ca@.len() - i,
    {
        if ascii_lower_exec(ca[i]) != ascii_lower_exec(cb[i]) {
            return false;
        }
        i = i + 1;
    }
    true
}

// ---------------------------------------------------------------------------
// Searching, prefixes and replacement
// ---------------------------------------------------------------------------

/// Whether `pat` occurs in `s` at position `i`.
pub open spec fn occurs_at(s: Seq<char>, pat: Seq<char>, i: int) -> bool {
    0 <= i && i + pat.len() <= s.len() && s.subrange(i, i + pat.len()) == pat
}

/// Whether `pat` occurs anywhere in `s`.
pub open spec fn contains_spec(s: Seq<char>, pat: Seq<char>) -> bool {
    exists|i: int| occurs_at(s, pat, i)
}

/// The first position at or after `i` where `pat` occurs in `s`.
pub open spec fn find_from(s: Seq<char>, pat: Seq<char>, i: int) -> Option<int>
    decreases s.len() + 1 - i,
{
    if i < 0 || i + pat.len() > s.len() {
        None
    } else if occurs_at(s, pat, i) {
        Some(i)
    } else {
        find_from(s, pat, i + 1)
    }
}

/// Whether `pat` occurs in `cs` at position `i`.
pub fn occurs_at_exec(cs: &[char], pat: &[char], i: usize) -> (r: bool)
    ensures
        r == occurs_at(cs@, pat@, i as int),
{
    if i > cs.len() || pat.len() > cs.len() - i {
        return false;
    }
    let mut k: usize = 0;
    while k < pat.len()
        invariant
            i + pat.len() <= cs.len(),
            i + pat@.len() <= cs@.len(),
            k <= pat@.len(),
            forall|j: int| 0 <= j < k ==> cs@[i + j] == pat@[j],
        decreases pat@.len() - k,
    {
        if cs[i + k] != pat[k] {
            assert(cs@.subrange(i as int, i + pat@.len())[k as int] != pat@[k as int]);
            return false;
        }
        k = k + 1;
    }
    assert(cs@.subrange(i as int, i + pat@.len()) =~= pat@);
    true
}

proof fn lemma_find_from_some(s: Seq<char>, pat: Seq<char>, i: int)
    requires
        0 <= i,
    ensures
        find_from(s, pat, i) matches Some(k) ==> i <= k && occurs_at(s, pat, k) && forall|j: int|
            i <= j < k ==> !occurs_at(s, pat, j),
        find_from(s, pat, i) is None ==> forall|j: int| i <= j ==> !occurs_at(s, pat, j),
    decreases s.len() + 1 - i,
{
    if i + pat.len() > s.len() {
    } else if occurs_at(s, pat, i) {
    } else {
        lemma_find_from_some(s, pat, i + 1);
    }
}

/// The first position at or after `from` where `pat` occurs in `cs`.
pub fn find_exec(cs: &[char], pat: &[char], from: usize) -> (r: Option<usize>)
    ensures
        match r {
            Some(k) => find_from(cs@, pat@, from as int) == Some(k as int),
            None => find_from(cs@, pat@, from as int) is None,
        },
{
    if from > cs.len() {
        return None;
    }
    let mut i = from;
    while pat.len() <= cs.len() - i
        invariant
            from <= i <= cs@.len(),
            find_from(cs@, pat@, i as int) == find_from(cs@, pat@, from as int),
        decreases cs@.len() - i,
    {
        if occurs_at_exec(cs, pat, i) {
            return Some(i);
        }
        if i == cs.len() {
            assert(find_from(cs@, pat@, i + 1) is None);
            return None;
        }
        i = i + 1;
    }
    None
}

/// Whether `pat` occurs in `s`, as `str::contains` decides.
pub fn contains(s: &str, pat: &str) -> (r: bool)
    ensures
        r == contains_spec(s@, pat@),
{
    let cs = chars_of(s);
    let cp = chars_of(pat);
    let r = find_exec(cs.as_slice(), cp.as_slice(), 0);
    proof {
        lemma_find_from_some(s@, pat@, 0);
        if r is None {
            assert forall|j: int| !occurs_at(s@, pat@, j) by {
                if j >= 0 {
                }
            }
        }
    }
    r.is_some()
}

/// Whether `a` and `b` hold the same characters.
pub fn same_text(a: &str, b: &str) -> (r: bool)
    ensures
        r == (a@ == b@),
{
    let ca = chars_of(a);
    let cb = chars_of(b);
    if ca.len() != cb.len() {
        return false;
    }
    let mut i: usize = 0;
    while i < ca.len()
        invariant
            i <= ca@.len(),
            ca@.len() == cb@.len(),
            ca@ == a@,
            cb@ == b@,
            forall|j: int| 0 <= j < i ==> ca@[j] == cb@[j],
        decreases ca@.len() - i,
    {
        if ca[i] != cb[i] {
            return false;
        }
        i = i + 1;
    }
    assert(ca@ =~= cb@);
    true
}

/// Whether `s` begins with `p`, as `str::starts_with` decides.
pub fn starts_with(s: &str, p: &str) -> (r: bool)
    ensures
        r == p@.is_prefix_of(s@),
{
    let cs = chars_of(s);
    let cp = chars_of(p);
    let r = occurs_at_exec(cs.as_slice(), cp.as_slice(), 0);
    proof {
        if r {
            assert forall|j: int| 0 <= j < p@.len() implies p@[j] == s@[j] by {
                assert(s@.subrange(0, p@.len() as int)[j] == s@[j]);
            }
        } else if p@.is_prefix_of(s@) {
            assert(s@.subrange(0, p@.len() as int) =~= p@);
        }
    }
    r
}

/// `s` with each occurrence of the nonempty `pat` replaced by `rep`,
/// scanning from position `i` left to right and never overlapping, as
/// `str::replace` does.
pub open spec fn replace_from(s: Seq<char>, pat: Seq<char>, rep: Seq<char>, i: int) -> Seq<char>
    recommends
        pat.len() > 0,
    decreases s.len() - i,
{
    if i < 0 || i >= s.len() || pat.len() == 0 {
        s.skip(i)
    } else if occurs_at(s, pat, i) {
        rep + replace_from(s, pat, rep, i + pat.len())
    } else {
        seq![s[i]] + replace_from(s, pat, rep, i + 1)
    }
}

/// `rep` before each character of `s` from position `i` on, and once more at
/// the end: what `str::replace` gives for an empty pattern.
pub open spec fn interleave(s: Seq<char>, rep: Seq<char>, i: int) -> Seq<char>
    decreases s.len() - i,
{
    if i < 0 || i >= s.len() {
        rep
    } else {
        rep + seq![s[i]] + interleave(s, rep, i + 1)
    }
}

/// What `str::replace` gives: every occurrence of `pat` replaced by `rep`;
/// an empty pattern occurs before each character and at the end.
pub open spec fn replace_spec(s: Seq<char>, pat: Seq<char>, rep: Seq<char>) -> Seq<char> {
    if pat.len() == 0 {
        interleave(s, rep, 0)
    } else {
        replace_from(s, pat, rep, 0)
    }
}

fn interleave_exec(cs: &[char], rep: &str) -> (r: String)
    ensures
        r@ == interleave(cs@, rep@, 0),
{
    let mut r = String::new();
    let mut i: usize = 0;
    while i < cs.len()
        invariant
            i <= cs@.len(),
            r@ + interleave(cs@, rep@, i as int) == interleave(cs@, rep@, 0),
        decreases cs@.len() - i,
    {
        let ghost before = r@;
        r.append(rep);
        r.push(cs[i]);
        i = i + 1;
        assert(r@ + interleave(cs@, rep@, i as int) =~= before + interleave(cs@, rep@, (i - 1) as int));
    }
    let ghost before = r@;
    r.append(rep);
    assert(r@ =~= before + interleave(cs@, rep@, i as int));
    r
}

/// `s` with every occurrence of `pat` replaced by `rep`.
pub fn replace(s: &str, pat: &str, rep: &str) -> (r: String)
    ensures
        r@ == replace_spec(s@, pat@, rep@),
{
    let cs = chars_of(s);
    let cp = chars_of(pat);
    if cp.len() == 0 {
        return interleave_exec(cs.as_slice(), rep);
    }
    let mut r = String::new();
    let mut i: usize = 0;
    while i < cs.len()
        invariant
            i <= cs@.len(),
            cs@ == s@,
            cp@ == pat@,
            cp@.len() > 0,
            r@ + replace_from(s@, pat@, rep@, i as int) == replace_from(s@, pat@, rep@, 0),
        decreases cs@.len() - i,
    {
        if occurs_at_exec(cs.as_slice(), cp.as_slice(), i) {
            let ghost before = r@;
            r.append(rep);
            i = i + cp.len();
            assert(r@ + replace_from(s@, pat@, rep@, i as int) =~= before + replace_from(
                s@,
                pat@,
                rep@,
                (i - cp@.len()) as int,
            ));
        } else {
            let ghost before = r@;
            r.push(cs[i]);
            i = i + 1;
            assert(r@ + replace_from(s@, pat@, rep@, i as int) =~= before + replace_from(
                s@,
                pat@,
                rep@,
                (i - 1) as int,
            ));
        }
    }
    assert(s@.skip(i as int) =~= Seq::<char>::empty());
    assert(r@ =~= replace_from(s@, pat@, rep@, 0));
    r
}

/// The position just after the last `c` in `s`, or 0 when there is none.
pub open spec fn after_last(s: Seq<char>, c: char) -> int
    decreases s.len(),
{
    if s.len() == 0 {
        0
    } else if s.last() == c {
        s.len() as int
    } else {
        after_last(s.drop_last(), c)
    }
}

/// The position of the first `c` in `s`, or its length when there is none.
pub open spec fn first_index(s: Seq<char>, c: char) -> int
    decreases s.len(),
{
    if s.len() == 0 {
        0
    } else if s[0] == c {
        0
    } else {
        1 + first_index(s.drop_first(), c)
    }
}

/// The position after the last `c` lies within `s`.
pub proof fn lemma_after_last_bounds(s: Seq<char>, c: char)
    ensures
        0 <= after_last(s, c) <= s.len(),
    decreases s.len(),
{
    if s.len() > 0 && s.last() != c {
        lemma_after_last_bounds(s.drop_last(), c);
    }
}


/// The part of `s` after its last `c` (all of `s` when there is none), as
/// `s.split(c).last()` gives it.
pub fn last_part(s: &str, c: char) -> (r: String)
    ensures
        r@ == s@.skip(after_last(s@, c)),
{
    let cs = chars_of(s);
    let mut start: usize = cs.len();
    assert(cs@.take(cs@.len() as int) =~= cs@);
    while start > 0 && cs[start - 1] != c
        invariant
            start <= cs@.len(),
            after_last(cs@.take(start as int), c) == after_last(cs@, c),
        decreases start,
    {
        assert(cs@.take(start as int).drop_last() =~= cs@.take(start - 1));
        start = start - 1;
    }
    proof {
        if start > 0 {
            assert(cs@.take(start as int).last() == c);
        }
    }
    let mut r = String::new();
    push_range(&mut r, cs.as_slice(), start, cs.len());
    assert(r@ =~= s@.skip(after_last(s@, c)));
    r
}

// ---------------------------------------------------------------------------
// Unicode case mapping (std's tables)
// ---------------------------------------------------------------------------

/// The text that `str::to_lowercase` gives for `s`: each character replaced
/// by its Unicode lowercase mapping.
pub uninterp spec fn lowercase(s: Seq<char>) -> Seq<char>;

/// `s` in lowercase, by calling `str::to_lowercase`; the result is named
/// `lowercase(s)` and nothing more is claimed of it.
#[verifier::external_body]
pub(crate) fn to_lowercase(s: &str) -> (r: String)
    ensures
        r@ == lowercase(s@),
{
    s.to_lowercase()
}

// ---------------------------------------------------------------------------
// Joining
// ---------------------------------------------------------------------------

/// The parts of `list` with `sep` between each two neighbours.
pub open spec fn join_spec(list: Seq<Seq<char>>, sep: Seq<char>) -> Seq<char>
    decreases list.len(),
{
    if list.len() == 0 {
        seq![]
    } else if list.len() == 1 {
        list[0]
    } else {
        join_spec(list.drop_last(), sep) + sep + list.last()
    }
}

/// The views of a list of string slices.
pub open spec fn str_views(s: Seq<&str>) -> Seq<Seq<char>> {
    s.map_values(|a: &str| a@)
}

/// The string slices of `list` joined by `sep`, as `[&str]::join` does.
pub fn str_join(list: &[&str], sep: &str) -> (r: String)
    ensures
        r@ == join_spec(str_views(list@), sep@),
{
    let mut r = String::new();
    let mut i: usize = 0;
    while i < list.len()
        invariant
            i <= list@.len(),
            r@ == join_spec(str_views(list@).take(i as int), sep@),
        decreases list@.len() - i,
    {
        assert(str_views(list@).take(i + 1).drop_last() =~= str_views(list@).take(i as int));
        if i > 0 {
            r.append(sep);
        }
        r.append(list[i]);
        i = i + 1;
        assert(str_views(list@).take(i as int).last() == list@[i - 1]@);
    }
    assert(str_views(list@).take(list@.len() as int) =~= str_views(list@));
    r
}

/// The strings of `list` joined by `sep`, as `[String]::join` does.
pub fn join(list: &[String], sep: &str) -> (r: String)
    ensures
        r@ == join_spec(views(list@), sep@),
{
    let mut r = String::new();
    let mut i: usize = 0;
    while i < list.len()
        invariant
            i <= list@.len(),
            r@ == join_spec(views(list@).take(i as int), sep@),
        decreases list@.len() - i,
    {
        assert(views(list@).take(i + 1).drop_last() =~= views(list@).take(i as int));
        if i > 0 {
            r.append(sep);
        }
        r.append(list[i].as_str());
        i = i + 1;
        assert(views(list@).take(i as int).last() == list@[i - 1]@);
    }
    assert(views(list@).take(list@.len() as int) =~= views(list@));
    r
}

} // verus!
