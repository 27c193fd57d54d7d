//! Character-level text handling shared by the parsers of this crate:
//! whitespace as Rust's `char::is_whitespace` sees it, whitespace-separated
//! tokens, lines, decimal numbers as `str::parse` reads them, and decimal
//! rendering of integers.
use vstd::prelude::*;

verus! {

broadcast use vstd::string::group_string_axioms;

// ---------------------------------------------------------------------------
// Characters
// ---------------------------------------------------------------------------

/// Unicode `White_Space`, the set that `char::is_whitespace` tests.
pub open spec fn is_ws(c: char) -> bool {
    let u = c as u32;
    ||| u == 0x20
    ||| 0x09 <= u <= 0x0d
    ||| u == 0x85
    ||| u == 0xa0
    ||| u == 0x1680
    ||| 0x2000 <= u <= 0x200a
    ||| u == 0x2028
    ||| u == 0x2029
    ||| u == 0x202f
    ||| u == 0x205f
    ||| u == 0x3000
}

pub fn is_ws_char(c: char) -> (b: bool)
    ensures
        b == is_ws(c),
{
    let u = c as u32;
    u == 0x20 || (0x09 <= u && u <= 0x0d) || u == 0x85 || u == 0xa0 || u == 0x1680 || (0x2000
        <= u && u <= 0x200a) || u == 0x2028 || u == 0x2029 || u == 0x202f || u == 0x205f || u
        == 0x3000
}

pub open spec fn is_digit(c: char) -> bool {
    0x30 <= (c as u32) <= 0x39
}

pub open spec fn digit_value(c: char) -> nat {
    ((c as u32) - 0x30) as nat
}

/// Copies the characters of `s` into a vector.
pub fn chars_of(s: &str) -> (v: Vec<char>)
    ensures
        v@ == s@,
{
    let mut v: Vec<char> = Vec::new();
    for c in it: s.chars()
        invariant
            v@ == it.seq().take(it.index() as int),
            it.seq() == s@,
    {
        v.push(c);
    }
    v
}

/// `true` when `prefix` is a prefix of `s`.
pub open spec fn starts_with(s: Seq<char>, prefix: Seq<char>) -> bool {
    prefix.len() <= s.len() && s.subrange(0, prefix.len() as int) == prefix
}

/// Tests whether `s[start..end]` begins with `prefix`.
pub fn range_starts_with(s: &Vec<char>, start: usize, end: usize, prefix: &Vec<char>) -> (b:
    bool)
    requires
        start <= end <= s@.len(),
    ensures
        b == starts_with(s@.subrange(start as int, end as int), prefix@),
{
    if prefix.len() > end - start {
        return false;
    }
    let mut k: usize = 0;
    while k < prefix.len()
        invariant
            start <= end <= s@.len(),
            prefix@.len() <= end - start,
            k <= prefix@.len(),
            forall|j: int| 0 <= j < k ==> s@[start + j] == prefix@[j],
        decreases prefix@.len() - k,
    {
        if s[start + k] != prefix[k] {
            assert(s@.subrange(start as int, end as int).subrange(0, prefix@.len() as int)[k as int]
                != prefix@[k as int]);
            return false;
        }
        k = k + 1;
    }
    assert(s@.subrange(start as int, end as int).subrange(0, prefix@.len() as int) =~= prefix@);
    true
}

/// `true` when every character of `s` is whitespace, as for a string whose
/// `trim()` is empty.
pub open spec fn all_ws(s: Seq<char>) -> bool {
    forall|i: int| 0 <= i < s.len() ==> is_ws(#[trigger] s[i])
}

pub fn is_blank(s: &str) -> (b: bool)
    ensures
        b == all_ws(s@),
{
    let v = chars_of(s);
    let mut k: usize = 0;
    while k < v.len()
        invariant
            v@ == s@,
            k <= v@.len(),
            forall|j: int| 0 <= j < k ==> is_ws(#[trigger] v@[j]),
        decreases v@.len() - k,
    {
        if !is_ws_char(v[k]) {
            return false;
        }
        k = k + 1;
    }
    true
}

// ---------------------------------------------------------------------------
// Whitespace-separated tokens (`str::split_whitespace`)
// ---------------------------------------------------------------------------

/// First index at or after `i` that holds no whitespace (or the length).
pub open spec fn skip_ws(s: Seq<char>, i: int) -> int
    decreases s.len() - i,
{
    if i >= s.len() || !is_ws(s[i]) {
        i
    } else {
        skip_ws(s, i + 1)
    }
}

/// First index at or after `i` that holds whitespace (or the length).
pub open spec fn token_end(s: Seq<char>, i: int) -> int
    decreases s.len() - i,
{
    if i >= s.len() || is_ws(s[i]) {
        i
    } else {
        token_end(s, i + 1)
    }
}

pub proof fn lemma_skip_ws(s: Seq<char>, i: int)
    requires
        0 <= i <= s.len(),
    ensures
        i <= skip_ws(s, i) <= s.len(),
        skip_ws(s, i) < s.len() ==> !is_ws(s[skip_ws(s, i)]),
        forall|j: int| i <= j < skip_ws(s, i) ==> is_ws(#[trigger] s[j]),
    decreases s.len() - i,
{
    if i < s.len() && is_ws(s[i]) {
        lemma_skip_ws(s, i + 1);
    }
}

pub proof fn lemma_token_end(s: Seq<char>, i: int)
    requires
        0 <= i <= s.len(),
    ensures
        i <= token_end(s, i) <= s.len(),
        token_end(s, i) < s.len() ==> is_ws(s[token_end(s, i)]),
        forall|j: int| i <= j < token_end(s, i) ==> !is_ws(#[trigger] s[j]),
    decreases s.len() - i,
{
    if i < s.len() && !is_ws(s[i]) {
        lemma_token_end(s, i + 1);
    }
}

/// The whitespace-separated tokens of `s` that start at or after `i`.
pub open spec fn tokens_from(s: Seq<char>, i: int) -> Seq<Seq<char>>
    decreases s.len() - i,
{
    if i < 0 || i >= s.len() {
        Seq::empty()
    } else {
        let a = skip_ws(s, i);
        if a >= s.len() {
            Seq::empty()
        } else {
            let b = token_end(s, a);
            proof {
                lemma_skip_ws(s, i);
                lemma_token_end(s, a);
            }
            seq![s.subrange(a, b)] + tokens_from(s, b)
        }
    }
}

/// What `s.split_whitespace()` yields.
pub open spec fn ws_tokens(s: Seq<char>) -> Seq<Seq<char>> {
    tokens_from(s, 0)
}

/// The tokens that the bounds in `b` cut out of `s`.
pub open spec fn cut(s: Seq<char>, b: Seq<(usize, usize)>) -> Seq<Seq<char>> {
    Seq::new(b.len(), |k: int| s.subrange(b[k].0 as int, b[k].1 as int))
}

/// Start and end of each whitespace-separated token of `s[start..end]`,
/// counted from `start`, in order.
pub fn ws_token_bounds(s: &Vec<char>, start: usize, end: usize) -> (b: Vec<(usize, usize)>)
    requires
        start <= end <= s@.len(),
    ensures
        cut(s@.subrange(start as int, end as int), b@) == ws_tokens(
            s@.subrange(start as int, end as int),
        ),
        forall|k: int| 0 <= k < b@.len() ==> (#[trigger] b@[k]).0 <= b@[k].1 && b@[k].1 <= end - start,
{
    let ghost t = s@.subrange(start as int, end as int);
    let n = end - start;
    let mut b: Vec<(usize, usize)> = Vec::new();
    let mut i: usize = 0;
    while i < n
        invariant
            t == s@.subrange(start as int, end as int),
            n == t.len(),
            start <= end <= s@.len(),
            i <= n,
            forall|k: int| 0 <= k < b@.len() ==> (#[trigger] b@[k]).0 <= b@[k].1 && b@[k].1 <= n,
            ws_tokens(t) == cut(t, b@) + tokens_from(t, i as int),
        decreases n - i,
    {
        let ghost i0 = i as int;
        proof {
            lemma_skip_ws(t, i0);
        }
        while i < n && is_ws_char(s[start + i])
            invariant
                t == s@.subrange(start as int, end as int),
                n == t.len(),
                start <= end <= s@.len(),
                i0 <= i <= n,
                skip_ws(t, i0) == skip_ws(t, i as int),
            decreases n - i,
        {
            i = i + 1;
        }
        if i < n {
            let a = i;
            proof {
                lemma_token_end(t, a as int);
            }
            while i < n && !is_ws_char(s[start + i])
                invariant
                    t == s@.subrange(start as int, end as int),
                    n == t.len(),
                    start <= end <= s@.len(),
                    a <= i <= n,
                    token_end(t, a as int) == token_end(t, i as int),
                decreases n - i,
            {
                i = i + 1;
            }
            proof {
                let old_cut = cut(t, b@);
                assert(tokens_from(t, i0) == seq![t.subrange(a as int, i as int)] + tokens_from(
                    t,
                    i as int,
                ));
            }
            let ghost old_b = b@;
            b.push((a, i));
            proof {
                assert(cut(t, b@) =~= cut(t, old_b) + seq![t.subrange(a as int, i as int)]);
            }
        } else {
            proof {
                assert(tokens_from(t, i0) =~= Seq::<Seq<char>>::empty());
                assert(cut(t, b@) + tokens_from(t, i as int) =~= cut(t, b@));
            }
        }
    }
    proof {
        assert(tokens_from(t, i as int) =~= Seq::<Seq<char>>::empty());
        assert(cut(t, b@) + tokens_from(t, i as int) =~= cut(t, b@));
        assert(n == end - start);
    }
    b
}

// ---------------------------------------------------------------------------
// Lines (`str::lines`)
// ---------------------------------------------------------------------------

/// First index at or after `i` that holds `'\n'` (or the length).
pub open spec fn line_end(s: Seq<char>, i: int) -> int
    decreases s.len() - i,
{
    if i >= s.len() || s[i] == '\n' {
        i
    } else {
        line_end(s, i + 1)
    }
}

pub proof fn lemma_line_end(s: Seq<char>, i: int)
    requires
        0 <= i <= s.len(),
    ensures
        i <= line_end(s, i) <= s.len(),
        line_end(s, i) < s.len() ==> s[line_end(s, i)] == '\n',
    decreases s.len() - i,
{
    if i < s.len() && s[i] != '\n' {
        lemma_line_end(s, i + 1);
    }
}

/// A line ended by `'\n'` also loses one trailing `'\r'`.
pub open spec fn strip_cr(l: Seq<char>) -> Seq<char> {
    if l.len() > 0 && l.last() == '\r' {
        l.drop_last()
    } else {
        l
    }
}

/// The lines of `s` that start at or after `i`.
pub open spec fn lines_from(s: Seq<char>, i: int) -> Seq<Seq<char>>
    decreases s.len() - i,
{
    if i < 0 || i >= s.len() {
        Seq::empty()
    } else {
        let e = line_end(s, i);
        proof {
            lemma_line_end(s, i);
        }
        if e < s.len() {
            seq![strip_cr(s.subrange(i, e))] + lines_from(s, e + 1)
        } else {
            seq![s.subrange(i, e)]
        }
    }
}

/// What `s.lines()` yields.
pub open spec fn lines(s: Seq<char>) -> Seq<Seq<char>> {
    lines_from(s, 0)
}

pub proof fn lemma_lines_from_len(s: Seq<char>, i: int)
    requires
        0 <= i <= s.len(),
    ensures
        lines_from(s, i).len() <= s.len() - i,
    decreases s.len() - i,
{
    if i < s.len() {
        lemma_line_end(s, i);
        let e = line_end(s, i);
        if e < s.len() {
            lemma_lines_from_len(s, e + 1);
        }
    }
}

/// Bounds of the next line of `s` that starts at `i`: the line is
/// `s[i..r.0]`, and the following one starts at `r.1`.
pub fn next_line(s: &Vec<char>, i: usize) -> (r: (usize, usize))
    requires
        i < s@.len(),
    ensures
        i <= r.0 <= r.1 <= s@.len(),
        r.1 > i,
        lines_from(s@, i as int) == seq![s@.subrange(i as int, r.0 as int)] + lines_from(
            s@,
            r.1 as int,
        ),
{
    let n = s.len();
    let mut e = i;
    proof {
        lemma_line_end(s@, i as int);
    }
    while e < n && s[e] != '\n'
        invariant
            n == s@.len(),
            i <= e <= n,
            line_end(s@, i as int) == line_end(s@, e as int),
        decreases n - e,
    {
        e = e + 1;
    }
    if e < n {
        proof {
            lemma_lines_from_len(s@, e as int + 1);
        }
        if e > i && s[e - 1] == '\r' {
            assert(s@.subrange(i as int, e as int).drop_last() =~= s@.subrange(
                i as int,
                e - 1,
            ));
            (e - 1, e + 1)
        } else {
            (e, e + 1)
        }
    } else {
        assert(lines_from(s@, n as int) =~= Seq::<Seq<char>>::empty());
        assert(seq![s@.subrange(i as int, e as int)] + lines_from(s@, n as int) =~= seq![
            s@.subrange(i as int, e as int),
        ]);
        (e, n)
    }
}

// ---------------------------------------------------------------------------
// Unsigned decimal numbers (`str::parse::<u64>` and friends)
// ---------------------------------------------------------------------------

pub open spec fn all_digits(d: Seq<char>) -> bool {
    forall|i: int| 0 <= i < d.len() ==> is_digit(#[trigger] d[i])
}

/// The number that a string of decimal digits denotes.
pub open spec fn digits_value(d: Seq<char>) -> nat
    decreases d.len(),
{
    if d.len() == 0 {
        0
    } else {
        digits_value(d.drop_last()) * 10 + digit_value(d.last())
    }
}

/// The digits after the optional leading `'+'`.
pub open spec fn unsigned_digits(s: Seq<char>) -> Seq<char> {
    if s.len() > 0 && s[0] == '+' {
        s.drop_first()
    } else {
        s
    }
}

/// What `str::parse` gives for an unsigned integer type whose largest value
/// is `max`: an optional `'+'`, then at least one decimal digit, with a value
/// that fits.
pub open spec fn parse_unsigned(s: Seq<char>, max: nat) -> Option<nat> {
    let d = unsigned_digits(s);
    if d.len() > 0 && all_digits(d) && digits_value(d) <= max {
        Some(digits_value(d))
    } else {
        None
    }
}

pub proof fn lemma_digits_prefix_le(d: Seq<char>, k: int)
    requires
        0 <= k <= d.len(),
        all_digits(d),
    ensures
        digits_value(d.take(k)) <= digits_value(d),
    decreases d.len() - k,
{
    if k < d.len() {
        lemma_digits_prefix_le(d, k + 1);
        assert(d.take(k + 1).drop_last() =~= d.take(k));
        assert(digits_value(d.take(k + 1)) == digits_value(d.take(k)) * 10 + digit_value(
            d.take(k + 1).last(),
        ));
    } else {
        assert(d.take(k) =~= d);
    }
}

/// Parses `s[start..end]` as a `u64` the way `str::parse::<u64>` does.
pub fn parse_u64_range(s: &Vec<char>, start: usize, end: usize) -> (r: Option<u64>)
    requires
        start <= end <= s@.len(),
    ensures
        r matches Some(v) ==> parse_unsigned(s@.subrange(start as int, end as int), u64::MAX as nat)
            == Some(v as nat),
        r is None ==> parse_unsigned(s@.subrange(start as int, end as int), u64::MAX as nat)
            is None,
{
    let ghost t = s@.subrange(start as int, end as int);
    let mut i = start;
    if i < end && s[i] == '+' {
        i = i + 1;
    }
    let ghost d = s@.subrange(i as int, end as int);
    assert(d =~= unsigned_digits(t));
    if i == end {
        return None;
    }
    let mut acc: u64 = 0;
    let mut k = i;
    while k < end
        invariant
            start <= i <= k <= end <= s@.len(),
            d == s@.subrange(i as int, end as int),
            t == s@.subrange(start as int, end as int),
            d == unsigned_digits(t),
            d.len() > 0,
            forall|j: int| 0 <= j < k - i ==> is_digit(#[trigger] d[j]),
            acc as nat == digits_value(d.take(k - i)),
        decreases end - k,
    {
        let c = s[k];
        let u = #[verifier::truncate] (c as u32);
        if u < 0x30 || u > 0x39 {
            assert(!is_digit(d[k - i]));
            return None;
        }
        let dv = (u - 0x30) as u64;
        assert(d.take(k - i + 1).drop_last() =~= d.take(k - i));
        assert(d.take(k - i + 1).last() == c);
        if acc > (u64::MAX - dv) / 10 {
            proof {
                // The value of the digits read so far already exceeds the limit.
                assert(digits_value(d.take(k - i + 1)) > u64::MAX);
                if all_digits(d) {
                    lemma_digits_prefix_le(d, k - i + 1);
                }
            }
            return None;
        }
        acc = acc * 10 + dv;
        k = k + 1;
    }
    assert(d.take(end - i) =~= d);
    Some(acc)
}

/// Parses `s` as a `u64` the way `str::parse::<u64>` does.
pub fn parse_u64(s: &str) -> (r: Option<u64>)
    ensures
        r matches Some(v) ==> parse_unsigned(s@, u64::MAX as nat) == Some(v as nat),
        r is None ==> parse_unsigned(s@, u64::MAX as nat) is None,
{
    let v = chars_of(s);
    assert(v@.subrange(0, v@.len() as int) =~= v@);
    parse_u64_range(&v, 0, v.len())
}

/// Parses `s` as a `u16` the way `str::parse::<u16>` does.
pub fn parse_u16(s: &str) -> (r: Option<u16>)
    ensures
        r matches Some(v) ==> parse_unsigned(s@, u16::MAX as nat) == Some(v as nat),
        r is None ==> parse_unsigned(s@, u16::MAX as nat) is None,
{
    match parse_u64(s) {
        Some(v) => if v <= 0xffff {
            Some(v as u16)
        } else {
            None
        },
        None => None,
    }
}

/// Parses `s` as a `usize` the way `str::parse::<usize>` does.
pub fn parse_usize(s: &str) -> (r: Option<usize>)
    ensures
        r matches Some(v) ==> parse_unsigned(s@, usize::MAX as nat) == Some(v as nat),
        r is None ==> parse_unsigned(s@, usize::MAX as nat) is None,
{
    match parse_u64(s) {
        Some(v) => if v <= usize::MAX as u64 {
            Some(v as usize)
        } else {
            None
        },
        None => None,
    }
}

// ---------------------------------------------------------------------------
// Decimal rendering (`i64::to_string`)
// ---------------------------------------------------------------------------

pub open spec fn digit_char(d: nat) -> char {
    (d + 0x30) as char
}

/// Decimal digits of a natural number, without leading zeros.
pub open spec fn nat_decimal(n: nat) -> Seq<char>
    decreases n,
{
    if n < 10 {
        seq![digit_char(n)]
    } else {
        nat_decimal(n / 10) + seq![digit_char(n % 10)]
    }
}

/// How `Display` writes an integer: a `'-'` before a negative number.
pub open spec fn int_decimal(n: int) -> Seq<char> {
    if n < 0 {
        seq!['-'] + nat_decimal((-n) as nat)
    } else {
        nat_decimal(n as nat)
    }
}

/// The one-character string of a decimal digit.
fn digit_str(d: u64) -> (s: &'static str)
    requires
        d < 10,
    ensures
        s@ == seq![digit_char(d as nat)],
{
    proof {
        reveal_strlit("0");
        reveal_strlit("1");
        reveal_strlit("2");
        reveal_strlit("3");
        reveal_strlit("4");
        reveal_strlit("5");
        reveal_strlit("6");
        reveal_strlit("7");
        reveal_strlit("8");
        reveal_strlit("9");
    }
    let s = if d == 0 {
        "0"
    } else if d == 1 {
        "1"
    } else if d == 2 {
        "2"
    } else if d == 3 {
        "3"
    } else if d == 4 {
        "4"
    } else if d == 5 {
        "5"
    } else if d == 6 {
        "6"
    } else if d == 7 {
        "7"
    } else if d == 8 {
        "8"
    } else {
        "9"
    };
    assert(s@ =~= seq![digit_char(d as nat)]);
    s
}

/// Appends the decimal digits of `n` to `out`.
pub fn push_nat_decimal(out: &mut String, n: u64)
    ensures
        final(out)@ == old(out)@ + nat_decimal(n as nat),
    decreases n,
{
    if n < 10 {
        out.append(digit_str(n));
    } else {
        push_nat_decimal(out, n / 10);
        out.append(digit_str(n % 10));
        assert(old(out)@ + nat_decimal((n / 10) as nat) + seq![digit_char((n % 10) as nat)]
            =~= old(out)@ + nat_decimal(n as nat));
    }
}

/// Appends `n` as `Display` writes it to `out`.
pub fn push_i64_decimal(out: &mut String, n: i64)
    ensures
        final(out)@ == old(out)@ + int_decimal(n as int),
{
    if n < 0 {
        proof {
            reveal_strlit("-");
        }
        out.append("-");
        let m: u64 = if n == i64::MIN {
            0x8000_0000_0000_0000u64
        } else {
            (-n) as u64
        };
        push_nat_decimal(out, m);
        assert(old(out)@ + "-"@ + nat_decimal(m as nat) =~= old(out)@ + int_decimal(n as int));
    } else {
        push_nat_decimal(out, n as u64);
    }
}

/// `n.to_string()`.
pub fn i64_to_string(n: i64) -> (s: String)
    ensures
        s@ == int_decimal(n as int),
{
    let mut s = String::new();
    push_i64_decimal(&mut s, n);
    assert(Seq::<char>::empty() + int_decimal(n as int) =~= int_decimal(n as int));
    s
}


proof fn lemma_nat_decimal_digits(n: nat)
    ensures
        nat_decimal(n).len() > 0,
        all_digits(nat_decimal(n)),
        digits_value(nat_decimal(n)) == n,
    decreases n,
{
    if n >= 10 {
        lemma_nat_decimal_digits(n / 10);
        let d = nat_decimal(n);
        assert(d.drop_last() =~= nat_decimal(n / 10));
        assert(digit_value(d.last()) == n % 10);
        vstd::arithmetic::div_mod::lemma_fundamental_div_mod(n as int, 10);
        assert(digits_value(d) == digits_value(d.drop_last()) * 10 + digit_value(d.last()));
    } else {
        let d = nat_decimal(n);
        assert(digit_value(digit_char(n)) == n);
        assert(d.drop_last() =~= Seq::<char>::empty());
        assert(digits_value(d) == digits_value(d.drop_last()) * 10 + digit_value(d.last()));
    }
}

/// Parsing what `Display` wrote gives the number back: for every `n` that
/// fits, `parse_unsigned(n.to_string(), max) == Some(n)`.
pub proof fn lemma_parse_after_render(n: nat, max: nat)
    requires
        n <= max,
    ensures
        parse_unsigned(nat_decimal(n), max) == Some(n),
{
    lemma_nat_decimal_digits(n);
    let d = nat_decimal(n);
    assert(is_digit(d[0]));
    assert(unsigned_digits(d) == d);
}

} // verus!
