//! Character-level text handling: Unicode whitespace trimming, ASCII case folding, decimal
//! numbers, and comparison of character sequences with words.
use vstd::prelude::*;
use vstd::string::*;

verus! {

/// The characters with the Unicode `White_Space` property (what `char::is_whitespace` accepts).
pub open spec fn is_white_space(c: char) -> bool {
    let u = c as u32;
    ||| 0x9 <= u && u <= 0xd
    ||| u == 0x20
    ||| u == 0x85
    ||| u == 0xa0
    ||| u == 0x1680
    ||| 0x2000 <= u && u <= 0x200a
    ||| u == 0x2028
    ||| u == 0x2029
    ||| u == 0x202f
    ||| u == 0x205f
    ||| u == 0x3000
}

/// Index of the first non-whitespace character at or after `i` (the length if there is none).
pub open spec fn trim_start_index(s: Seq<char>, i: nat) -> nat
    decreases s.len() - i,
{
    if i >= s.len() {
        s.len()
    } else if is_white_space(s[i as int]) {
        trim_start_index(s, i + 1)
    } else {
        i
    }
}

/// End (exclusive) of `s[lo..j]` once its trailing whitespace is removed.
pub open spec fn trim_end_index(s: Seq<char>, j: nat, lo: nat) -> nat
    decreases j,
{
    if j <= lo {
        lo
    } else if is_white_space(s[j - 1]) {
        trim_end_index(s, (j - 1) as nat, lo)
    } else {
        j
    }
}

/// `s` without its leading and trailing whitespace (what `str::trim` returns).
pub open spec fn trimmed(s: Seq<char>) -> Seq<char> {
    let a = trim_start_index(s, 0);
    s.subrange(a as int, trim_end_index(s, s.len(), a) as int)
}

/// ASCII upper-case letters mapped to lower case; every other character unchanged.
pub open spec fn ascii_lower(c: char) -> char {
    if 'A' <= c && c <= 'Z' {
        ((c as u32) + 32) as char
    } else {
        c
    }
}

/// `s` trimmed and then folded to ASCII lower case.
pub open spec fn normalized(s: Seq<char>) -> Seq<char> {
    trimmed(s).map_values(|c: char| ascii_lower(c))
}

/// The decimal digit character for `d < 10`.
pub open spec fn digit_char(d: nat) -> char {
    ((d + 48) as u32) as char
}

/// The decimal representation of `n`, without leading zeros ("0" for zero).
pub open spec fn decimal(n: nat) -> Seq<char>
    decreases n,
{
    if n < 10 {
        seq![digit_char(n)]
    } else {
        decimal(n / 10).push(digit_char(n % 10))
    }
}

/// Whether `c` is one of the ASCII digits `0`..`9`.
pub open spec fn is_ascii_digit(c: char) -> bool {
    '0' <= c && c <= '9'
}

/// The value of a digit character.
pub open spec fn digit_value(c: char) -> nat {
    ((c as u32) - 48) as nat
}

/// The number that a sequence of digits denotes.
pub open spec fn digits_value(d: Seq<char>) -> nat
    decreases d.len(),
{
    if d.len() == 0 {
        0
    } else {
        digits_value(d.drop_last()) * 10 + digit_value(d.last())
    }
}

/// Whether every character of `d` is an ASCII digit.
pub open spec fn all_ascii_digits(d: Seq<char>) -> bool {
    forall|i: int| 0 <= i < d.len() ==> is_ascii_digit(#[trigger] d[i])
}

/// What parsing `s` as an unsigned machine integer yields (as `str::parse::<usize>` does): an
/// optional `+`, then at least one ASCII digit and nothing else, with a value that fits in a
/// `usize`.
pub open spec fn parse_usize(s: Seq<char>) -> Option<nat> {
    let digits = if s.len() > 0 && s[0] == '+' {
        s.drop_first()
    } else {
        s
    };
    if digits.len() == 0 || !all_ascii_digits(digits) || digits_value(digits) > usize::MAX {
        None
    } else {
        Some(digits_value(digits))
    }
}

proof fn lemma_trim_start_bounds(s: Seq<char>, i: nat)
    requires
        i <= s.len(),
    ensures
        i <= trim_start_index(s, i) <= s.len(),
    decreases s.len() - i,
{
    if i < s.len() && is_white_space(s[i as int]) {
        lemma_trim_start_bounds(s, i + 1);
    }
}

proof fn lemma_trim_end_bounds(s: Seq<char>, j: nat, lo: nat)
    requires
        lo <= j,
    ensures
        lo <= trim_end_index(s, j, lo) <= j,
    decreases j,
{
    if j > lo && is_white_space(s[j - 1]) {
        lemma_trim_end_bounds(s, (j - 1) as nat, lo);
    }
}

/// The ASCII whitespace characters are exactly space, tab, line feed, vertical tab, form feed
/// and carriage return: a line ending, `\n` or `\r\n`, is whitespace.
pub proof fn lemma_ascii_white_space(c: char)
    requires
        (c as u32) < 0x80,
    ensures
        is_white_space(c) <==> (c == ' ' || c == '\t' || c == '\n' || c == '\u{b}' || c == '\u{c}'
            || c == '\r'),
{
}

/// Beyond ASCII, the whitespace characters are exactly next line (U+0085), no-break space
/// (U+00A0), the Ogham space mark (U+1680), the spaces U+2000 to U+200A, the line and
/// paragraph separators (U+2028, U+2029), the narrow no-break space (U+202F), the medium
/// mathematical space (U+205F) and the ideographic space (U+3000).
pub proof fn lemma_non_ascii_white_space(c: char)
    requires
        (c as u32) >= 0x80,
    ensures
        is_white_space(c) <==> (c == '\u{85}' || c == '\u{a0}' || c == '\u{1680}' || ('\u{2000}'
            <= c && c <= '\u{200a}') || c == '\u{2028}' || c == '\u{2029}' || c == '\u{202f}'
            || c == '\u{205f}' || c == '\u{3000}'),
{
}

proof fn lemma_trim_start_all_white(t: Seq<char>, i: nat)
    requires
        i <= t.len(),
        forall|k: int| i <= k < t.len() ==> is_white_space(#[trigger] t[k]),
    ensures
        trim_start_index(t, i) == t.len(),
    decreases t.len() - i,
{
    if i < t.len() {
        lemma_trim_start_all_white(t, i + 1);
    }
}

proof fn lemma_trim_start_append_white(s: Seq<char>, w: Seq<char>, i: nat)
    requires
        i <= s.len(),
        forall|k: int| 0 <= k < w.len() ==> is_white_space(#[trigger] w[k]),
    ensures
        trim_start_index(s + w, i) == if trim_start_index(s, i) < s.len() {
            trim_start_index(s, i)
        } else {
            s.len() + w.len()
        },
    decreases s.len() - i,
{
    let t = s + w;
    if i < s.len() {
        assert(t[i as int] == s[i as int]);
        if is_white_space(s[i as int]) {
            lemma_trim_start_append_white(s, w, i + 1);
        }
    } else {
        assert forall|k: int| i <= k < t.len() implies is_white_space(#[trigger] t[k]) by {
            assert(t[k] == w[k - s.len()]);
        }
        lemma_trim_start_all_white(t, i);
    }
}

proof fn lemma_trim_end_skip_white(t: Seq<char>, j: nat, m: nat, lo: nat)
    requires
        lo <= m <= j <= t.len(),
        forall|k: int| m <= k < j ==> is_white_space(#[trigger] t[k]),
    ensures
        trim_end_index(t, j, lo) == trim_end_index(t, m, lo),
    decreases j,
{
    if j > m {
        lemma_trim_end_skip_white(t, (j - 1) as nat, m, lo);
    }
}

proof fn lemma_trim_end_prefix(s: Seq<char>, t: Seq<char>, j: nat, lo: nat)
    requires
        lo <= j <= s.len() <= t.len(),
        forall|k: int| 0 <= k < s.len() ==> #[trigger] t[k] == s[k],
    ensures
        trim_end_index(t, j, lo) == trim_end_index(s, j, lo),
    decreases j,
{
    if j > lo {
        assert(t[j - 1] == s[j - 1]);
        lemma_trim_end_prefix(s, t, (j - 1) as nat, lo);
    }
}

proof fn lemma_trim_start_skips_white(s: Seq<char>, i: nat)
    requires
        i <= s.len(),
    ensures
        forall|k: int| i <= k < trim_start_index(s, i) ==> is_white_space(#[trigger] s[k]),
        trim_start_index(s, i) < s.len() ==> !is_white_space(s[trim_start_index(s, i) as int]),
    decreases s.len() - i,
{
    if i < s.len() && is_white_space(s[i as int]) {
        lemma_trim_start_skips_white(s, i + 1);
    }
}

proof fn lemma_trim_end_skips_white(s: Seq<char>, j: nat, lo: nat)
    requires
        lo <= j <= s.len(),
    ensures
        forall|k: int| trim_end_index(s, j, lo) <= k < j ==> is_white_space(#[trigger] s[k]),
        trim_end_index(s, j, lo) > lo ==> !is_white_space(s[trim_end_index(s, j, lo) - 1]),
    decreases j,
{
    if j > lo && is_white_space(s[j - 1]) {
        lemma_trim_end_skips_white(s, (j - 1) as nat, lo);
    }
}

/// Trimming keeps one contiguous part of a text and removes only whitespace: everything
/// before and after the part it keeps is whitespace, and the part it keeps, when not empty,
/// neither begins nor ends with whitespace.
pub proof fn lemma_trimmed_removes_only_white_space(s: Seq<char>)
    ensures
        ({
            let a = trim_start_index(s, 0);
            let b = trim_end_index(s, s.len(), a);
            &&& a <= b <= s.len()
            &&& trimmed(s) == s.subrange(a as int, b as int)
            &&& forall|k: int| 0 <= k < a ==> is_white_space(#[trigger] s[k])
            &&& forall|k: int| b <= k < s.len() ==> is_white_space(#[trigger] s[k])
            &&& trimmed(s).len() > 0 ==> !is_white_space(trimmed(s)[0]) && !is_white_space(
                trimmed(s)[trimmed(s).len() - 1],
            )
        }),
{
    let a = trim_start_index(s, 0);
    lemma_trim_start_bounds(s, 0);
    lemma_trim_end_bounds(s, s.len(), a);
    lemma_trim_start_skips_white(s, 0);
    lemma_trim_end_skips_white(s, s.len(), a);
}

/// Whitespace appended to a text does not change what trimming keeps.
pub proof fn lemma_trim_ignores_trailing_white_space(s: Seq<char>, w: Seq<char>)
    requires
        forall|k: int| 0 <= k < w.len() ==> is_white_space(#[trigger] w[k]),
    ensures
        trimmed(s + w) == trimmed(s),
{
    let t = s + w;
    let a = trim_start_index(s, 0);
    lemma_trim_start_bounds(s, 0);
    lemma_trim_start_append_white(s, w, 0);
    if a < s.len() {
        assert forall|k: int| s.len() <= k < t.len() implies is_white_space(#[trigger] t[k]) by {
            assert(t[k] == w[k - s.len()]);
        }
        lemma_trim_end_skip_white(t, t.len(), s.len(), a);
        assert forall|k: int| 0 <= k < s.len() implies #[trigger] t[k] == s[k] by {}
        lemma_trim_end_prefix(s, t, s.len(), a);
        let b = trim_end_index(s, s.len(), a);
        lemma_trim_end_bounds(s, s.len(), a);
        assert(t.subrange(a as int, b as int) =~= s.subrange(a as int, b as int));
    } else {
        assert(trimmed(t) =~= Seq::<char>::empty());
        assert(trimmed(s) =~= Seq::<char>::empty());
    }
}

/// A line read with its ending, `\n` or `\r\n`, trims to the same text as the line without it.
pub proof fn lemma_trim_ignores_line_ending(line: Seq<char>)
    ensures
        trimmed(line + "\n"@) == trimmed(line),
        trimmed(line + "\r\n"@) == trimmed(line),
        normalized(line + "\n"@) == normalized(line),
        normalized(line + "\r\n"@) == normalized(line),
{
    reveal_strlit("\n");
    reveal_strlit("\r\n");
    lemma_ascii_white_space('\n');
    lemma_ascii_white_space('\r');
    lemma_trim_ignores_trailing_white_space(line, "\n"@);
    lemma_trim_ignores_trailing_white_space(line, "\r\n"@);
}

fn is_white_space_exec(c: char) -> (r: bool)
    ensures
        r == is_white_space(c),
{
    let u = c as u32;
    (0x9 <= u && u <= 0xd) || u == 0x20 || u == 0x85 || u == 0xa0 || u == 0x1680 || (0x2000
        <= u && u <= 0x200a) || u == 0x2028 || u == 0x2029 || u == 0x202f || u == 0x205f || u
        == 0x3000
}

fn ascii_lower_exec(c: char) -> (r: char)
    ensures
        r == ascii_lower(c),
{
    if 'A' <= c && c <= 'Z' {
        let u: u8 = c as u8;
        let v: u8 = u + 32;
        v as char
    } else {
        c
    }
}

/// The character range of `s` that `str::trim` keeps.
fn trim_bounds(s: &str) -> (r: (usize, usize))
    ensures
        r.0 == trim_start_index(s@, 0),
        r.1 == trim_end_index(s@, s@.len(), r.0 as nat),
        r.0 <= r.1 <= s@.len(),
{
    let n = s.unicode_len();
    let mut i: usize = 0;
    while i < n && is_white_space_exec(s.get_char(i))
        invariant
            i <= n,
            n == s@.len(),
            trim_start_index(s@, i as nat) == trim_start_index(s@, 0),
        decreases n - i,
    {
        i = i + 1;
    }
    let mut j: usize = n;
    while j > i && is_white_space_exec(s.get_char(j - 1))
        invariant
            i <= j <= n,
            n == s@.len(),
            i == trim_start_index(s@, 0),
            trim_end_index(s@, j as nat, i as nat) == trim_end_index(s@, n as nat, i as nat),
        decreases j,
    {
        j = j - 1;
    }
    (i, j)
}

/// The characters of `s`, trimmed and folded to ASCII lower case.
pub fn normalize(s: &str) -> (r: Vec<char>)
    ensures
        r@ == normalized(s@),
{
    let (a, b) = trim_bounds(s);
    let mut out: Vec<char> = Vec::new();
    let mut k: usize = a;
    while k < b
        invariant
            a <= k <= b,
            b <= s@.len(),
            a == trim_start_index(s@, 0),
            b == trim_end_index(s@, s@.len(), a as nat),
            out@ == s@.subrange(a as int, k as int).map_values(|c: char| ascii_lower(c)),
        decreases b - k,
    {
        let c = s.get_char(k);
        out.push(ascii_lower_exec(c));
        proof {
            assert(s@.subrange(a as int, k + 1) == s@.subrange(a as int, k as int).push(c));
        }
        k = k + 1;
    }
    out
}

/// The characters of `s` without leading and trailing whitespace.
pub fn trim_chars(s: &str) -> (r: Vec<char>)
    ensures
        r@ == trimmed(s@),
{
    let (a, b) = trim_bounds(s);
    let mut out: Vec<char> = Vec::new();
    let mut k: usize = a;
    while k < b
        invariant
            a <= k <= b,
            b <= s@.len(),
            out@ == s@.subrange(a as int, k as int),
        decreases b - k,
    {
        let c = s.get_char(k);
        out.push(c);
        proof {
            assert(s@.subrange(a as int, k + 1) == s@.subrange(a as int, k as int).push(c));
        }
        k = k + 1;
    }
    out
}

/// Whether the characters `v` spell exactly the word `w`.
pub fn chars_equal(v: &Vec<char>, w: &str) -> (r: bool)
    ensures
        r == (v@ == w@),
{
    let n = w.unicode_len();
    if v.len() != n {
        return false;
    }
    let mut i: usize = 0;
    while i < n
        invariant
            i <= n,
            n == w@.len(),
            v@.len() == n,
            forall|k: int| 0 <= k < i ==> v@[k] == w@[k],
        decreases n - i,
    {
        if v[i] != w.get_char(i) {
            return false;
        }
        i = i + 1;
    }
    proof {
        assert(v@ =~= w@);
    }
    true
}

/// Appends the digit `d` to `s`.
fn push_digit(s: &mut String, d: u64)
    requires
        d < 10,
    ensures
        final(s)@ == old(s)@.push(digit_char(d as nat)),
{
    proof {
        reveal_strlit("0");
        reveal_strlit("1");
        reveal_strlit("2");
        reveal_strlit("3");
        reveal_strlit("4");
        reveal_strlit("5");
        reveal_strlit("6");
        reveal_strlit("7");
        reveal_strlit("8");
        reveal_strlit("9");
    }
    if d == 0 {
        s.append("0");
    } else if d == 1 {
        s.append("1");
    } else if d == 2 {
        s.append("2");
    } else if d == 3 {
        s.append("3");
    } else if d == 4 {
        s.append("4");
    } else if d == 5 {
        s.append("5");
    } else if d == 6 {
        s.append("6");
    } else if d == 7 {
        s.append("7");
    } else if d == 8 {
        s.append("8");
    } else {
        s.append("9");
    }
}

/// Appends the decimal representation of `n` to `s`.
pub fn push_decimal(s: &mut String, n: u64)
    ensures
        final(s)@ == old(s)@ + decimal(n as nat),
    decreases n,
{
    if n < 10 {
        push_digit(s, n);
        proof {
            assert(decimal(n as nat) == seq![digit_char(n as nat)]);
        }
    } else {
        push_decimal(s, n / 10);
        push_digit(s, n % 10);
        proof {
            assert(decimal(n as nat) == decimal((n / 10) as nat).push(digit_char((n % 10) as nat)));
        }
    }
}

proof fn lemma_digits_value_prefix_monotone(d: Seq<char>, k: int)
    requires
        0 <= k <= d.len(),
    ensures
        digits_value(d.subrange(0, k)) <= digits_value(d),
    decreases d.len() - k,
{
    if k < d.len() {
        lemma_digits_value_prefix_monotone(d, k + 1);
        let p = d.subrange(0, k + 1);
        assert(p.drop_last() == d.subrange(0, k));
    } else {
        assert(d.subrange(0, k) == d);
    }
}

/// Parses the characters of `s` as an unsigned machine integer, as `str::parse::<usize>` does.
pub fn parse_usize_chars(s: &Vec<char>) -> (r: Option<usize>)
    ensures
        r matches Some(v) ==> parse_usize(s@) == Some(v as nat),
        r is None ==> parse_usize(s@) is None,
{
    let n = s.len();
    let start: usize = if n > 0 && s[0] == '+' {
        1
    } else {
        0
    };
    let ghost digits = if s@.len() > 0 && s@[0] == '+' {
        s@.drop_first()
    } else {
        s@
    };
    assert(digits == s@.subrange(start as int, n as int));
    if start == n {
        return None;
    }
    let mut value: usize = 0;
    let mut i: usize = start;
    while i < n
        invariant
            start <= i <= n,
            n == s@.len(),
            digits == s@.subrange(start as int, n as int),
            digits == (if s@.len() > 0 && s@[0] == '+' {
                s@.drop_first()
            } else {
                s@
            }),
            forall|k: int| start <= k < i ==> is_ascii_digit(#[trigger] s@[k]),
            value == digits_value(s@.subrange(start as int, i as int)),
        decreases n - i,
    {
        let c = s[i];
        if !('0' <= c && c <= '9') {
            proof {
                assert(digits[i - start] == s@[i as int]);
                assert(!is_ascii_digit(digits[i - start]));
                assert(!all_ascii_digits(digits));
            }
            return None;
        }
        let d: u32 = (c as u32) - 48;
        let ghost prefix_next = s@.subrange(start as int, i + 1);
        proof {
            assert(prefix_next.drop_last() == s@.subrange(start as int, i as int));
            assert(prefix_next.last() == c);
            assert(digits_value(prefix_next) == value * 10 + digit_value(c));
            assert(digit_value(c) == d);
        }
        match value.checked_mul(10) {
            None => {
                proof {
                    assert(value * 10 > usize::MAX);
                    if all_ascii_digits(digits) {
                        assert(digits.subrange(0, (i + 1 - start) as int) == prefix_next);
                        lemma_digits_value_prefix_monotone(digits, (i + 1 - start) as int);
                    }
                }
                return None;
            },
            Some(m) => {
                match m.checked_add(d as usize) {
                    None => {
                        proof {
                            if all_ascii_digits(digits) {
                                assert(digits.subrange(0, (i + 1 - start) as int) == prefix_next);
                                lemma_digits_value_prefix_monotone(digits, (i + 1 - start) as int);
                                assert(digits_value(digits) > usize::MAX);
                            }
                        }
                        return None;
                    },
                    Some(v) => {
                        value = v;
                    },
                }
            },
        }
        i = i + 1;
    }
    proof {
        assert(all_ascii_digits(digits));
    }
    Some(value)
}

} // verus!
