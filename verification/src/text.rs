//! Character-level helpers on which the parsers of this crate are built.

use vstd::prelude::*;
use vstd::string::*;

verus! {

/// `pat` occurs in `s` starting at index `i`.
pub open spec fn occurs_at(s: Seq<char>, pat: Seq<char>, i: int) -> bool {
    0 <= i && i + pat.len() <= s.len() && s.subrange(i, i + pat.len()) == pat
}

/// `i` is the leftmost index at which `pat` occurs in `s`.
pub open spec fn first_occurrence_at(s: Seq<char>, pat: Seq<char>, i: int) -> bool {
    occurs_at(s, pat, i) && forall|j: int| 0 <= j < i ==> !#[trigger] occurs_at(s, pat, j)
}

/// `pat` occurs somewhere in `s`.
pub open spec fn contains_pattern(s: Seq<char>, pat: Seq<char>) -> bool {
    exists|i: int| #[trigger] occurs_at(s, pat, i)
}

/// Leftmost index of `pat` in `s` (meaningful when `contains_pattern(s, pat)`).
pub open spec fn first_index(s: Seq<char>, pat: Seq<char>) -> int {
    choose|i: int| first_occurrence_at(s, pat, i)
}

/// Splitting `s` around the leftmost occurrence of `pat`.
pub open spec fn spec_split_once(s: Seq<char>, pat: Seq<char>) -> Option<(Seq<char>, Seq<char>)> {
    if contains_pattern(s, pat) {
        let i = first_index(s, pat);
        Some((s.take(i), s.skip(i + pat.len())))
    } else {
        None
    }
}

/// The leftmost occurrence is unique, so `first_index` names it.
pub proof fn lemma_first_index_unique(s: Seq<char>, pat: Seq<char>, i: int)
    requires
        first_occurrence_at(s, pat, i),
    ensures
        first_index(s, pat) == i,
        contains_pattern(s, pat),
{
    let w = first_index(s, pat);
    assert(first_occurrence_at(s, pat, w));
    if w < i {
        assert(!occurs_at(s, pat, w));
    } else if i < w {
        assert(!occurs_at(s, pat, i));
    }
}

/// Copies the characters of `s` into a vector.
pub fn chars_of(s: &str) -> (r: Vec<char>)
    ensures
        r@ == s@,
{
    let n = s.unicode_len();
    let mut r: Vec<char> = Vec::new();
    let mut i: usize = 0;
    while i < n
        invariant
            n == s@.len(),
            i <= n,
            r@ == s@.take(i as int),
        decreases n - i,
    {
        let c = s.get_char(i);
        r.push(c);
        i = i + 1;
        assert(r@ =~= s@.take(i as int));
    }
    assert(r@ =~= s@);
    r
}

/// Leftmost index of a non-empty `pat` within `s`.
pub fn find_pattern(s: &Vec<char>, pat: &Vec<char>) -> (r: Option<usize>)
    requires
        pat@.len() > 0,
    ensures
        match r {
            Some(i) => first_occurrence_at(s@, pat@, i as int),
            None => !contains_pattern(s@, pat@),
        },
{
    let n = s.len();
    let m = pat.len();
    if m > n {
        assert forall|i: int| !#[trigger] occurs_at(s@, pat@, i) by {}
        return None;
    }
    let mut i: usize = 0;
    while i <= n - m
        invariant
            n == s@.len(),
            m == pat@.len(),
            m > 0,
            m <= n,
            i <= n - m + 1,
            forall|j: int| 0 <= j < i ==> !#[trigger] occurs_at(s@, pat@, j),
        decreases n - i,
    {
        let mut k: usize = 0;
        let mut same = true;
        while k < m
            invariant
                n == s@.len(),
                m == pat@.len(),
                i + m <= n,
                k <= m,
                same == (forall|t: int| 0 <= t < k ==> s@[i + t] == pat@[t]),
            decreases m - k,
        {
            if s[i + k] != pat[k] {
                same = false;
            }
            k = k + 1;
        }
        if same {
            assert(s@.subrange(i as int, i + m) =~= pat@);
            return Some(i);
        }
        assert(!occurs_at(s@, pat@, i as int)) by {
            if occurs_at(s@, pat@, i as int) {
                assert forall|t: int| 0 <= t < m implies s@[i + t] == pat@[t] by {
                    assert(s@.subrange(i as int, i + m)[t] == s@[i + t]);
                }
            }
        }
        i = i + 1;
    }
    assert forall|j: int| !#[trigger] occurs_at(s@, pat@, j) by {
        if 0 <= j && j < i {
        }
    }
    None
}

/// Splits `input` into the part before and the part after the leftmost occurrence of
/// `separator`; `None` when the separator does not occur.
pub fn split_into_two(input: &str, separator: &str) -> (r: Option<(String, String)>)
    requires
        separator@.len() > 0,
    ensures
        match r {
            Some((a, b)) => spec_split_once(input@, separator@) == Some((a@, b@)),
            None => spec_split_once(input@, separator@) is None,
        },
{
    let s = chars_of(input);
    let p = chars_of(separator);
    match find_pattern(&s, &p) {
        Some(i) => {
            proof {
                lemma_first_index_unique(input@, separator@, i as int);
            }
            let n = input.unicode_len();
            let first = String::from_str(input.substring_char(0, i));
            let second = String::from_str(input.substring_char(i + p.len(), n));
            assert(first@ =~= input@.take(i as int));
            assert(second@ =~= input@.skip(i + p@.len()));
            Some((first, second))
        },
        None => None,
    }
}

/// `prefix` is a prefix of `s` (the condition under which `s.find(prefix)` is `Some(0)`).
pub fn text_starts_with(s: &str, prefix: &str) -> (r: bool)
    ensures
        r == prefix@.is_prefix_of(s@),
{
    let n = s.unicode_len();
    let m = prefix.unicode_len();
    if m > n {
        return false;
    }
    let mut i: usize = 0;
    while i < m
        invariant
            n == s@.len(),
            m == prefix@.len(),
            m <= n,
            i <= m,
            forall|k: int| 0 <= k < i ==> prefix@[k] == s@[k],
        decreases m - i,
    {
        if s.get_char(i) != prefix.get_char(i) {
            assert(prefix@ != s@.subrange(0, m as int)) by {
                assert(s@.subrange(0, m as int)[i as int] == s@[i as int]);
            }
            return false;
        }
        i = i + 1;
    }
    assert(prefix@ =~= s@.subrange(0, m as int));
    true
}

/// Whether two texts hold the same characters.
pub fn text_equal(a: &str, b: &str) -> (r: bool)
    ensures
        r == (a@ == b@),
{
    if a.unicode_len() != b.unicode_len() {
        return false;
    }
    let r = text_starts_with(a, b);
    proof {
        if r {
            assert(a@ =~= a@.subrange(0, a@.len() as int));
        }
    }
    r
}

/// An ASCII decimal digit.
pub open spec fn is_digit(c: char) -> bool {
    '0' <= c && c <= '9'
}

/// Value of a sequence of decimal digits (most significant first).
pub open spec fn digits_value(s: Seq<char>) -> nat
    decreases s.len(),
{
    if s.len() == 0 {
        0
    } else {
        digits_value(s.drop_last()) * 10 + ((s.last() as nat) - ('0' as nat)) as nat
    }
}

/// The text after an optional leading `+`.
pub open spec fn unsigned_digits(s: Seq<char>) -> Seq<char> {
    if s.len() > 0 && s[0] == '+' {
        s.skip(1)
    } else {
        s
    }
}

/// Every character is a decimal digit.
pub open spec fn all_digits(d: Seq<char>) -> bool {
    forall|i: int| 0 <= i < d.len() ==> is_digit(#[trigger] d[i])
}

/// `u16::from_str`: an optional `+`, then at least one decimal digit, denoting a value
/// that fits in 16 bits.
pub open spec fn spec_parse_u16(s: Seq<char>) -> Option<u16> {
    let d = unsigned_digits(s);
    if d.len() > 0 && all_digits(d) && digits_value(d) <= 0xffff {
        Some(digits_value(d) as u16)
    } else {
        None
    }
}

/// Parses a decimal unsigned 16-bit integer as `u16::from_str` does.
pub fn parse_u16(s: &str) -> (r: Option<u16>)
    ensures
        r == spec_parse_u16(s@),
{
    let n = s.unicode_len();
    let mut i: usize = 0;
    if n > 0 && s.get_char(0) == '+' {
        i = 1;
    }
    let ghost d = unsigned_digits(s@);
    let first = i;
    assert(d =~= s@.skip(first as int));
    if i == n {
        return None;
    }
    let mut acc: u32 = 0;
    while i < n
        invariant
            n == s@.len(),
            first <= i <= n,
            d =~= s@.skip(first as int),
            d == unsigned_digits(s@),
            forall|k: int| 0 <= k < i - first ==> is_digit(#[trigger] d[k]),
            acc == if digits_value(d.take(i - first)) <= 0xffff { digits_value(d.take(i - first)) } else { 0x10000 },
        decreases n - i,
    {
        let c = s.get_char(i);
        if !('0' <= c && c <= '9') {
            assert(d.len() == n - first);
            assert(d[i - first] == c);
            assert(!is_digit(d[i - first]));
            assert(!(forall|k: int| 0 <= k < d.len() ==> is_digit(#[trigger] d[k])));
            return None;
        }
        let digit = (c as u32) - ('0' as u32);
        proof {
            let pre = d.take(i - first);
            let next = d.take(i - first + 1);
            assert(next.drop_last() =~= pre);
            assert(next.last() == c);
            assert(digits_value(next) == digits_value(pre) * 10 + digit);
        }
        if acc > 0xffff {
            acc = 0x10000;
        } else {
            let v = acc * 10 + digit;
            if v > 0xffff {
                acc = 0x10000;
            } else {
                acc = v;
            }
        }
        i = i + 1;
    }
    assert(d.take(n - first) =~= d);
    if acc > 0xffff {
        None
    } else {
        Some(acc as u16)
    }
}

/// Code of `char::to_ascii_lowercase`: ASCII capitals become small letters, all else stays.
pub open spec fn ascii_lower(c: char) -> int {
    if 'A' <= c && c <= 'Z' {
        (c as int) + 32
    } else {
        c as int
    }
}

/// Every character of the text is ASCII.
pub open spec fn is_ascii_text(s: Seq<char>) -> bool {
    forall|i: int| 0 <= i < s.len() ==> (#[trigger] s[i] as u32) < 128
}

/// The text with ASCII capitals replaced by small letters.
pub open spec fn ascii_lowercase(s: Seq<char>) -> Seq<char> {
    s.map_values(|c: char| if 'A' <= c && c <= 'Z' { ((c as u32) + 32) as char } else { c })
}

/// `str::eq_ignore_ascii_case`: same length and equal characters after ASCII lowercasing.
pub open spec fn spec_eq_ignore_ascii_case(a: Seq<char>, b: Seq<char>) -> bool {
    a.len() == b.len() && forall|i: int| 0 <= i < a.len() ==> #[trigger] ascii_lower(a[i]) == ascii_lower(b[i])
}

fn lower_char(c: char) -> (r: u32)
    ensures
        r == ascii_lower(c),
{
    if 'A' <= c && c <= 'Z' {
        (c as u32) + 32
    } else {
        c as u32
    }
}

/// Compares two texts, ignoring the case of ASCII letters.
pub fn eq_ignore_ascii_case(a: &str, b: &str) -> (r: bool)
    ensures
        r == spec_eq_ignore_ascii_case(a@, b@),
{
    let n = a.unicode_len();
    if n != b.unicode_len() {
        return false;
    }
    let mut i: usize = 0;
    while i < n
        invariant
            n == a@.len(),
            n == b@.len(),
            i <= n,
            forall|k: int| 0 <= k < i ==> #[trigger] ascii_lower(a@[k]) == ascii_lower(b@[k]),
        decreases n - i,
    {
        if lower_char(a.get_char(i)) != lower_char(b.get_char(i)) {
            return false;
        }
        i = i + 1;
    }
    true
}

/// Decimal digit character for a value below ten.
pub open spec fn digit_char(d: nat) -> char {
    (('0' as nat) + d) as char
}

/// Decimal text of a natural number, as `Display` writes unsigned integers.
pub open spec fn decimal(n: nat) -> Seq<char>
    decreases n,
{
    if n < 10 {
        seq![digit_char(n)]
    } else {
        decimal(n / 10).push(digit_char(n % 10))
    }
}

fn digit_text(d: usize) -> (r: &'static str)
    requires
        d < 10,
    ensures
        r@ == seq![digit_char(d as nat)],
{
    proof {
        reveal_strlit("0");
        reveal_strlit("1");
        reveal_strlit("2");
        reveal_strlit("3");
        reveal_strlit("4");
        reveal_strlit("5");
        reveal_strlit("6");
        reveal_strlit("7");
        reveal_strlit("8");
        reveal_strlit("9");
    }
    let r = if d == 0 {
        "0"
    } else if d == 1 {
        "1"
    } else if d == 2 {
        "2"
    } else if d == 3 {
        "3"
    } else if d == 4 {
        "4"
    } else if d == 5 {
        "5"
    } else if d == 6 {
        "6"
    } else if d == 7 {
        "7"
    } else if d == 8 {
        "8"
    } else {
        "9"
    };
    assert(r@ =~= seq![digit_char(d as nat)]);
    r
}

/// Appends the decimal text of `n` to `out`.
pub fn append_decimal(out: &mut String, n: usize)
    ensures
        final(out)@ == old(out)@ + decimal(n as nat),
    decreases n,
{
    if n >= 10 {
        append_decimal(out, n / 10);
    }
    let ghost before = out@;
    out.append(digit_text(n % 10));
    proof {
        if n >= 10 {
            assert(decimal(n as nat) == decimal((n / 10) as nat).push(digit_char((n % 10) as nat)));
        }
    }
    assert(out@ =~= old(out)@ + decimal(n as nat));
}

/// A line feed becomes a space, every other character stays.
pub open spec fn newline_to_space(c: char) -> char {
    if c == '\n' {
        ' '
    } else {
        c
    }
}

/// Every line feed of `s` turned into a space (`str::replace("\n", " ")`).
pub open spec fn spaced_lines(s: Seq<char>) -> Seq<char> {
    Seq::new(s.len(), |k: int| newline_to_space(s[k]))
}

/// Appends `s` to `out`, with every line feed turned into a space.
pub fn append_replacing_newlines(out: &mut String, s: &str)
    ensures
        final(out)@ == old(out)@ + spaced_lines(s@),
{
    proof {
        reveal_strlit(" ");
    }
    let n = s.unicode_len();
    let mut start: usize = 0;
    let mut i: usize = 0;
    while i < n
        invariant
            n == s@.len(),
            start <= i <= n,
            forall|k: int| start <= k < i ==> s@[k] != '\n',
            out@ == old(out)@ + spaced_lines(s@.take(start as int)),
        decreases n - i,
    {
        if s.get_char(i) == '\n' {
            let ghost before = out@;
            out.append(s.substring_char(start, i));
            out.append(" ");
            let ghost lhs = spaced_lines(s@.take(i + 1));
            let ghost rhs = spaced_lines(s@.take(start as int)) + s@.subrange(start as int, i as int) + seq![' '];
            assert forall|k: int| 0 <= k < i + 1 implies lhs[k] == rhs[k] by {
                if k < start {
                } else if k < i {
                    assert(s@[k] != '\n');
                } else {
                    assert(s@[k] == '\n');
                }
            }
            assert(lhs =~= rhs);
            proof {
                reveal_strlit(" ");
            }
            assert(" "@ =~= seq![' ']);
            assert(out@ =~= before + s@.subrange(start as int, i as int) + seq![' ']);
            assert(out@ =~= old(out)@ + lhs);
            start = i + 1;
        }
        i = i + 1;
    }
    let ghost before = out@;
    out.append(s.substring_char(start, n));
    let ghost lhs = spaced_lines(s@);
    let ghost rhs = spaced_lines(s@.take(start as int)) + s@.subrange(start as int, n as int);
    assert forall|k: int| 0 <= k < n implies lhs[k] == rhs[k] by {
        if k >= start {
            assert(s@[k] != '\n');
        }
    }
    assert(lhs =~= rhs);
    assert(out@ =~= old(out)@ + lhs);
}

/// Splitting `a + pat + b` at the leftmost `pat` gives back `a` and `b` when `pat` does
/// not start anywhere within `a`.
pub proof fn lemma_split_joined(a: Seq<char>, pat: Seq<char>, b: Seq<char>)
    requires
        pat.len() > 0,
        forall|j: int| 0 <= j < a.len() ==> !#[trigger] occurs_at(a + pat + b, pat, j),
    ensures
        spec_split_once(a + pat + b, pat) == Some((a, b)),
{
    let s = a + pat + b;
    assert(s.subrange(a.len() as int, (a.len() + pat.len()) as int) =~= pat);
    assert(occurs_at(s, pat, a.len() as int));
    assert(first_occurrence_at(s, pat, a.len() as int));
    lemma_first_index_unique(s, pat, a.len() as int);
    assert(s.take(a.len() as int) =~= a);
    assert(s.skip((a.len() + pat.len()) as int) =~= b);
}

/// Splitting `a + [c] + b` at the leftmost `c` gives back `a` and `b` when `a` has no `c`.
pub proof fn lemma_split_at_char(a: Seq<char>, c: char, b: Seq<char>)
    requires
        forall|i: int| 0 <= i < a.len() ==> a[i] != c,
    ensures
        spec_split_once(a + seq![c] + b, seq![c]) == Some((a, b)),
{
    assert forall|j: int| 0 <= j < a.len() implies !#[trigger] occurs_at(a + seq![c] + b, seq![c], j) by {
        assert((a + seq![c] + b).subrange(j, j + 1)[0] == a[j]);
    }
    lemma_split_joined(a, seq![c], b);
}

/// The decimal text of a number consists of digits, does not start with `+`, and has the
/// number as its value.
pub proof fn lemma_decimal_digits(n: nat)
    ensures
        decimal(n).len() > 0,
        all_digits(decimal(n)),
        digits_value(decimal(n)) == n,
    decreases n,
{
    let k = n % 10;
    assert(digit_char(k) as nat == 48 + k);
    assert((n / 10) * 10 + k == n);
    if n >= 10 {
        lemma_decimal_digits(n / 10);
        let d = decimal(n);
        assert(d.drop_last() =~= decimal(n / 10));
        assert(d.last() == digit_char(k));
        assert(digits_value(d) == digits_value(d.drop_last()) * 10 + ((d.last() as nat) - ('0' as nat)) as nat);
        assert forall|i: int| 0 <= i < d.len() implies is_digit(#[trigger] d[i]) by {
            if i < d.len() - 1 {
                assert(d[i] == decimal(n / 10)[i]);
            }
        }
    } else {
        let d = decimal(n);
        assert(d.drop_last() =~= Seq::<char>::empty());
        assert(digits_value(d) == digits_value(d.drop_last()) * 10 + ((d.last() as nat) - ('0' as nat)) as nat);
    }
}

/// Parsing the decimal text of a 16-bit number gives the number back.
pub proof fn law_decimal_parse_roundtrip(n: u16)
    ensures
        spec_parse_u16(decimal(n as nat)) == Some(n),
{
    lemma_decimal_digits(n as nat);
    let d = decimal(n as nat);
    assert(is_digit(d[0]));
    assert(unsigned_digits(d) == d);
}


/// A Unicode white space character (`char::is_whitespace`: the `White_Space` property).
pub open spec fn is_white_space(c: char) -> bool {
    ||| '\u{9}' <= c && c <= '\u{d}'
    ||| c == ' ' || c == '\u{85}' || c == '\u{a0}' || c == '\u{1680}'
    ||| '\u{2000}' <= c && c <= '\u{200a}'
    ||| c == '\u{2028}' || c == '\u{2029}' || c == '\u{202f}' || c == '\u{205f}' || c == '\u{3000}'
}

/// Length of the run of non-white-space characters at the start of `s`.
pub open spec fn word_len(s: Seq<char>) -> nat
    decreases s.len(),
{
    if s.len() == 0 || is_white_space(s[0]) {
        0
    } else {
        1 + word_len(s.drop_first())
    }
}

/// A leading word is no longer than the text.
pub proof fn lemma_word_len_bound(s: Seq<char>)
    ensures
        word_len(s) <= s.len(),
    decreases s.len(),
{
    if s.len() > 0 && !is_white_space(s[0]) {
        lemma_word_len_bound(s.drop_first());
    }
}

/// The words of a text: its maximal runs of non-white-space characters, in order.
pub open spec fn words(s: Seq<char>) -> Seq<Seq<char>>
    decreases s.len(),
{
    if s.len() == 0 {
        Seq::empty()
    } else if is_white_space(s[0]) {
        words(s.drop_first())
    } else {
        proof {
            lemma_word_len_bound(s);
        }
        seq![s.take(word_len(s) as int)] + words(s.skip(word_len(s) as int))
    }
}

/// A run of `m` non-white-space characters ended by white space or by the end of the text
/// is the leading word.
proof fn lemma_word_len_exact(t: Seq<char>, m: nat)
    requires
        m <= t.len(),
        forall|k: int| 0 <= k < m ==> !is_white_space(#[trigger] t[k]),
        m == t.len() || is_white_space(t[m as int]),
    ensures
        word_len(t) == m,
    decreases m,
{
    if m > 0 {
        assert(!is_white_space(t[0]));
        assert forall|k: int| 0 <= k < m - 1 implies !is_white_space(#[trigger] t.drop_first()[k]) by {
            assert(t.drop_first()[k] == t[k + 1]);
        }
        if m < t.len() {
            assert(t.drop_first()[m - 1] == t[m as int]);
        }
        lemma_word_len_exact(t.drop_first(), (m - 1) as nat);
    }
}

/// Whether a character is Unicode white space.
pub fn white_space(c: char) -> (r: bool)
    ensures
        r == is_white_space(c),
{
    ('\u{9}' <= c && c <= '\u{d}') || c == ' ' || c == '\u{85}' || c == '\u{a0}' || c == '\u{1680}'
        || ('\u{2000}' <= c && c <= '\u{200a}') || c == '\u{2028}' || c == '\u{2029}' || c == '\u{202f}'
        || c == '\u{205f}' || c == '\u{3000}'
}

/// Splits a text into its words (as `str::split_whitespace` does).
pub fn split_white_space(s: &str) -> (r: Vec<String>)
    ensures
        r@.map_values(|w: String| w@) == words(s@),
{
    let n = s.unicode_len();
    let mut r: Vec<String> = Vec::new();
    let mut i: usize = 0;
    assert(s@.skip(0) =~= s@);
    while i < n
        invariant
            n == s@.len(),
            i <= n,
            words(s@) == r@.map_values(|w: String| w@) + words(s@.skip(i as int)),
        decreases n - i,
    {
        let ghost rest = s@.skip(i as int);
        assert(rest[0] == s@[i as int]);
        if white_space(s.get_char(i)) {
            assert(rest.drop_first() =~= s@.skip(i + 1));
            i = i + 1;
        } else {
            let mut j: usize = i + 1;
            while j < n && !white_space(s.get_char(j))
                invariant
                    n == s@.len(),
                    i < j <= n,
                    forall|k: int| i <= k < j ==> !is_white_space(#[trigger] s@[k]),
                decreases n - j,
            {
                j = j + 1;
            }
            proof {
                assert forall|k: int| 0 <= k < j - i implies !is_white_space(#[trigger] rest[k]) by {
                    assert(rest[k] == s@[i + k]);
                }
                if j < n {
                    assert(rest[j - i] == s@[j as int]);
                }
                lemma_word_len_exact(rest, (j - i) as nat);
                assert(rest.take(j - i) =~= s@.subrange(i as int, j as int));
                assert(rest.skip(j - i) =~= s@.skip(j as int));
            }
            let ghost before = r@.map_values(|w: String| w@);
            let w = String::from_str(s.substring_char(i, j));
            r.push(w);
            assert(r@.map_values(|w: String| w@) =~= before.push(s@.subrange(i as int, j as int)));
            assert(before.push(s@.subrange(i as int, j as int)) + words(s@.skip(j as int)) =~= before + (seq![
                s@.subrange(i as int, j as int),
            ] + words(s@.skip(j as int))));
            i = j;
        }
    }
    assert(s@.skip(n as int) =~= Seq::<char>::empty());
    assert(r@.map_values(|w: String| w@) + Seq::<Seq<char>>::empty() =~= r@.map_values(|w: String| w@));
    r
}

} // verus!
