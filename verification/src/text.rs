//! Character-level helpers shared by the validators and formatters.
//!
//! Strings are handled through their `Seq<char>` views. Byte lengths follow
//! the UTF-8 encoding of those characters.

use vstd::prelude::*;
use vstd::utf8::*;

verus! {

/// `String::push` appends one character to the end of the string.
pub assume_specification[ std::string::String::push ](s: &mut std::string::String, ch: char)
    ensures
        final(s)@ == old(s)@.push(ch),
;

/// ASCII letter or digit.
pub open spec fn is_ascii_alnum(c: char) -> bool {
    ('a' <= c && c <= 'z') || ('A' <= c && c <= 'Z') || ('0' <= c && c <= '9')
}

/// ASCII upper-case letter.
pub open spec fn is_ascii_upper(c: char) -> bool {
    'A' <= c && c <= 'Z'
}

/// ASCII lower-casing of one character; other characters are unchanged.
pub open spec fn lower_char(c: char) -> char {
    if is_ascii_upper(c) {
        ((c as u32) + 32) as char
    } else {
        c
    }
}

/// ASCII lower-casing of a whole sequence.
pub open spec fn lower_seq(s: Seq<char>) -> Seq<char> {
    s.map_values(|c: char| lower_char(c))
}

/// Number of bytes in the UTF-8 encoding of `s`.
pub open spec fn byte_len(s: Seq<char>) -> nat {
    encode_utf8(s).len()
}

/// Number of bytes in the UTF-8 encoding of one character.
pub open spec fn char_width(c: char) -> nat {
    encode_scalar(c as u32).len()
}

pub proof fn lemma_encode_utf8_concat(a: Seq<char>, b: Seq<char>)
    ensures
        encode_utf8(a + b) == encode_utf8(a) + encode_utf8(b),
    decreases a.len(),
{
    if a.len() == 0 {
        assert(a + b =~= b);
        assert(encode_utf8(a) + encode_utf8(b) =~= encode_utf8(b));
    } else {
        lemma_encode_utf8_concat(a.drop_first(), b);
        assert((a + b).drop_first() =~= a.drop_first() + b);
        assert((a + b)[0] == a[0]);
        assert(encode_utf8(a + b) =~= encode_scalar(a[0] as u32) + encode_utf8(a.drop_first() + b));
    }
}

pub proof fn lemma_byte_len_push(s: Seq<char>, c: char)
    ensures
        byte_len(s.push(c)) == byte_len(s) + char_width(c),
{
    lemma_encode_utf8_concat(s, seq![c]);
    assert(s.push(c) =~= s + seq![c]);
    assert(seq![c].drop_first() =~= Seq::<char>::empty());
    assert(encode_utf8(seq![c]) =~= encode_scalar(c as u32) + encode_utf8(Seq::<char>::empty()));
}

/// Number of bytes in the UTF-8 encoding of `c`.
pub fn utf8_width(c: char) -> (w: usize)
    ensures
        w == char_width(c),
        1 <= w <= 4,
{
    let v: u32 = c as u32;
    proof {
        vstd::utf8::char_is_scalar(c);
    }
    if v <= 0x7F {
        1
    } else if v <= 0x7FF {
        2
    } else if v <= 0xFFFF {
        3
    } else {
        4
    }
}

/// Whether the UTF-8 encoding of `s` is longer than `limit` bytes.
pub fn byte_len_exceeds(s: &[char], limit: usize) -> (r: bool)
    requires
        limit < usize::MAX - 4,
    ensures
        r == (byte_len(s@) > limit),
{
    let mut total: usize = 0;
    let mut i: usize = 0;
    while i < s.len()
        invariant
            i <= s@.len(),
            total == byte_len(s@.subrange(0, i as int)),
            total <= limit,
            limit < usize::MAX - 4,
        decreases s@.len() - i,
    {
        let w = utf8_width(s[i]);
        proof {
            lemma_byte_len_push(s@.subrange(0, i as int), s@[i as int]);
            assert(s@.subrange(0, i + 1) =~= s@.subrange(0, i as int).push(s@[i as int]));
        }
        total = total + w;
        if total > limit {
            proof {
                lemma_encode_utf8_concat(s@.subrange(0, i + 1), s@.subrange(i + 1, s@.len() as int));
                assert(s@ =~= s@.subrange(0, i + 1) + s@.subrange(i + 1, s@.len() as int));
            }
            return true;
        }
        i = i + 1;
    }
    assert(s@.subrange(0, i as int) =~= s@);
    false
}

pub fn ascii_alnum(c: char) -> (r: bool)
    ensures
        r == is_ascii_alnum(c),
{
    ('a' <= c && c <= 'z') || ('A' <= c && c <= 'Z') || ('0' <= c && c <= '9')
}

pub fn to_lower_char(c: char) -> (r: char)
    ensures
        r == lower_char(c),
{
    if 'A' <= c && c <= 'Z' {
        let b: u8 = c as u8;
        (b + 32) as char
    } else {
        c
    }
}

/// The characters of `s`, in order.
pub fn str_to_chars(s: &str) -> (v: Vec<char>)
    ensures
        v@ == s@,
{
    let n = s.unicode_len();
    let mut v: Vec<char> = Vec::new();
    let mut i: usize = 0;
    while i < n
        invariant
            n == s@.len(),
            i <= n,
            v@ == s@.subrange(0, i as int),
        decreases n - i,
    {
        v.push(s.get_char(i));
        i = i + 1;
    }
    assert(v@ =~= s@);
    v
}

/// A string made of the characters `v`.
pub fn chars_to_string(v: &[char]) -> (s: String)
    ensures
        s@ == v@,
{
    let mut s = String::new();
    let mut i: usize = 0;
    while i < v.len()
        invariant
            i <= v@.len(),
            s@ == v@.subrange(0, i as int),
        decreases v@.len() - i,
    {
        s.push(v[i]);
        i = i + 1;
    }
    assert(s@ =~= v@);
    s
}

/// Character-wise equality of two character vectors.
pub fn chars_eq(a: &[char], b: &[char]) -> (r: bool)
    ensures
        r == (a@ == b@),
{
    if a.len() != b.len() {
        return false;
    }
    let mut i: usize = 0;
    while i < a.len()
        invariant
            a@.len() == b@.len(),
            i <= a@.len(),
            forall|j: int| 0 <= j < i ==> a@[j] == b@[j],
        decreases a@.len() - i,
    {
        if a[i] != b[i] {
            return false;
        }
        i = i + 1;
    }
    assert(a@ =~= b@);
    true
}

/// ASCII lower-casing of a character vector.
pub fn lower_chars(v: &[char]) -> (r: Vec<char>)
    ensures
        r@ == lower_seq(v@),
{
    let mut r: Vec<char> = Vec::new();
    let mut i: usize = 0;
    while i < v.len()
        invariant
            i <= v@.len(),
            r@ == lower_seq(v@.subrange(0, i as int)),
        decreases v@.len() - i,
    {
        r.push(to_lower_char(v[i]));
        proof {
            assert(lower_seq(v@.subrange(0, i + 1)) =~= lower_seq(v@.subrange(0, i as int)).push(
                lower_char(v@[i as int]),
            ));
        }
        i = i + 1;
    }
    assert(v@.subrange(0, v@.len() as int) =~= v@);
    r
}

/// Splitting at every occurrence of `sep`, as `str::split` does: the
/// result always has one more piece than there are separators.
pub open spec fn split_acc(s: Seq<char>, sep: char, cur: Seq<char>) -> Seq<Seq<char>>
    decreases s.len(),
{
    if s.len() == 0 {
        seq![cur]
    } else if s[0] == sep {
        seq![cur] + split_acc(s.drop_first(), sep, Seq::empty())
    } else {
        split_acc(s.drop_first(), sep, cur.push(s[0]))
    }
}

/// The character sequences held by a vector of character vectors.
pub open spec fn views(r: Seq<Vec<char>>) -> Seq<Seq<char>> {
    r.map_values(|v: Vec<char>| v@)
}

pub open spec fn split_on(s: Seq<char>, sep: char) -> Seq<Seq<char>> {
    split_acc(s, sep, Seq::empty())
}

/// The pieces of `s` between occurrences of `sep`.
pub fn split_chars(s: &[char], sep: char) -> (r: Vec<Vec<char>>)
    ensures
        views(r@) == split_on(s@, sep),
{
    let mut r: Vec<Vec<char>> = Vec::new();
    let mut cur: Vec<char> = Vec::new();
    let mut i: usize = 0;
    assert(s@.skip(0) =~= s@);
    assert(views(r@) =~= Seq::<Seq<char>>::empty());
    while i < s.len()
        invariant
            i <= s@.len(),
            views(r@) + split_acc(s@.skip(i as int), sep, cur@) == split_on(s@, sep),
        decreases s@.len() - i,
    {
        let c = s[i];
        let ghost rest = s@.skip(i as int);
        assert(rest[0] == c);
        assert(rest.drop_first() =~= s@.skip(i + 1));
        if c == sep {
            let ghost old_r = views(r@);
            let ghost old_cur = cur@;
            r.push(cur);
            cur = Vec::new();
            assert(views(r@) =~= old_r.push(old_cur));
            assert(views(r@) + split_acc(s@.skip(i + 1), sep, cur@) =~= old_r + (seq![old_cur]
                + split_acc(rest.drop_first(), sep, Seq::empty())));
        } else {
            cur.push(c);
        }
        i = i + 1;
    }
    let ghost old_r = views(r@);
    let ghost last = cur@;
    assert(s@.skip(i as int).len() == 0);
    r.push(cur);
    assert(views(r@) =~= old_r + seq![last]);
    r
}

/// Unicode `White_Space`, the set `char::is_whitespace` and `str::trim`
/// use.
pub open spec fn is_unicode_whitespace(c: char) -> bool {
    ('\u{9}' <= c && c <= '\u{d}') || c == ' ' || c == '\u{85}' || c == '\u{a0}' || c
        == '\u{1680}' || ('\u{2000}' <= c && c <= '\u{200a}') || c == '\u{2028}' || c
        == '\u{2029}' || c == '\u{202f}' || c == '\u{205f}' || c == '\u{3000}'
}

pub fn unicode_whitespace(c: char) -> (r: bool)
    ensures
        r == is_unicode_whitespace(c),
{
    ('\u{9}' <= c && c <= '\u{d}') || c == ' ' || c == '\u{85}' || c == '\u{a0}' || c
        == '\u{1680}' || ('\u{2000}' <= c && c <= '\u{200a}') || c == '\u{2028}' || c
        == '\u{2029}' || c == '\u{202f}' || c == '\u{205f}' || c == '\u{3000}'
}

/// Number of leading whitespace characters.
pub open spec fn leading_ws(s: Seq<char>) -> nat
    decreases s.len(),
{
    if s.len() > 0 && is_unicode_whitespace(s[0]) {
        1 + leading_ws(s.drop_first())
    } else {
        0
    }
}

/// Number of trailing whitespace characters.
pub open spec fn trailing_ws(s: Seq<char>) -> nat
    decreases s.len(),
{
    if s.len() > 0 && is_unicode_whitespace(s.last()) {
        1 + trailing_ws(s.drop_last())
    } else {
        0
    }
}

/// `s` without leading and trailing whitespace, as `str::trim` gives it.
pub open spec fn trim_seq(s: Seq<char>) -> Seq<char> {
    let t = s.skip(leading_ws(s) as int);
    t.take(t.len() - trailing_ws(t))
}

pub proof fn lemma_leading_ws(s: Seq<char>)
    ensures
        leading_ws(s) <= s.len(),
        forall|i: int| 0 <= i < leading_ws(s) ==> is_unicode_whitespace(#[trigger] s[i]),
        leading_ws(s) < s.len() ==> !is_unicode_whitespace(s[leading_ws(s) as int]),
    decreases s.len(),
{
    if s.len() > 0 && is_unicode_whitespace(s[0]) {
        lemma_leading_ws(s.drop_first());
        assert forall|i: int| 0 <= i < leading_ws(s) implies is_unicode_whitespace(
            #[trigger] s[i],
        ) by {
            if i > 0 {
                assert(s[i] == s.drop_first()[i - 1]);
            }
        }
    }
}

pub proof fn lemma_trailing_ws(s: Seq<char>)
    ensures
        trailing_ws(s) <= s.len(),
        forall|i: int|
            s.len() - trailing_ws(s) <= i < s.len() ==> is_unicode_whitespace(#[trigger] s[i]),
        trailing_ws(s) < s.len() ==> !is_unicode_whitespace(s[s.len() - trailing_ws(s) - 1]),
    decreases s.len(),
{
    if s.len() > 0 && is_unicode_whitespace(s.last()) {
        lemma_trailing_ws(s.drop_last());
        assert forall|i: int| s.len() - trailing_ws(s) <= i < s.len() implies is_unicode_whitespace(
            #[trigger] s[i],
        ) by {
            if i < s.len() - 1 {
                assert(s[i] == s.drop_last()[i]);
            }
        }
    }
}

/// `s` with leading and trailing whitespace removed.
pub fn trim_chars(s: &[char]) -> (r: Vec<char>)
    ensures
        r@ == trim_seq(s@),
{
    let mut start: usize = 0;
    proof {
        lemma_leading_ws(s@);
    }
    while start < s.len() && unicode_whitespace(s[start])
        invariant
            start <= leading_ws(s@),
            leading_ws(s@) <= s@.len(),
            forall|i: int| 0 <= i < leading_ws(s@) ==> is_unicode_whitespace(#[trigger] s@[i]),
            leading_ws(s@) < s@.len() ==> !is_unicode_whitespace(s@[leading_ws(s@) as int]),
        decreases s@.len() - start,
    {
        start = start + 1;
    }
    let ghost t = s@.skip(start as int);
    proof {
        lemma_trailing_ws(t);
    }
    let mut end: usize = s.len();
    while end > start && unicode_whitespace(s[end - 1])
        invariant
            start == leading_ws(s@),
            start <= end <= s@.len(),
            t == s@.skip(start as int),
            end - start >= t.len() - trailing_ws(t),
            trailing_ws(t) <= t.len(),
            forall|i: int| t.len() - trailing_ws(t) <= i < t.len() ==> is_unicode_whitespace(
                #[trigger] t[i],
            ),
            trailing_ws(t) < t.len() ==> !is_unicode_whitespace(t[t.len() - trailing_ws(t) - 1]),
        decreases end,
    {
        assert(t[end - 1 - start] == s@[end - 1]);
        end = end - 1;
    }
    let mut r: Vec<char> = Vec::new();
    let mut i: usize = start;
    while i < end
        invariant
            start <= i <= end <= s@.len(),
            r@ == s@.subrange(start as int, i as int),
        decreases end - i,
    {
        r.push(s[i]);
        assert(s@.subrange(start as int, i + 1) =~= s@.subrange(start as int, i as int).push(s@[i as int]));
        i = i + 1;
    }
    proof {
        if end - start > t.len() - trailing_ws(t) {
            assert(t[end - 1 - start] == s@[end - 1]);
        }
        assert(r@ =~= trim_seq(s@));
    }
    r
}

/// `p` is a prefix of `s`.
pub open spec fn is_prefix(p: Seq<char>, s: Seq<char>) -> bool {
    p.len() <= s.len() && s.subrange(0, p.len() as int) == p
}

pub fn starts_with_chars(s: &[char], p: &[char]) -> (r: bool)
    ensures
        r == is_prefix(p@, s@),
{
    if p.len() > s.len() {
        return false;
    }
    let mut i: usize = 0;
    while i < p.len()
        invariant
            p@.len() <= s@.len(),
            i <= p@.len(),
            forall|j: int| 0 <= j < i ==> s@[j] == p@[j],
        decreases p@.len() - i,
    {
        if s[i] != p[i] {
            assert(s@.subrange(0, p@.len() as int)[i as int] == s@[i as int]);
            return false;
        }
        i = i + 1;
    }
    assert(s@.subrange(0, p@.len() as int) =~= p@);
    true
}

/// ASCII case-insensitive equality, as `str::eq_ignore_ascii_case` checks it.
pub fn eq_ignore_ascii_case_chars(a: &[char], b: &[char]) -> (r: bool)
    ensures
        r == (lower_seq(a@) == lower_seq(b@)),
{
    let la = lower_chars(a);
    let lb = lower_chars(b);
    chars_eq(&la, &lb)
}

/// Decimal digit character for `d < 10`.
pub open spec fn digit_char(d: nat) -> char {
    ((d + 48) as u32) as char
}

/// Decimal representation of `n`, without leading zeros.
pub open spec fn decimal(n: nat) -> Seq<char>
    decreases n,
{
    if n < 10 {
        seq![digit_char(n)]
    } else {
        decimal(n / 10).push(digit_char(n % 10))
    }
}

/// The decimal representation of `n`.
pub fn u64_to_decimal(n: u64) -> (r: String)
    ensures
        r@ == decimal(n as nat),
{
    let mut digits: Vec<char> = Vec::new();
    let mut m: u64 = n;
    // digits holds the low-order digits in reverse order.
    loop
        invariant_except_break
            decimal(n as nat) == decimal(m as nat) + digits@.reverse(),
        ensures
            decimal(n as nat) == digits@.reverse(),
        decreases m,
    {
        let d: u8 = (m % 10) as u8;
        let c: char = (d + 48) as char;
        assert(c == digit_char((m % 10) as nat));
        let ghost old_digits = digits@;
        digits.push(c);
        assert(digits@.reverse() =~= seq![c] + old_digits.reverse());
        if m < 10 {
            assert(decimal(m as nat) == seq![c]);
            assert(decimal(n as nat) =~= digits@.reverse());
            break;
        }
        assert(decimal(m as nat) == decimal((m / 10) as nat).push(c));
        assert(decimal(m as nat) + old_digits.reverse() =~= decimal((m / 10) as nat) + digits@.reverse());
        m = m / 10;
    }
    let mut r = String::new();
    let mut i: usize = digits.len();
    while i > 0
        invariant
            i <= digits@.len(),
            r@ == digits@.reverse().subrange(0, (digits@.len() - i) as int),
            decimal(n as nat) == digits@.reverse(),
        decreases i,
    {
        i = i - 1;
        r.push(digits[i]);
        assert(r@ =~= digits@.reverse().subrange(0, (digits@.len() - i) as int));
    }
    assert(r@ =~= digits@.reverse());
    r
}

/// `a` followed by `b`.
pub fn cat(a: &str, b: &str) -> (r: String)
    ensures
        r@ == a@ + b@,
{
    let mut r = String::from_str(a);
    r.append(b);
    r
}

/// `a`, `b` and `c` in sequence.
pub fn cat3(a: &str, b: &str, c: &str) -> (r: String)
    ensures
        r@ == a@ + b@ + c@,
{
    let mut r = String::from_str(a);
    r.append(b);
    r.append(c);
    r
}

/// Number of leading characters of `s` whose UTF-8 encoding fits in
/// `budget` bytes.
pub open spec fn fitting_prefix_len(s: Seq<char>, budget: int) -> nat
    decreases s.len(),
{
    if s.len() == 0 || char_width(s[0]) > budget {
        0
    } else {
        1 + fitting_prefix_len(s.drop_first(), budget - char_width(s[0]))
    }
}

/// The longest prefix of `s` whose UTF-8 encoding is at most `max_bytes`
/// bytes, so that a cut never splits a character.
pub open spec fn truncated_to_boundary(s: Seq<char>, max_bytes: nat) -> Seq<char> {
    s.take(fitting_prefix_len(s, max_bytes as int) as int)
}

proof fn lemma_fitting_prefix(s: Seq<char>, budget: int, k: int)
    requires
        0 <= k <= s.len(),
        byte_len(s.take(k)) <= budget,
        forall|j: int| 0 <= j < k ==> char_width(#[trigger] s[j]) <= budget,
        k < s.len() ==> byte_len(s.take(k)) + char_width(s[k]) > budget,
    ensures
        fitting_prefix_len(s, budget) == k,
    decreases k,
{
    if k > 0 {
        let t = s.drop_first();
        lemma_encode_utf8_concat(seq![s[0]], t.take(k - 1));
        assert(s.take(k) =~= seq![s[0]] + t.take(k - 1));
        assert(seq![s[0]].drop_first() =~= Seq::<char>::empty());
        assert(encode_utf8(seq![s[0]]) =~= encode_scalar(s[0] as u32) + encode_utf8(
            Seq::<char>::empty(),
        ));
        if k < s.len() {
            lemma_encode_utf8_concat(seq![s[0]], t.take(k));
            assert(s.take(k + 1) =~= seq![s[0]] + t.take(k));
            lemma_byte_len_push(s.take(k), s[k]);
            assert(s.take(k + 1) =~= s.take(k).push(s[k]));
            lemma_byte_len_push(t.take(k - 1), t[k - 1]);
            assert(t.take(k) =~= t.take(k - 1).push(t[k - 1]));
        }
        assert forall|j: int| 0 <= j < k - 1 implies char_width(#[trigger] t[j]) <= budget
            - char_width(s[0]) by {
            assert(t[j] == s[j + 1]);
            lemma_byte_len_prefix_bound(s, k, j + 1);
        }
        lemma_fitting_prefix(t, budget - char_width(s[0]), k - 1);
    } else {
        if s.len() > 0 {
            assert(s.take(0) =~= Seq::<char>::empty());
        }
    }
}

proof fn lemma_byte_len_prefix_bound(s: Seq<char>, k: int, j: int)
    requires
        0 < j < k <= s.len(),
    ensures
        byte_len(s.take(k)) >= char_width(s[0]) + char_width(s[j]),
{
    lemma_encode_utf8_concat(s.take(j), s.subrange(j, k));
    assert(s.take(k) =~= s.take(j) + s.subrange(j, k));
    lemma_encode_utf8_concat(seq![s[0]], s.subrange(1, j));
    assert(s.take(j) =~= seq![s[0]] + s.subrange(1, j));
    assert(seq![s[0]].drop_first() =~= Seq::<char>::empty());
    assert(encode_utf8(seq![s[0]]) =~= encode_scalar(s[0] as u32) + encode_utf8(
        Seq::<char>::empty(),
    ));
    let r = s.subrange(j, k);
    assert(r[0] == s[j]);
    assert(encode_utf8(r) =~= encode_scalar(r[0] as u32) + encode_utf8(r.drop_first()));
}

/// `s` cut to at most `max_bytes` bytes at a character boundary.
pub fn truncate_to_boundary(s: &[char], max_bytes: usize) -> (r: Vec<char>)
    requires
        max_bytes < usize::MAX - 4,
    ensures
        r@ == truncated_to_boundary(s@, max_bytes as nat),
        byte_len(r@) <= max_bytes,
{
    let mut total: usize = 0;
    let mut r: Vec<char> = Vec::new();
    let mut i: usize = 0;
    while i < s.len()
        invariant
            i <= s@.len(),
            r@ == s@.take(i as int),
            total == byte_len(s@.take(i as int)),
            total <= max_bytes,
            max_bytes < usize::MAX - 4,
            forall|j: int| 0 <= j < i ==> char_width(#[trigger] s@[j]) <= max_bytes,
        ensures
            i <= s@.len(),
            r@ == s@.take(i as int),
            total == byte_len(s@.take(i as int)),
            total <= max_bytes,
            forall|j: int| 0 <= j < i ==> char_width(#[trigger] s@[j]) <= max_bytes,
            i < s@.len() ==> total + char_width(s@[i as int]) > max_bytes,
        decreases s@.len() - i,
    {
        let w = utf8_width(s[i]);
        proof {
            lemma_byte_len_push(s@.take(i as int), s@[i as int]);
            assert(s@.take(i + 1) =~= s@.take(i as int).push(s@[i as int]));
        }
        if total + w > max_bytes {
            break;
        }
        r.push(s[i]);
        total = total + w;
        i = i + 1;
    }
    proof {
        lemma_fitting_prefix(s@, max_bytes as int, i as int);
    }
    r
}

/// What `format!("{:?}", s)` shows for a string: the quoted, escaped form.
pub uninterp spec fn str_debug_form(s: Seq<char>) -> Seq<char>;

/// What `format!("{:?}", c)` shows for a character: the quoted, escaped form.
pub uninterp spec fn char_debug_form(c: char) -> Seq<char>;

/// The `Debug` rendering of a string (std's `<str as Debug>::fmt` through
/// `format!`); its result is named, not described.
#[verifier::external_body]
pub fn debug_str(s: &str) -> (r: String)
    ensures
        r@ == str_debug_form(s@),
{
    format!("{s:?}")
}

/// The `Debug` rendering of a character (std's `<char as Debug>::fmt`
/// through `format!`); its result is named, not described.
#[verifier::external_body]
pub fn debug_char(c: char) -> (r: String)
    ensures
        r@ == char_debug_form(c),
{
    format!("{c:?}")
}

/// What `str::to_lowercase` gives: the full Unicode lower-case mapping.
pub uninterp spec fn unicode_lowercase(s: Seq<char>) -> Seq<char>;

/// Unicode lower-casing (std's `str::to_lowercase`); its result is named,
/// not described.
#[verifier::external_body]
pub fn to_unicode_lowercase(s: &str) -> (r: String)
    ensures
        r@ == unicode_lowercase(s@),
{
    s.to_lowercase()
}

/// Values that can be turned into an owned string, with the characters
/// they hold.
pub trait IntoText: Sized {
    spec fn text_view(&self) -> Seq<char>;

    fn into_text(self) -> (r: String)
        ensures
            r@ == self.text_view(),
    ;
}

impl IntoText for String {
    open spec fn text_view(&self) -> Seq<char> {
        self@
    }

    fn into_text(self) -> (r: String) {
        self
    }
}

impl<'a> IntoText for &'a str {
    open spec fn text_view(&self) -> Seq<char> {
        (*self)@
    }

    fn into_text(self) -> (r: String) {
        String::from_str(self)
    }
}

impl<'a> IntoText for &'a String {
    open spec fn text_view(&self) -> Seq<char> {
        (*self)@
    }

    fn into_text(self) -> (r: String) {
        self.clone()
    }
}

} // verus!
