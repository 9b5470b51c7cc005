//! Text shaping for the terminal UI: wrapping, line counting, name casing
//! and the removal of control characters from untrusted strings.

use vstd::prelude::*;
use crate::text::{
    byte_len, chars_to_string, decimal, is_prefix, is_unicode_whitespace, leading_ws, lemma_leading_ws,
    split_chars, split_on, starts_with_chars, str_to_chars, u64_to_decimal, unicode_whitespace, views,
};

verus! {

/// `usize` addition that stops at the maximum.
pub open spec fn sat(a: int, b: int) -> int {
    if a + b > usize::MAX {
        usize::MAX as int
    } else {
        a + b
    }
}

/// How many array items fit in a third of the terminal once the title,
/// the `total_keys` key rows and a separator are taken off; at least 1.
pub open spec fn max_array_items_spec(terminal_height: int, total_keys: int) -> int {
    let budget = terminal_height / 3;
    let overhead = sat(total_keys, 2);
    if budget - overhead < 1 {
        1
    } else {
        budget - overhead
    }
}

/// Array items that fit in a third of the terminal, after the title row,
/// the key rows and a separator; never fewer than one.
pub fn max_array_items(terminal_height: u16, total_keys: usize) -> (r: usize)
    ensures
        r == max_array_items_spec(terminal_height as int, total_keys as int),
{
    let budget = (terminal_height as usize) / 3;
    let overhead = total_keys.saturating_add(2);
    let left = budget.saturating_sub(overhead);
    if left < 1 {
        1
    } else {
        left
    }
}

/// What `char::to_uppercase` yields for `c`, as a string.
pub uninterp spec fn char_uppercase(c: char) -> Seq<char>;

/// The upper-case form of `c` (std's `char::to_uppercase`, which may give
/// more than one character); its result is named, not described.
#[verifier::external_body]
fn uppercase_of(c: char) -> (r: String)
    ensures
        r@ == char_uppercase(c),
{
    c.to_uppercase().to_string()
}

/// A word with its first character upper-cased.
pub open spec fn capitalized(w: Seq<char>) -> Seq<char> {
    if w.len() == 0 {
        Seq::empty()
    } else {
        char_uppercase(w[0]) + w.drop_first()
    }
}

/// The capitalised words, joined.
pub open spec fn concat_capitalized(words: Seq<Seq<char>>) -> Seq<char>
    decreases words.len(),
{
    if words.len() == 0 {
        Seq::empty()
    } else {
        concat_capitalized(words.drop_last()) + capitalized(words.last())
    }
}

/// `snake_case` to `PascalCase`: the pieces between underscores, each with
/// its first character upper-cased, joined.
pub fn to_pascal_case(s: &str) -> (r: String)
    ensures
        r@ == concat_capitalized(split_on(s@, '_')),
{
    let chars = str_to_chars(s);
    let words = split_chars(&chars, '_');
    let mut out = String::new();
    let mut i: usize = 0;
    while i < words.len()
        invariant
            i <= words@.len(),
            views(words@) == split_on(s@, '_'),
            out@ == concat_capitalized(views(words@).take(i as int)),
        decreases words@.len() - i,
    {
        let w = &words[i];
        proof {
            assert(views(words@).take(i + 1).drop_last() =~= views(words@).take(i as int));
            assert(views(words@).take(i + 1).last() == w@);
        }
        if w.len() > 0 {
            let up = uppercase_of(w[0]);
            out.append(up.as_str());
            let mut j: usize = 1;
            let ghost before = out@;
            while j < w.len()
                invariant
                    1 <= j <= w@.len(),
                    out@ == before + w@.subrange(1, j as int),
                decreases w@.len() - j,
            {
                out.push(w[j]);
                assert(w@.subrange(1, j + 1) =~= w@.subrange(1, j as int).push(w@[j as int]));
                j = j + 1;
            }
            assert(w@.subrange(1, w@.len() as int) =~= w@.drop_first());
        } else {
            assert(capitalized(w@) =~= Seq::<char>::empty());
            assert(out@ + Seq::<char>::empty() =~= out@);
        }
        i = i + 1;
    }
    assert(views(words@).take(i as int) =~= views(words@));
    out
}

/// Two decimal digits, zero-padded.
pub open spec fn two_digits(n: nat) -> Seq<char> {
    if n < 10 {
        seq!['0'] + decimal(n)
    } else {
        decimal(n)
    }
}

/// A duration of a minute or more as `"{m}m {ss}s"`; `None` below a
/// minute, where the display is the seconds with one decimal (a floating
/// point rendering, made by the caller).
pub fn format_elapsed(secs: u64) -> (r: Option<String>)
    ensures
        secs < 60 ==> r is None,
        secs >= 60 ==> (r matches Some(s) && s@ == decimal((secs / 60) as nat) + "m "@ + two_digits(
            (secs % 60) as nat,
        ) + "s"@),
{
    if secs < 60 {
        return None;
    }
    let mins = secs / 60;
    let rem = secs % 60;
    let mut s = u64_to_decimal(mins);
    s.append("m ");
    if rem < 10 {
        s.append("0");
        proof {
            reveal_strlit("0");
        }
    }
    let rs = u64_to_decimal(rem);
    s.append(rs.as_str());
    s.append("s");
    proof {
        if rem < 10 {
            assert(seq!['0'] =~= "0"@);
        }
    }
    Some(s)
}

/// The state of word wrapping: finished lines, the line being built, its
/// width in characters, and whether no word has been placed yet.
pub type WrapState = (Seq<Seq<char>>, Seq<char>, int, bool);

pub open spec fn wrap_step(st: WrapState, word: Seq<char>, max_width: int) -> WrapState {
    if word.len() == 0 {
        st
    } else if st.3 {
        (st.0, st.1 + word, sat(st.2, word.len() as int), false)
    } else if sat(sat(st.2, 1), word.len() as int) <= max_width {
        (st.0, st.1.push(' ') + word, sat(sat(st.2, 1), word.len() as int), false)
    } else {
        (st.0.push(st.1), word, word.len() as int, false)
    }
}

pub open spec fn wrap_fold(st: WrapState, words: Seq<Seq<char>>, max_width: int) -> WrapState
    decreases words.len(),
{
    if words.len() == 0 {
        st
    } else {
        wrap_fold(wrap_step(st, words[0], max_width), words.drop_first(), max_width)
    }
}

/// The lines `text` wraps into at `max_width` characters: the text itself
/// when it fits (or the width is 0); otherwise its space-separated words
/// filled greedily, the leading whitespace kept on the first line.
pub open spec fn wrap_spec(text: Seq<char>, max_width: int) -> Seq<Seq<char>> {
    if max_width == 0 || text.len() <= max_width {
        seq![text]
    } else {
        let n = leading_ws(text) as int;
        let st = wrap_fold((Seq::empty(), text.take(n), n, true), split_on(text.skip(n), ' '), max_width);
        if st.1.len() > 0 || st.0.len() == 0 {
            st.0.push(st.1)
        } else {
            st.0
        }
    }
}

pub open spec fn string_views(v: Seq<String>) -> Seq<Seq<char>> {
    v.map_values(|s: String| s@)
}

/// Word-wrap one line to `max_width` characters, keeping its leading
/// whitespace on the first line.
pub fn word_wrap_line(text: &str, max_width: usize) -> (r: Vec<String>)
    ensures
        string_views(r@) == wrap_spec(text@, max_width as int),
{
    let chars = str_to_chars(text);
    let n = chars.len();
    if max_width == 0 || n <= max_width {
        let v = vec![String::from_str(text)];
        assert(string_views(v@) =~= seq![text@]);
        return v;
    }
    let mut lead: usize = 0;
    proof {
        lemma_leading_ws(chars@);
    }
    while lead < n && unicode_whitespace(chars[lead])
        invariant
            n == chars@.len(),
            lead <= leading_ws(chars@),
            leading_ws(chars@) <= chars@.len(),
            forall|i: int| 0 <= i < leading_ws(chars@) ==> is_unicode_whitespace(#[trigger] chars@[i]),
            leading_ws(chars@) < chars@.len() ==> !is_unicode_whitespace(
                chars@[leading_ws(chars@) as int],
            ),
        decreases n - lead,
    {
        lead = lead + 1;
    }
    let mut leading: Vec<char> = Vec::new();
    let mut rest: Vec<char> = Vec::new();
    let mut k: usize = 0;
    while k < n
        invariant
            n == chars@.len(),
            lead == leading_ws(chars@),
            k <= n,
            leading@ == chars@.take(if k < lead { k as int } else { lead as int }),
            rest@ == (if k < lead { Seq::<char>::empty() } else { chars@.subrange(
                lead as int,
                k as int,
            ) }),
        decreases n - k,
    {
        if k < lead {
            leading.push(chars[k]);
            assert(chars@.take(k + 1) =~= chars@.take(k as int).push(chars@[k as int]));
        } else {
            rest.push(chars[k]);
            assert(chars@.subrange(lead as int, k + 1) =~= chars@.subrange(lead as int, k as int).push(
                chars@[k as int],
            ));
        }
        k = k + 1;
    }
    assert(rest@ =~= chars@.skip(lead as int));
    let words = split_chars(&rest, ' ');
    let mut result: Vec<String> = Vec::new();
    let mut line: Vec<char> = leading;
    let mut width: usize = lead;
    let mut first_word = true;
    let ghost ws = views(words@);
    let mut i: usize = 0;
    assert(string_views(result@) =~= Seq::<Seq<char>>::empty());
    assert(ws.skip(0) =~= ws);
    while i < words.len()
        invariant
            i <= words@.len(),
            ws == views(words@),
            wrap_fold(
                (string_views(result@), line@, width as int, first_word),
                ws.skip(i as int),
                max_width as int,
            ) == wrap_fold(
                (Seq::empty(), chars@.take(lead as int), lead as int, true),
                ws,
                max_width as int,
            ),
        decreases words@.len() - i,
    {
        let word = &words[i];
        assert(ws.skip(i as int)[0] == word@);
        assert(ws.skip(i as int).drop_first() =~= ws.skip(i + 1));
        let w = word.len();
        if w == 0 {
        } else if first_word {
            let mut j: usize = 0;
            let ghost before = line@;
            while j < w
                invariant
                    j <= w == word@.len(),
                    line@ == before + word@.take(j as int),
                decreases w - j,
            {
                line.push(word[j]);
                assert(word@.take(j + 1) =~= word@.take(j as int).push(word@[j as int]));
                j = j + 1;
            }
            assert(word@.take(w as int) =~= word@);
            width = width.saturating_add(w);
            first_word = false;
        } else if width.saturating_add(1).saturating_add(w) <= max_width {
            line.push(' ');
            let mut j: usize = 0;
            let ghost before = line@;
            while j < w
                invariant
                    j <= w == word@.len(),
                    line@ == before + word@.take(j as int),
                decreases w - j,
            {
                line.push(word[j]);
                assert(word@.take(j + 1) =~= word@.take(j as int).push(word@[j as int]));
                j = j + 1;
            }
            assert(word@.take(w as int) =~= word@);
            width = width.saturating_add(1).saturating_add(w);
        } else {
            let ghost before = string_views(result@);
            result.push(chars_to_string(&line));
            assert(string_views(result@) =~= before.push(line@));
            line = Vec::new();
            let mut j: usize = 0;
            while j < w
                invariant
                    j <= w == word@.len(),
                    line@ == word@.take(j as int),
                decreases w - j,
            {
                line.push(word[j]);
                assert(word@.take(j + 1) =~= word@.take(j as int).push(word@[j as int]));
                j = j + 1;
            }
            assert(word@.take(w as int) =~= word@);
            width = w;
        }
        i = i + 1;
    }
    assert(ws.skip(i as int) =~= Seq::<Seq<char>>::empty());
    if line.len() > 0 || result.len() == 0 {
        let ghost before = string_views(result@);
        result.push(chars_to_string(&line));
        assert(string_views(result@) =~= before.push(line@));
    }
    result
}

/// The whitespace-separated words of `s` after the ones in `acc`, `cur`
/// being the word in progress; empty words are dropped.
pub open spec fn ws_words_acc(s: Seq<char>, cur: Seq<char>, acc: Seq<Seq<char>>) -> Seq<Seq<char>>
    decreases s.len(),
{
    if s.len() == 0 {
        if cur.len() > 0 {
            acc.push(cur)
        } else {
            acc
        }
    } else if is_unicode_whitespace(s[0]) {
        ws_words_acc(
            s.drop_first(),
            Seq::empty(),
            if cur.len() > 0 {
                acc.push(cur)
            } else {
                acc
            },
        )
    } else {
        ws_words_acc(s.drop_first(), cur.push(s[0]), acc)
    }
}

/// The words `str::split_whitespace` yields.
pub open spec fn ws_words(s: Seq<char>) -> Seq<Seq<char>> {
    ws_words_acc(s, Seq::empty(), Seq::empty())
}

/// The whitespace-separated words of `s`.
pub(crate) fn split_ws(s: &[char]) -> (r: Vec<Vec<char>>)
    ensures
        views(r@) == ws_words(s@),
{
    let mut r: Vec<Vec<char>> = Vec::new();
    let mut cur: Vec<char> = Vec::new();
    let mut i: usize = 0;
    assert(s@.skip(0) =~= s@);
    assert(views(r@) =~= Seq::<Seq<char>>::empty());
    while i < s.len()
        invariant
            i <= s@.len(),
            ws_words_acc(s@.skip(i as int), cur@, views(r@)) == ws_words(s@),
        decreases s@.len() - i,
    {
        let c = s[i];
        assert(s@.skip(i as int)[0] == c);
        assert(s@.skip(i as int).drop_first() =~= s@.skip(i + 1));
        if unicode_whitespace(c) {
            if cur.len() > 0 {
                let ghost before = views(r@);
                let ghost cv = cur@;
                r.push(cur);
                assert(views(r@) =~= before.push(cv));
                cur = Vec::new();
            } else {
                cur = Vec::new();
                assert(cur@ =~= Seq::<char>::empty());
            }
        } else {
            cur.push(c);
        }
        i = i + 1;
    }
    assert(s@.skip(i as int).len() == 0);
    if cur.len() > 0 {
        let ghost before = views(r@);
        let ghost cv = cur@;
        r.push(cur);
        assert(views(r@) =~= before.push(cv));
    }
    r
}

/// One word placed by [`wrapped_line_count`]: `(lines, col)` after a word
/// of `wlen` bytes at `width`.
pub open spec fn count_step(st: (int, int), wlen: int, width: int) -> (int, int) {
    if st.1 > 0 && sat(sat(st.1, 1), wlen) > width {
        (sat(st.0, 1), wlen)
    } else if st.1 == 0 {
        (st.0, wlen)
    } else {
        (st.0, sat(sat(st.1, 1), wlen))
    }
}

pub open spec fn count_fold(st: (int, int), words: Seq<Seq<char>>, width: int) -> (int, int)
    decreases words.len(),
{
    if words.len() == 0 {
        st
    } else {
        count_fold(
            count_step(st, (byte_len(words[0]) as usize) as int, width),
            words.drop_first(),
            width,
        )
    }
}

/// Lines `text` takes when its whitespace-separated words are filled into
/// `width` columns, word lengths counted in bytes; 1 for empty text or a
/// zero width.
pub open spec fn wrapped_line_count_spec(text: Seq<char>, width: int) -> int {
    if text.len() == 0 || width == 0 {
        1
    } else {
        count_fold((1, 0), ws_words(text), width).0
    }
}

/// Lines `text` takes in the input box when word-wrapped at `width`.
pub fn wrapped_line_count(text: &str, width: usize) -> (r: usize)
    ensures
        r == wrapped_line_count_spec(text@, width as int),
{
    if text.is_empty() || width == 0 {
        return 1;
    }
    let chars = str_to_chars(text);
    let words = split_ws(&chars);
    let ghost ws = views(words@);
    let mut lines: usize = 1;
    let mut col: usize = 0;
    let mut i: usize = 0;
    assert(ws.skip(0) =~= ws);
    while i < words.len()
        invariant
            i <= words@.len(),
            ws == views(words@),
            count_fold((lines as int, col as int), ws.skip(i as int), width as int) == count_fold(
                (1, 0),
                ws,
                width as int,
            ),
        decreases words@.len() - i,
    {
        assert(ws.skip(i as int)[0] == words@[i as int]@);
        assert(ws.skip(i as int).drop_first() =~= ws.skip(i + 1));
        let wlen = chars_to_string(&words[i]).as_str().len();
        if col > 0 && col.saturating_add(1).saturating_add(wlen) > width {
            lines = lines.saturating_add(1);
            col = wlen;
        } else if col == 0 {
            col = wlen;
        } else {
            col = col.saturating_add(1).saturating_add(wlen);
        }
        i = i + 1;
    }
    assert(ws.skip(i as int) =~= Seq::<Seq<char>>::empty());
    lines
}

/// A control character (general category `Cc`), as `char::is_control`
/// has it.
pub open spec fn is_control(c: char) -> bool {
    c <= '\u{1f}' || ('\u{7f}' <= c && c <= '\u{9f}')
}

/// `s` without its control characters, line feeds kept.
pub open spec fn without_controls(s: Seq<char>) -> Seq<char>
    decreases s.len(),
{
    if s.len() == 0 {
        Seq::empty()
    } else if !is_control(s.last()) || s.last() == '\n' {
        without_controls(s.drop_last()).push(s.last())
    } else {
        without_controls(s.drop_last())
    }
}

/// Strip control characters (line feeds excepted) from an external
/// string before it is shown.
pub fn sanitize_control_chars(s: &str) -> (r: String)
    ensures
        r@ == without_controls(s@),
{
    let chars = str_to_chars(s);
    let mut out = String::new();
    let mut i: usize = 0;
    while i < chars.len()
        invariant
            i <= chars@.len(),
            chars@ == s@,
            out@ == without_controls(chars@.take(i as int)),
        decreases chars@.len() - i,
    {
        let c = chars[i];
        assert(chars@.take(i + 1).drop_last() =~= chars@.take(i as int));
        if !(c <= '\u{1f}' || ('\u{7f}' <= c && c <= '\u{9f}')) || c == '\n' {
            out.push(c);
        }
        i = i + 1;
    }
    assert(chars@.take(i as int) =~= chars@);
    out
}

/// The path with the home directory shown as `~`.
pub open spec fn home_shortened(path: Seq<char>, home: Seq<char>) -> Seq<char> {
    if home.len() > 0 && is_prefix(home, path) {
        seq!['~'] + path.skip(home.len() as int)
    } else {
        path
    }
}

/// The non-empty components of `s` between slashes.
pub open spec fn path_parts(s: Seq<char>) -> Seq<Seq<char>> {
    split_on(s, '/').filter(|w: Seq<char>| w.len() > 0)
}

/// The breadcrumb shown for a working directory: its last three
/// components, the home directory shown as `~`, with a leading `~` when
/// components were left out; the whole path when it has no components.
pub open spec fn breadcrumb_spec(path: Seq<char>, home: Seq<char>) -> Seq<Seq<char>> {
    let display = home_shortened(path, home);
    let parts = path_parts(display);
    if parts.len() == 0 {
        seq![display]
    } else {
        let start = if parts.len() > 3 {
            parts.len() - 3
        } else {
            0
        };
        let tail = parts.skip(start);
        if start > 0 && tail[0] != seq!['~'] {
            seq![seq!['~']] + tail
        } else {
            tail
        }
    }
}

/// The characters of each string.
pub open spec fn string_seq_view(v: Seq<String>) -> Seq<Seq<char>> {
    v.map_values(|s: String| s@)
}

/// The breadcrumb shown for the working directory `path`, given the home
/// directory `home` (empty when unknown); see [`breadcrumb_spec`].
pub fn build_breadcrumb(path: &str, home: &str) -> (r: Vec<String>)
    ensures
        string_seq_view(r@) == breadcrumb_spec(path@, home@),
{
    let chars = str_to_chars(path);
    let home_chars = str_to_chars(home);
    let display: Vec<char> = if home_chars.len() > 0 && starts_with_chars(&chars, &home_chars) {
        let mut d: Vec<char> = Vec::new();
        d.push('~');
        let mut i: usize = home_chars.len();
        while i < chars.len()
            invariant
                home_chars@.len() <= i <= chars@.len(),
                d@ == seq!['~'] + chars@.subrange(home_chars@.len() as int, i as int),
            decreases chars@.len() - i,
        {
            d.push(chars[i]);
            i = i + 1;
            assert(d@ =~= seq!['~'] + chars@.subrange(home_chars@.len() as int, i as int));
        }
        assert(chars@.subrange(home_chars@.len() as int, i as int) =~= chars@.skip(home_chars@.len() as int));
        d
    } else {
        chars
    };
    assert(display@ == home_shortened(path@, home@));
    let pieces = split_chars(&display, '/');
    let ghost all = views(pieces@);
    let mut parts: Vec<Vec<char>> = Vec::new();
    let mut k: usize = 0;
    proof {
        reveal(Seq::filter);
        assert(all.take(0) =~= Seq::<Seq<char>>::empty());
    }
    while k < pieces.len()
        invariant
            k <= pieces@.len(),
            all == views(pieces@),
            all.len() == pieces@.len(),
            views(parts@) == all.take(k as int).filter(|w: Seq<char>| w.len() > 0),
        decreases pieces@.len() - k,
    {
        proof {
            reveal(Seq::filter);
            assert(all.take(k + 1).drop_last() =~= all.take(k as int));
            assert(all.take(k + 1).last() == pieces@[k as int]@);
        }
        if pieces[k].len() > 0 {
            let ghost before = parts@;
            parts.push(pieces[k].clone());
            proof {
                assert(views(parts@) =~= views(before).push(pieces@[k as int]@));
            }
        }
        k = k + 1;
    }
    assert(all.take(k as int) =~= all);
    let ghost ps = views(parts@);
    assert(ps == path_parts(display@));
    let mut out: Vec<String> = Vec::new();
    if parts.len() == 0 {
        out.push(chars_to_string(&display));
        assert(string_seq_view(out@) =~= seq![display@]);
        return out;
    }
    let start: usize = if parts.len() > 3 {
        parts.len() - 3
    } else {
        0
    };
    let lead = start > 0 && !(parts[start].len() == 1 && parts[start][0] == '~');
    proof {
        assert((ps.skip(start as int)[0] != seq!['~']) == !(parts@[start as int]@.len() == 1
            && parts@[start as int]@[0] == '~')) by {
            if parts@[start as int]@.len() == 1 && parts@[start as int]@[0] == '~' {
                assert(parts@[start as int]@ =~= seq!['~']);
            }
        }
    }
    if lead {
        let mut tilde = String::new();
        tilde.push('~');
        assert(tilde@ =~= seq!['~']);
        out.push(tilde);
        assert(string_seq_view(out@) =~= seq![seq!['~']]);
    }
    let ghost prefix = string_seq_view(out@);
    let mut j: usize = start;
    while j < parts.len()
        invariant
            start <= j <= parts@.len(),
            ps == views(parts@),
            string_seq_view(out@) == prefix + ps.subrange(start as int, j as int),
        decreases parts@.len() - j,
    {
        let ghost before = out@;
        out.push(chars_to_string(&parts[j]));
        proof {
            assert(string_seq_view(out@) =~= string_seq_view(before).push(ps[j as int]));
            assert(ps.subrange(start as int, j + 1) =~= ps.subrange(start as int, j as int).push(ps[j as int]));
        }
        j = j + 1;
    }
    assert(ps.subrange(start as int, j as int) =~= ps.skip(start as int));
    out
}

} // verus!
