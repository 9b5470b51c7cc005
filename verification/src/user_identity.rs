//! Astrid user identities: the UUID that names a user on every platform,
//! the principal (home directory) derived from a display name, and how a
//! platform link was verified.
//!
//! A UUID is held as its 128 bits, most significant first, as
//! `uuid::Uuid::as_u128` gives them.

use vstd::prelude::*;
use crate::identity::{frontend_display, FrontendType};
use crate::principal::{is_principal_char, is_valid_principal, principal_result, PrincipalId};
use crate::text::{
    byte_len, cat, chars_to_string, char_width, is_ascii_alnum, lemma_byte_len_push, lower_char,
    split_acc, split_chars, split_on, str_to_chars, to_lower_char, views, IntoText,
};

verus! {

/// The lower-case hex digit for `d` (0 to 15).
pub open spec fn hex_digit(d: int) -> char {
    if d < 10 {
        (48 + d) as char
    } else {
        (87 + d) as char
    }
}

/// The last `n` hex digits of `x`, most significant first.
pub open spec fn hex_of(x: nat, n: nat) -> Seq<char>
    decreases n,
{
    if n == 0 {
        Seq::empty()
    } else {
        hex_of(x / 16, (n - 1) as nat).push(hex_digit((x % 16) as int))
    }
}

/// The hyphenated text of a UUID: 32 lower-case hex digits in groups of
/// 8, 4, 4, 4 and 12.
pub open spec fn uuid_text(id: u128) -> Seq<char> {
    let h = hex_of(id as nat, 32);
    h.subrange(0, 8) + seq!['-'] + h.subrange(8, 12) + seq!['-'] + h.subrange(12, 16) + seq!['-']
        + h.subrange(16, 20) + seq!['-'] + h.subrange(20, 32)
}

/// The first eight characters of a UUID's text, as shown next to names.
pub open spec fn short_id(id: u128) -> Seq<char> {
    uuid_text(id).take(8)
}

/// `uuid::Uuid::from_u128(id).to_string()`. The crate writes the UUID's
/// 16 big-endian bytes as 32 lower-case hex digits, in groups of 8, 4, 4,
/// 4 and 12 joined by hyphens.
#[verifier::external_body]
pub(crate) fn uuid_string(id: u128) -> (r: String)
    ensures
        r@ == uuid_text(id),
{
    uuid::Uuid::from_u128(id).to_string()
}

/// A version-4 UUID: version bits (76 to 79) `0100` and variant bits (62
/// and 63) `10`, as RFC 9562 fixes them.
pub open spec fn is_v4_uuid(id: u128) -> bool {
    (id >> 76u128) & 0xfu128 == 4u128 && (id >> 62u128) & 3u128 == 2u128
}

/// `uuid::Uuid::new_v4().as_u128()`: a random version-4 UUID. The crate
/// masks a random number so that the version and variant bits are those
/// of a version-4 UUID; the other 122 bits come from the system's random
/// source and nothing is stated of them.
#[verifier::external_body]
pub(crate) fn random_uuid() -> (r: u128)
    ensures
        is_v4_uuid(r),
{
    uuid::Uuid::new_v4().as_u128()
}

/// `chrono::Utc::now().timestamp_millis()`: the current time in
/// milliseconds since the Unix epoch. Nothing is stated of it: it is the
/// clock's.
#[verifier::external_body]
pub(crate) fn now_millis() -> i64 {
    chrono::Utc::now().timestamp_millis()
}

proof fn lemma_hex_of(x: nat, n: nat)
    ensures
        hex_of(x, n).len() == n,
        forall|i: int| 0 <= i < n ==> is_ascii_alnum(#[trigger] hex_of(x, n)[i]),
    decreases n,
{
    if n > 0 {
        lemma_hex_of(x / 16, (n - 1) as nat);
        let d = (x % 16) as int;
        let c = hex_digit(d);
        if d < 10 {
            assert(c == (48 + d) as char);
            assert('0' <= c && c <= '9');
        } else {
            assert(c == (87 + d) as char);
            assert('a' <= c && c <= 'z');
        }
        assert forall|i: int| 0 <= i < n implies is_ascii_alnum(#[trigger] hex_of(x, n)[i]) by {
            if i < n - 1 {
                assert(hex_of(x, n)[i] == hex_of(x / 16, (n - 1) as nat)[i]);
            }
        }
    }
}

proof fn lemma_short_id(id: u128)
    ensures
        short_id(id).len() == 8,
        forall|i: int| 0 <= i < 8 ==> is_ascii_alnum(#[trigger] short_id(id)[i]),
{
    lemma_hex_of(id as nat, 32);
    let h = hex_of(id as nat, 32);
    assert(short_id(id) =~= h.subrange(0, 8));
}

/// The first eight characters of the UUID's text.
pub(crate) fn short_uuid(id: u128) -> (r: String)
    ensures
        r@ == short_id(id),
{
    let s = uuid_string(id);
    let cs = str_to_chars(s.as_str());
    proof {
        lemma_hex_of(id as nat, 32);
    }
    let mut out: Vec<char> = Vec::new();
    let mut i: usize = 0;
    while i < 8
        invariant
            i <= 8,
            cs@ == uuid_text(id),
            cs@.len() == 36,
            out@ == cs@.take(i as int),
        decreases 8 - i,
    {
        out.push(cs[i]);
        assert(cs@.take(i + 1) =~= cs@.take(i as int).push(cs@[i as int]));
        i = i + 1;
    }
    chars_to_string(&out)
}

/// ASCII characters take one byte each.
proof fn lemma_principal_chars_bytes(s: Seq<char>)
    requires
        forall|i: int| 0 <= i < s.len() ==> is_principal_char(#[trigger] s[i]),
    ensures
        byte_len(s) == s.len(),
    decreases s.len(),
{
    if s.len() == 0 {
        assert(vstd::utf8::encode_utf8(s) =~= Seq::<u8>::empty());
    } else {
        let p = s.drop_last();
        assert forall|i: int| 0 <= i < p.len() implies is_principal_char(#[trigger] p[i]) by {
            assert(p[i] == s[i]);
        }
        lemma_principal_chars_bytes(p);
        assert(s =~= p.push(s.last()));
        lemma_byte_len_push(p, s.last());
        assert(is_principal_char(s[s.len() - 1]));
        assert(char_width(s.last()) == 1) by {
            assert((s.last() as u32) <= 0x7f);
        }
    }
}

/// A display-name character as it appears in a derived principal: ASCII
/// lower-cased, and a hyphen unless it is a letter, digit, `-` or `_`.
pub open spec fn name_char(c: char) -> char {
    let l = lower_char(c);
    if is_ascii_alnum(l) || l == '-' || l == '_' {
        l
    } else {
        '-'
    }
}

/// Every character of a display name, as it appears in a derived principal.
pub open spec fn sanitized_name(s: Seq<char>) -> Seq<char> {
    s.map_values(|c: char| name_char(c))
}

/// The pieces that are not empty.
pub open spec fn nonempty_pieces(ws: Seq<Seq<char>>) -> Seq<Seq<char>> {
    ws.filter(|w: Seq<char>| w.len() > 0)
}

/// The pieces joined by single hyphens.
pub open spec fn join_hyphen(ws: Seq<Seq<char>>) -> Seq<char>
    decreases ws.len(),
{
    if ws.len() == 0 {
        Seq::empty()
    } else if ws.len() == 1 {
        ws[0]
    } else {
        join_hyphen(ws.drop_last()) + seq!['-'] + ws.last()
    }
}

/// `s` without its trailing hyphens.
pub open spec fn drop_trailing_hyphens(s: Seq<char>) -> Seq<char>
    decreases s.len(),
{
    if s.len() > 0 && s.last() == '-' {
        drop_trailing_hyphens(s.drop_last())
    } else {
        s
    }
}

/// The principal text a display name gives: sanitized, runs of hyphens
/// collapsed and leading and trailing ones dropped, then cut to 64
/// characters without a trailing hyphen.
pub open spec fn derived_name(name: Seq<char>) -> Seq<char> {
    let r = join_hyphen(nonempty_pieces(split_on(sanitized_name(name), '-')));
    if r.len() > 64 {
        drop_trailing_hyphens(r.take(64))
    } else {
        r
    }
}

/// The principal a display name derives, or `user-` and the first eight
/// characters of the UUID when nothing of the name is left.
pub open spec fn derived_principal(name: Seq<char>, id: u128) -> Seq<char> {
    if derived_name(name).len() == 0 {
        "user-"@ + short_id(id)
    } else {
        derived_name(name)
    }
}

fn name_char_of(c: char) -> (r: char)
    ensures
        r == name_char(c),
        is_principal_char(r),
{
    let l = to_lower_char(c);
    if ('a' <= l && l <= 'z') || ('A' <= l && l <= 'Z') || ('0' <= l && l <= '9') || l == '-' || l == '_' {
        l
    } else {
        '-'
    }
}

proof fn lemma_split_principal(s: Seq<char>, sep: char, cur: Seq<char>)
    requires
        forall|i: int| 0 <= i < s.len() ==> is_principal_char(#[trigger] s[i]),
        forall|i: int| 0 <= i < cur.len() ==> is_principal_char(#[trigger] cur[i]),
    ensures
        forall|k: int, i: int|
            0 <= k < split_acc(s, sep, cur).len() && 0 <= i < split_acc(s, sep, cur)[k].len()
                ==> is_principal_char(#[trigger] split_acc(s, sep, cur)[k][i]),
    decreases s.len(),
{
    let r = split_acc(s, sep, cur);
    if s.len() == 0 {
        assert forall|k: int, i: int| 0 <= k < r.len() && 0 <= i < r[k].len() implies is_principal_char(
            #[trigger] r[k][i],
        ) by {
            assert(r[k] == cur);
        }
    } else {
        let t = s.drop_first();
        assert forall|i: int| 0 <= i < t.len() implies is_principal_char(#[trigger] t[i]) by {
            assert(t[i] == s[i + 1]);
        }
        if s[0] == sep {
            lemma_split_principal(t, sep, Seq::empty());
            let rest = split_acc(t, sep, Seq::empty());
            assert(r == seq![cur] + rest);
            assert forall|k: int, i: int| 0 <= k < r.len() && 0 <= i < r[k].len() implies is_principal_char(
                #[trigger] r[k][i],
            ) by {
                if k == 0 {
                    assert(r[k] == cur);
                } else {
                    assert(r[k] == rest[k - 1]);
                }
            }
        } else {
            let c2 = cur.push(s[0]);
            assert forall|i: int| 0 <= i < c2.len() implies is_principal_char(#[trigger] c2[i]) by {
                if i < cur.len() {
                    assert(c2[i] == cur[i]);
                }
            }
            lemma_split_principal(t, sep, c2);
            let rest = split_acc(t, sep, c2);
            assert(r == rest);
            assert forall|k: int, i: int| 0 <= k < r.len() && 0 <= i < r[k].len() implies is_principal_char(
                #[trigger] r[k][i],
            ) by {
                assert(r[k] == rest[k]);
            }
        }
    }
}

proof fn lemma_filter_principal(ws: Seq<Seq<char>>)
    requires
        forall|a: int, b: int| 0 <= a < ws.len() && 0 <= b < ws[a].len() ==> is_principal_char(#[trigger] ws[a][b]),
    ensures
        forall|a: int, b: int|
            0 <= a < nonempty_pieces(ws).len() && 0 <= b < nonempty_pieces(ws)[a].len() ==> is_principal_char(
                #[trigger] nonempty_pieces(ws)[a][b],
            ),
    decreases ws.len(),
{
    reveal(Seq::filter);
    if ws.len() > 0 {
        let d = ws.drop_last();
        assert forall|a: int, b: int| 0 <= a < d.len() && 0 <= b < d[a].len() implies is_principal_char(#[trigger] d[a][b]) by {
            assert(d[a] == ws[a]);
        }
        lemma_filter_principal(d);
        let r = nonempty_pieces(d);
        let m = nonempty_pieces(ws);
        assert forall|a: int, b: int| 0 <= a < m.len() && 0 <= b < m[a].len() implies is_principal_char(#[trigger] m[a][b]) by {
            if a < r.len() {
                assert(m[a] == r[a]);
            } else {
                assert(m[a] == ws.last());
                assert(ws.last() == ws[ws.len() - 1]);
            }
        }
    }
}

proof fn lemma_join_principal(ws: Seq<Seq<char>>)
    requires
        forall|a: int, b: int| 0 <= a < ws.len() && 0 <= b < ws[a].len() ==> is_principal_char(#[trigger] ws[a][b]),
    ensures
        forall|i: int| 0 <= i < join_hyphen(ws).len() ==> is_principal_char(#[trigger] join_hyphen(ws)[i]),
    decreases ws.len(),
{
    if ws.len() == 1 {
        assert forall|i: int| 0 <= i < join_hyphen(ws).len() implies is_principal_char(#[trigger] join_hyphen(ws)[i]) by {
            assert(join_hyphen(ws)[i] == ws[0][i]);
        }
    } else if ws.len() > 1 {
        let d = ws.drop_last();
        assert forall|a: int, b: int| 0 <= a < d.len() && 0 <= b < d[a].len() implies is_principal_char(#[trigger] d[a][b]) by {
            assert(d[a] == ws[a]);
        }
        lemma_join_principal(d);
        let j = join_hyphen(ws);
        let jd = join_hyphen(d);
        let l = ws.last();
        assert(j == jd + seq!['-'] + l);
        assert forall|i: int| 0 <= i < j.len() implies is_principal_char(#[trigger] j[i]) by {
            if i < jd.len() {
                assert(j[i] == jd[i]);
            } else if i == jd.len() {
                assert(j[i] == '-');
            } else {
                assert(j[i] == l[i - jd.len() - 1]);
                assert(l == ws[ws.len() - 1]);
            }
        }
    }
}

proof fn lemma_drop_trailing_principal(s: Seq<char>)
    requires
        forall|i: int| 0 <= i < s.len() ==> is_principal_char(#[trigger] s[i]),
    ensures
        drop_trailing_hyphens(s).len() <= s.len(),
        forall|i: int| 0 <= i < drop_trailing_hyphens(s).len() ==> is_principal_char(#[trigger] drop_trailing_hyphens(s)[i]),
    decreases s.len(),
{
    if s.len() > 0 && s.last() == '-' {
        let d = s.drop_last();
        assert forall|i: int| 0 <= i < d.len() implies is_principal_char(#[trigger] d[i]) by {
            assert(d[i] == s[i]);
        }
        lemma_drop_trailing_principal(d);
    }
}

/// A display name always derives a valid principal id (1 to 64 bytes of
/// `[a-zA-Z0-9_-]`), the UUID fallback included.
pub proof fn law_derived_principal_is_valid(name: Seq<char>, id: u128)
    ensures
        is_valid_principal(derived_principal(name, id)),
{
    let san = sanitized_name(name);
    assert forall|i: int| 0 <= i < san.len() implies is_principal_char(#[trigger] san[i]) by {
        assert(san[i] == name_char(name[i]));
    }
    lemma_split_principal(san, '-', Seq::empty());
    let ws = split_on(san, '-');
    lemma_filter_principal(ws);
    let ne = nonempty_pieces(ws);
    lemma_join_principal(ne);
    let r = join_hyphen(ne);
    let dn = derived_name(name);
    if r.len() > 64 {
        let t = r.take(64);
        assert forall|i: int| 0 <= i < t.len() implies is_principal_char(#[trigger] t[i]) by {
            assert(t[i] == r[i]);
        }
        lemma_drop_trailing_principal(t);
    }
    assert(forall|i: int| 0 <= i < dn.len() ==> is_principal_char(#[trigger] dn[i]));
    assert(dn.len() <= 64);
    if dn.len() == 0 {
        let f = "user-"@ + short_id(id);
        reveal_strlit("user-");
        lemma_short_id(id);
        assert forall|j: int| 0 <= j < f.len() implies is_principal_char(#[trigger] f[j]) by {
            if j >= 5 {
                assert(f[j] == short_id(id)[j - 5]);
            }
        }
        lemma_principal_chars_bytes(f);
    } else {
        lemma_principal_chars_bytes(dn);
    }
}

/// The principal `derive_principal_from_name` gives for a display name.
fn derive_principal_from_name(name: &str, id: u128) -> (r: PrincipalId)
    ensures
        r@ == derived_principal(name@, id),
{
    let chars = str_to_chars(name);
    let mut san: Vec<char> = Vec::new();
    let mut i: usize = 0;
    while i < chars.len()
        invariant
            i <= chars@.len(),
            san@ == sanitized_name(chars@.take(i as int)),
            forall|j: int| 0 <= j < san@.len() ==> is_principal_char(#[trigger] san@[j]),
        decreases chars@.len() - i,
    {
        let c = name_char_of(chars[i]);
        san.push(c);
        assert(sanitized_name(chars@.take(i + 1)) =~= sanitized_name(chars@.take(i as int)).push(
            name_char(chars@[i as int]),
        ));
        i = i + 1;
    }
    assert(chars@.take(i as int) =~= chars@);
    let words = split_chars(&san, '-');
    proof {
        lemma_split_principal(san@, '-', Seq::empty());
    }
    let ghost ws = views(words@);
    let mut res: Vec<char> = Vec::new();
    let mut any = false;
    let mut k: usize = 0;
    assert(ws.take(0) =~= Seq::<Seq<char>>::empty());
    proof {
        reveal(Seq::filter);
        assert(nonempty_pieces(ws.take(0)) =~= Seq::<Seq<char>>::empty());
    }
    while k < words.len()
        invariant
            k <= words@.len(),
            ws == views(words@),
            ws == split_on(san@, '-'),
            forall|a: int, b: int|
                0 <= a < ws.len() && 0 <= b < ws[a].len() ==> is_principal_char(#[trigger] ws[a][b]),
            res@ == join_hyphen(nonempty_pieces(ws.take(k as int))),
            any == (nonempty_pieces(ws.take(k as int)).len() > 0),
            forall|j: int| 0 <= j < res@.len() ==> is_principal_char(#[trigger] res@[j]),
        decreases words@.len() - k,
    {
        let w = &words[k];
        let ghost before = nonempty_pieces(ws.take(k as int));
        proof {
            reveal(Seq::filter);
            assert(ws.take(k + 1).drop_last() =~= ws.take(k as int));
            assert(ws[k as int] == w@);
        }
        if w.len() > 0 {
            let ghost old_res = res@;
            if any {
                res.push('-');
            }
            let mut m: usize = 0;
            while m < w.len()
                invariant
                    m <= w@.len(),
                    w@ == ws[k as int],
                    res@ == (if any { old_res + seq!['-'] } else { old_res }) + w@.take(m as int),
                    forall|j: int| 0 <= j < old_res.len() ==> is_principal_char(#[trigger] old_res[j]),
                    forall|b: int| 0 <= b < w@.len() ==> is_principal_char(#[trigger] w@[b]),
                    forall|j: int| 0 <= j < res@.len() ==> is_principal_char(#[trigger] res@[j]),
                decreases w@.len() - m,
            {
                res.push(w[m]);
                assert(w@.take(m + 1) =~= w@.take(m as int).push(w@[m as int]));
                m = m + 1;
            }
            proof {
                assert(w@.take(m as int) =~= w@);
                let after = before.push(w@);
                assert(nonempty_pieces(ws.take(k + 1)) == after);
                if before.len() == 0 {
                    assert(after.len() == 1);
                    assert(res@ =~= w@);
                } else {
                    assert(after.drop_last() =~= before);
                    assert(res@ =~= join_hyphen(before) + seq!['-'] + w@);
                }
            }
            any = true;
        } else {
            proof {
                assert(nonempty_pieces(ws.take(k + 1)) == before);
            }
        }
        k = k + 1;
    }
    proof {
        assert(ws.take(k as int) =~= ws);
    }
    let ghost r0 = res@;
    if res.len() > 64 {
        res.truncate(64);
        let ghost cut = res@;
        assert(cut =~= r0.take(64));
        while res.len() > 0 && res[res.len() - 1] == '-'
            invariant
                cut.len() == 64,
                drop_trailing_hyphens(res@) == drop_trailing_hyphens(cut),
                res@.len() <= 64,
                forall|j: int| 0 <= j < res@.len() ==> is_principal_char(#[trigger] res@[j]),
            decreases res@.len(),
        {
            let ghost before = res@;
            res.pop();
            assert(res@ =~= before.drop_last());
        }
        assert(drop_trailing_hyphens(res@) == res@);
    }
    let ghost dn = derived_name(name@);
    assert(res@ == dn);
    if res.len() == 0 {
        let short = short_uuid(id);
        let fallback = cat("user-", short.as_str());
        proof {
            reveal_strlit("user-");
            lemma_short_id(id);
            let f = fallback@;
            assert forall|j: int| 0 <= j < f.len() implies is_principal_char(#[trigger] f[j]) by {
                if j >= 5 {
                    assert(f[j] == short_id(id)[j - 5]);
                }
            }
            lemma_principal_chars_bytes(f);
        }
        match PrincipalId::new(fallback) {
            Ok(p) => p,
            Err(_) => PrincipalId::default_principal(),
        }
    } else {
        let text = chars_to_string(&res);
        proof {
            lemma_principal_chars_bytes(res@);
        }
        match PrincipalId::new(text) {
            Ok(p) => p,
            Err(_) => PrincipalId::default_principal(),
        }
    }
}

/// An Astrid user identity, the same on every platform.
#[derive(Debug, Clone)]
pub struct AstridUserId {
    /// The UUID's 128 bits.
    pub id: u128,
    /// The principal whose home directory this user has.
    pub principal: PrincipalId,
    /// The ed25519 public key the user signs with, if registered.
    pub public_key: Option<[u8; 32]>,
    /// The display name.
    pub display_name: Option<String>,
    /// When the identity was created, in milliseconds since the Unix epoch.
    pub created_at: i64,
}

/// How an identity is shown: `{name}({short id})` or `user:{short id}`.
pub open spec fn user_display(u: AstridUserId) -> Seq<char> {
    match u.display_name {
        Some(n) => n@ + "("@ + short_id(u.id) + ")"@,
        None => "user:"@ + short_id(u.id),
    }
}

impl AstridUserId {
    /// An identity with this UUID and creation time, the default
    /// principal, and neither key nor display name.
    pub fn from_parts(id: u128, created_at: i64) -> (r: Self)
        ensures
            r.id == id,
            r.created_at == created_at,
            r.principal@ == "default"@,
            r.public_key is None,
            r.display_name is None,
    {
        AstridUserId {
            id,
            principal: PrincipalId::default_principal(),
            public_key: None,
            display_name: None,
            created_at,
        }
    }

    /// An identity with this UUID, created now, with the default principal
    /// and neither key nor display name.
    pub fn from_uuid(id: u128) -> (r: Self)
        ensures
            r.id == id,
            r.principal@ == "default"@,
            r.public_key is None,
            r.display_name is None,
    {
        Self::from_parts(id, now_millis())
    }

    /// A new identity with a random UUID, created now, with the default
    /// principal and neither key nor display name.
    pub fn new() -> (r: Self)
        ensures
            is_v4_uuid(r.id),
            r.principal@ == "default"@,
            r.public_key is None,
            r.display_name is None,
    {
        Self::from_parts(random_uuid(), now_millis())
    }

    /// Set the principal.
    pub fn with_principal(self, principal: PrincipalId) -> (r: Self)
        ensures
            r.principal == principal,
            r.id == self.id,
            r.public_key == self.public_key,
            r.display_name == self.display_name,
            r.created_at == self.created_at,
    {
        AstridUserId { principal, ..self }
    }

    /// Set the display name, and derive the principal from it while the
    /// principal is still the default one.
    pub fn with_display_name<S: IntoText>(self, name: S) -> (r: Self)
        ensures
            r.display_name matches Some(n) && n@ == name.text_view(),
            r.principal@ == (if self.principal@ == "default"@ {
                derived_principal(name.text_view(), self.id)
            } else {
                self.principal@
            }),
            r.id == self.id,
            r.public_key == self.public_key,
            r.created_at == self.created_at,
    {
        let name = name.into_text();
        let current = str_to_chars(self.principal.as_str());
        let default_chars = str_to_chars("default");
        proof {
            reveal_strlit("default");
        }
        let principal = if crate::text::chars_eq(&current, &default_chars) {
            derive_principal_from_name(name.as_str(), self.id)
        } else {
            self.principal
        };
        AstridUserId {
            id: self.id,
            principal,
            public_key: self.public_key,
            display_name: Some(name),
            created_at: self.created_at,
        }
    }

    /// Set the ed25519 public key.
    pub fn with_public_key(self, key: [u8; 32]) -> (r: Self)
        ensures
            r.public_key == Some(key),
            r.id == self.id,
            r.principal == self.principal,
            r.display_name == self.display_name,
            r.created_at == self.created_at,
    {
        AstridUserId { public_key: Some(key), ..self }
    }

    /// A copy of the identity.
    pub fn duplicate(&self) -> (r: Self)
        ensures
            r == *self,
    {
        AstridUserId {
            id: self.id,
            principal: self.principal.duplicate(),
            public_key: self.public_key,
            display_name: match &self.display_name {
                Some(n) => Some(n.clone()),
                None => None,
            },
            created_at: self.created_at,
        }
    }

    /// Whether a signing key is registered.
    pub fn has_signing_key(&self) -> (r: bool)
        ensures
            r == self.public_key is Some,
    {
        self.public_key.is_some()
    }

    /// The identity as shown: `{name}({short id})`, or `user:{short id}`
    /// without a display name.
    pub fn to_string(&self) -> (r: String)
        ensures
            r@ == user_display(*self),
    {
        let short = short_uuid(self.id);
        proof {
            reveal_strlit("(");
            reveal_strlit(")");
            reveal_strlit("user:");
        }
        match &self.display_name {
            Some(n) => {
                let mut s = cat(n.as_str(), "(");
                s.append(short.as_str());
                s.append(")");
                s
            },
            None => cat("user:", short.as_str()),
        }
    }
}

impl Default for AstridUserId {
    fn default() -> (r: Self)
        ensures
            r.principal@ == "default"@,
            r.public_key is None,
            r.display_name is None,
    {
        AstridUserId::new()
    }
}

/// How a platform link was verified.
#[derive(Debug, Clone, PartialEq, Eq)]
pub enum LinkVerificationMethod {
    /// The first platform created the identity.
    InitialCreation,
    /// A code sent on a verified platform was entered on the new one.
    CodeVerification {
        /// The platform that verified the code.
        verified_via: FrontendType,
    },
    /// An admin linked the accounts.
    AdminLink {
        /// The admin's UUID bits.
        admin_id: u128,
    },
}

/// How a verification method is shown.
pub open spec fn link_method_display(m: LinkVerificationMethod) -> Seq<char> {
    match m {
        LinkVerificationMethod::InitialCreation => "initial_creation"@,
        LinkVerificationMethod::CodeVerification { verified_via } => "code_via:"@ + frontend_display(verified_via),
        LinkVerificationMethod::AdminLink { admin_id } => "admin:"@ + short_id(admin_id),
    }
}

impl LinkVerificationMethod {
    /// A copy of the method.
    pub fn duplicate(&self) -> (r: Self)
        ensures
            r == *self,
    {
        match self {
            LinkVerificationMethod::InitialCreation => LinkVerificationMethod::InitialCreation,
            LinkVerificationMethod::CodeVerification { verified_via } => LinkVerificationMethod::CodeVerification {
                verified_via: verified_via.duplicate(),
            },
            LinkVerificationMethod::AdminLink { admin_id } => LinkVerificationMethod::AdminLink { admin_id: *admin_id },
        }
    }

    /// `initial_creation`, `code_via:{platform}` or `admin:{short id}`.
    pub fn to_string(&self) -> (r: String)
        ensures
            r@ == link_method_display(*self),
    {
        proof {
            reveal_strlit("code_via:");
            reveal_strlit("admin:");
        }
        match self {
            LinkVerificationMethod::InitialCreation => String::from_str("initial_creation"),
            LinkVerificationMethod::CodeVerification { verified_via } => {
                let p = verified_via.to_string();
                cat("code_via:", p.as_str())
            },
            LinkVerificationMethod::AdminLink { admin_id } => {
                let short = short_uuid(*admin_id);
                cat("admin:", short.as_str())
            },
        }
    }
}

} // verus!
