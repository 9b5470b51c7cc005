//! A model of TOML values for layered configuration.
//!
//! Tables keep their keys in ascending order with no key occurring twice,
//! the order `toml`'s default `BTreeMap`-backed tables iterate in; floats
//! are held as their IEEE-754 bit patterns.

use vstd::prelude::*;
use crate::text::{chars_eq, str_to_chars};

verus! {

/// A TOML value.
#[derive(Debug)]
pub enum TomlValue {
    String(String),
    Integer(i64),
    /// A float, as the bits of its `f64`.
    Float(u64),
    Boolean(bool),
    /// A datetime, as its TOML text.
    Datetime(String),
    Array(Vec<TomlValue>),
    /// Entries `(key, value)` in ascending key order.
    Table(Vec<(String, TomlValue)>),
}

/// What a [`TomlValue`] holds, with strings taken as characters.
pub ghost enum TomlView {
    String(Seq<char>),
    Integer(int),
    Float(u64),
    Boolean(bool),
    Datetime(Seq<char>),
    Array(Seq<TomlView>),
    Table(Seq<(Seq<char>, TomlView)>),
}

/// The view of a value.
pub open spec fn tv(v: TomlValue) -> TomlView
    decreases v,
{
    match v {
        TomlValue::String(s) => TomlView::String(s@),
        TomlValue::Integer(i) => TomlView::Integer(i as int),
        TomlValue::Float(b) => TomlView::Float(b),
        TomlValue::Boolean(b) => TomlView::Boolean(b),
        TomlValue::Datetime(s) => TomlView::Datetime(s@),
        TomlValue::Array(a) => TomlView::Array(
            Seq::new(
                a@.len(),
                |i: int|
                    {
                        if 0 <= i < a@.len() {
                            tv(a@[i])
                        } else {
                            TomlView::Boolean(false)
                        }
                    },
            ),
        ),
        TomlValue::Table(t) => TomlView::Table(
            Seq::new(
                t@.len(),
                |i: int|
                    {
                        if 0 <= i < t@.len() {
                            (t@[i].0@, tv(t@[i].1))
                        } else {
                            (Seq::empty(), TomlView::Boolean(false))
                        }
                    },
            ),
        ),
    }
}

/// The views of a sequence of values.
pub open spec fn arr_view(a: Seq<TomlValue>) -> Seq<TomlView> {
    Seq::new(a.len(), |i: int| tv(a[i]))
}

/// The views of a sequence of table entries.
pub open spec fn table_view(t: Seq<(String, TomlValue)>) -> Seq<(Seq<char>, TomlView)> {
    Seq::new(t.len(), |i: int| (t[i].0@, tv(t[i].1)))
}

pub proof fn lemma_tv_array(a: Vec<TomlValue>)
    ensures
        tv(TomlValue::Array(a)) == TomlView::Array(arr_view(a@)),
{
    if let TomlView::Array(s) = tv(TomlValue::Array(a)) {
        assert(s =~= arr_view(a@));
    }
}

pub proof fn lemma_tv_table(t: Vec<(String, TomlValue)>)
    ensures
        tv(TomlValue::Table(t)) == TomlView::Table(table_view(t@)),
{
    if let TomlView::Table(s) = tv(TomlValue::Table(t)) {
        assert(s =~= table_view(t@));
    }
}

/// `a` comes strictly before `b` in lexicographic character order (the
/// order of `String`'s `Ord`).
pub open spec fn key_lt(a: Seq<char>, b: Seq<char>) -> bool
    decreases a.len(),
{
    if a.len() == 0 {
        b.len() > 0
    } else if b.len() == 0 {
        false
    } else if a[0] != b[0] {
        a[0] < b[0]
    } else {
        key_lt(a.drop_first(), b.drop_first())
    }
}

/// The value of the first entry with key `k`.
pub open spec fn tget(t: Seq<(Seq<char>, TomlView)>, k: Seq<char>) -> Option<TomlView>
    decreases t.len(),
{
    if t.len() == 0 {
        None
    } else if t[0].0 == k {
        Some(t[0].1)
    } else {
        tget(t.drop_first(), k)
    }
}

/// `t` with the new key `k` bound to `x`, placed before the first greater
/// key.
pub open spec fn sorted_insert(t: Seq<(Seq<char>, TomlView)>, k: Seq<char>, x: TomlView) -> Seq<
    (Seq<char>, TomlView),
>
    decreases t.len(),
{
    if t.len() == 0 {
        seq![(k, x)]
    } else if key_lt(k, t[0].0) {
        seq![(k, x)] + t
    } else {
        seq![t[0]] + sorted_insert(t.drop_first(), k, x)
    }
}

/// `t` with `k` set to `x`: the first entry for `k` gets the new value in
/// place, and a new key goes before the first greater key.
pub open spec fn tinsert(t: Seq<(Seq<char>, TomlView)>, k: Seq<char>, x: TomlView) -> Seq<
    (Seq<char>, TomlView),
> {
    if tindex(t, k) < t.len() {
        t.update(tindex(t, k), (k, x))
    } else {
        sorted_insert(t, k, x)
    }
}

/// `t` without its first entry for `k`.
pub open spec fn tremove(t: Seq<(Seq<char>, TomlView)>, k: Seq<char>) -> Seq<
    (Seq<char>, TomlView),
>
    decreases t.len(),
{
    if t.len() == 0 {
        t
    } else if t[0].0 == k {
        t.drop_first()
    } else {
        seq![t[0]] + tremove(t.drop_first(), k)
    }
}

/// Index of the first entry with key `k` (`t.len()` when there is none).
pub open spec fn tindex(t: Seq<(Seq<char>, TomlView)>, k: Seq<char>) -> int
    decreases t.len(),
{
    if t.len() == 0 || t[0].0 == k {
        0
    } else {
        1 + tindex(t.drop_first(), k)
    }
}

pub proof fn lemma_tindex(t: Seq<(Seq<char>, TomlView)>, k: Seq<char>)
    ensures
        0 <= tindex(t, k) <= t.len(),
        forall|j: int| 0 <= j < tindex(t, k) ==> t[j].0 != k,
        tindex(t, k) < t.len() ==> t[tindex(t, k)].0 == k && tget(t, k) == Some(
            t[tindex(t, k)].1,
        ),
        tindex(t, k) == t.len() ==> tget(t, k) is None,
        tindex(t, k) < t.len() ==> tremove(t, k) == t.remove(tindex(t, k)),
        tindex(t, k) == t.len() ==> tremove(t, k) == t,
    decreases t.len(),
{
    if t.len() > 0 && t[0].0 != k {
        lemma_tindex(t.drop_first(), k);
        assert forall|j: int| 0 <= j < tindex(t, k) implies t[j].0 != k by {
            if j > 0 {
                assert(t[j] == t.drop_first()[j - 1]);
            }
        }
        if tindex(t, k) < t.len() {
            assert(t[tindex(t, k)] == t.drop_first()[tindex(t, k) - 1]);
            assert(seq![t[0]] + t.drop_first().remove(tindex(t, k) - 1) =~= t.remove(tindex(t, k)));
        }
    } else if t.len() > 0 {
        assert(t.drop_first() =~= t.remove(0));
    }
}

/// `a` and `b` are equal sequences of characters, compared one by one.
pub fn key_less(a: &[char], b: &[char]) -> (r: bool)
    ensures
        r == key_lt(a@, b@),
{
    let mut i: usize = 0;
    assert(a@.skip(0) =~= a@);
    assert(b@.skip(0) =~= b@);
    while i < a.len() && i < b.len()
        invariant
            i <= a@.len(),
            i <= b@.len(),
            forall|j: int| 0 <= j < i ==> a@[j] == b@[j],
            key_lt(a@, b@) == key_lt(a@.skip(i as int), b@.skip(i as int)),
        decreases a@.len() - i,
    {
        let ghost sa = a@.skip(i as int);
        let ghost sb = b@.skip(i as int);
        assert(sa[0] == a@[i as int] && sb[0] == b@[i as int]);
        assert(sa.drop_first() =~= a@.skip(i + 1));
        assert(sb.drop_first() =~= b@.skip(i + 1));
        if a[i] != b[i] {
            return a[i] < b[i];
        }
        i = i + 1;
    }
    i == a.len() && i < b.len()
}

/// Position of the first entry with key `key`.
pub fn table_find(t: &Vec<(String, TomlValue)>, key: &str) -> (r: Option<usize>)
    ensures
        match r {
            Some(i) => i < t@.len() && i == tindex(table_view(t@), key@),
            None => tindex(table_view(t@), key@) == t@.len(),
        },
{
    let k = str_to_chars(key);
    let ghost tvw = table_view(t@);
    proof {
        lemma_tindex(tvw, key@);
    }
    let mut i: usize = 0;
    while i < t.len()
        invariant
            i <= t@.len(),
            tvw == table_view(t@),
            k@ == key@,
            forall|j: int| 0 <= j < i ==> tvw[j].0 != key@,
            0 <= tindex(tvw, key@) <= tvw.len(),
            forall|j: int| 0 <= j < tindex(tvw, key@) ==> tvw[j].0 != key@,
            tindex(tvw, key@) < tvw.len() ==> tvw[tindex(tvw, key@)].0 == key@,
        decreases t@.len() - i,
    {
        if chars_eq(&str_to_chars(t[i].0.as_str()), &k) {
            assert(tvw[i as int].0 == key@);
            return Some(i);
        }
        assert(tvw[i as int].0 != key@);
        i = i + 1;
    }
    None
}

/// First position whose key is greater than `k` (`t.len()` when none).
pub open spec fn insert_pos(t: Seq<(Seq<char>, TomlView)>, k: Seq<char>) -> int
    decreases t.len(),
{
    if t.len() == 0 || key_lt(k, t[0].0) {
        0
    } else {
        1 + insert_pos(t.drop_first(), k)
    }
}

pub proof fn lemma_sorted_insert(t: Seq<(Seq<char>, TomlView)>, k: Seq<char>, x: TomlView)
    ensures
        0 <= insert_pos(t, k) <= t.len(),
        sorted_insert(t, k, x) == t.insert(insert_pos(t, k), (k, x)),
        forall|j: int| 0 <= j < insert_pos(t, k) ==> !key_lt(k, #[trigger] t[j].0),
        insert_pos(t, k) < t.len() ==> key_lt(k, t[insert_pos(t, k)].0),
    decreases t.len(),
{
    if t.len() > 0 && !key_lt(k, t[0].0) {
        lemma_sorted_insert(t.drop_first(), k, x);
        assert(seq![t[0]] + t.drop_first().insert(insert_pos(t, k) - 1, (k, x)) =~= t.insert(
            insert_pos(t, k),
            (k, x),
        ));
        assert forall|j: int| 0 <= j < insert_pos(t, k) implies !key_lt(k, #[trigger] t[j].0) by {
            if j > 0 {
                assert(t[j] == t.drop_first()[j - 1]);
            }
        }
        if insert_pos(t, k) < t.len() {
            assert(t[insert_pos(t, k)] == t.drop_first()[insert_pos(t, k) - 1]);
        }
    } else if t.len() > 0 {
        assert(seq![(k, x)] + t =~= t.insert(0, (k, x)));
    } else {
        assert(seq![(k, x)] =~= t.insert(0, (k, x)));
    }
}

/// `entries` with `key` set to `x` (see [`tinsert`]).
pub fn table_set(entries: Vec<(String, TomlValue)>, key: String, x: TomlValue) -> (r: Vec<
    (String, TomlValue),
>)
    ensures
        table_view(r@) == tinsert(table_view(entries@), key@, tv(x)),
{
    let mut entries = entries;
    let ghost t = table_view(entries@);
    proof {
        lemma_tindex(t, key@);
        lemma_sorted_insert(t, key@, tv(x));
    }
    match table_find(&entries, key.as_str()) {
        Some(i) => {
            let ghost old_e = entries@;
            let _ = entries.remove(i);
            entries.insert(i, (key, x));
            assert(entries@ =~= old_e.update(i as int, entries@[i as int]));
            assert(table_view(entries@) =~= t.update(i as int, (entries@[i as int].0@, tv(entries@[i as int].1))));
            entries
        },
        None => {
            let kc = str_to_chars(key.as_str());
            let mut p: usize = 0;
            while p < entries.len()
                invariant
                    p <= entries@.len(),
                    t == table_view(entries@),
                    kc@ == key@,
                    p <= insert_pos(t, key@),
                    0 <= insert_pos(t, key@) <= t.len(),
                    forall|j: int| 0 <= j < insert_pos(t, key@) ==> !key_lt(key@, #[trigger] t[j].0),
                    insert_pos(t, key@) < t.len() ==> key_lt(key@, t[insert_pos(t, key@)].0),
                ensures
                    p <= entries@.len(),
                    p <= insert_pos(t, key@),
                    p < entries@.len() ==> key_lt(key@, t[p as int].0),
                    forall|j: int| 0 <= j < insert_pos(t, key@) ==> !key_lt(key@, #[trigger] t[j].0),
                    t == table_view(entries@),
                decreases entries@.len() - p,
            {
                let ek = str_to_chars(entries[p].0.as_str());
                assert(t[p as int].0 == ek@);
                if key_less(&kc, &ek) {
                    break;
                }
                p = p + 1;
            }
            assert(p == insert_pos(t, key@));
            let ghost old_e = entries@;
            entries.insert(p, (key, x));
            assert(table_view(entries@) =~= t.insert(p as int, (key@, tv(x))));
            entries
        },
    }
}

/// `entries` without the first entry for `key`.
pub fn table_del(entries: Vec<(String, TomlValue)>, key: &str) -> (r: Vec<(String, TomlValue)>)
    ensures
        table_view(r@) == tremove(table_view(entries@), key@),
{
    let mut entries = entries;
    let ghost t = table_view(entries@);
    proof {
        lemma_tindex(t, key@);
    }
    match table_find(&entries, key) {
        Some(i) => {
            let _ = entries.remove(i);
            assert(table_view(entries@) =~= t.remove(i as int));
            entries
        },
        None => entries,
    }
}

/// The characters of each path segment.
pub open spec fn path_view(p: Seq<&str>) -> Seq<Seq<char>> {
    p.map_values(|s: &str| s@)
}

/// The value at `path` inside `v`, following tables.
pub open spec fn get_at(v: TomlView, path: Seq<Seq<char>>) -> Option<TomlView>
    decreases path.len(),
{
    if path.len() == 0 {
        Some(v)
    } else {
        match v {
            TomlView::Table(t) => match tget(t, path[0]) {
                Some(c) => get_at(c, path.drop_first()),
                None => None,
            },
            _ => None,
        }
    }
}

/// `v` with the value at `path` set to `x`. Nothing changes when the path
/// is empty, or when a table on the way to the last segment is missing;
/// the last segment is added when absent.
pub open spec fn set_at(v: TomlView, path: Seq<Seq<char>>, x: TomlView) -> TomlView
    decreases path.len(),
{
    if path.len() == 0 {
        v
    } else {
        match v {
            TomlView::Table(t) => if path.len() == 1 {
                TomlView::Table(tinsert(t, path[0], x))
            } else {
                match tget(t, path[0]) {
                    Some(c) => TomlView::Table(tinsert(t, path[0], set_at(c, path.drop_first(), x))),
                    None => v,
                }
            },
            _ => v,
        }
    }
}

/// `v` with the value at `path` removed. Nothing changes when the path is
/// empty or a table on the way is missing.
pub open spec fn remove_at(v: TomlView, path: Seq<Seq<char>>) -> TomlView
    decreases path.len(),
{
    if path.len() == 0 {
        v
    } else {
        match v {
            TomlView::Table(t) => if path.len() == 1 {
                TomlView::Table(tremove(t, path[0]))
            } else {
                match tget(t, path[0]) {
                    Some(c) => TomlView::Table(tinsert(t, path[0], remove_at(c, path.drop_first()))),
                    None => v,
                }
            },
            _ => v,
        }
    }
}


/// Reading a key back after setting it gives the value set.
pub proof fn lemma_tget_tinsert(t: Seq<(Seq<char>, TomlView)>, k: Seq<char>, x: TomlView)
    ensures
        tget(tinsert(t, k, x), k) == Some(x),
    decreases t.len(),
{
    lemma_tindex(t, k);
    if tindex(t, k) < t.len() {
        lemma_tget_update(t, tindex(t, k), k, x);
    } else {
        lemma_tget_sorted_insert(t, k, x);
    }
}

proof fn lemma_tget_update(t: Seq<(Seq<char>, TomlView)>, i: int, k: Seq<char>, x: TomlView)
    requires
        0 <= i < t.len(),
        forall|j: int| 0 <= j < i ==> t[j].0 != k,
    ensures
        tget(t.update(i, (k, x)), k) == Some(x),
    decreases i,
{
    let u = t.update(i, (k, x));
    if i > 0 {
        assert(u[0] == t[0]);
        assert(u.drop_first() =~= t.drop_first().update(i - 1, (k, x)));
        assert forall|j: int| 0 <= j < i - 1 implies t.drop_first()[j].0 != k by {
            assert(t.drop_first()[j] == t[j + 1]);
        }
        lemma_tget_update(t.drop_first(), i - 1, k, x);
    }
}

proof fn lemma_tget_sorted_insert(t: Seq<(Seq<char>, TomlView)>, k: Seq<char>, x: TomlView)
    requires
        tget(t, k) is None,
    ensures
        tget(sorted_insert(t, k, x), k) == Some(x),
    decreases t.len(),
{
    if t.len() > 0 && !key_lt(k, t[0].0) {
        let r = sorted_insert(t.drop_first(), k, x);
        lemma_tget_sorted_insert(t.drop_first(), k, x);
        assert((seq![t[0]] + r)[0] == t[0]);
        assert((seq![t[0]] + r).drop_first() =~= r);
    } else if t.len() > 0 {
        assert((seq![(k, x)] + t)[0] == (k, x));
    }
}

/// Setting another key leaves a key's value alone.
pub proof fn lemma_tget_tinsert_other(
    t: Seq<(Seq<char>, TomlView)>,
    k: Seq<char>,
    x: TomlView,
    q: Seq<char>,
)
    requires
        q != k,
    ensures
        tget(tinsert(t, k, x), q) == tget(t, q),
{
    lemma_tindex(t, k);
    if tindex(t, k) < t.len() {
        lemma_tget_update_other(t, tindex(t, k), (k, x), q);
    } else {
        lemma_tget_sorted_insert_other(t, k, x, q);
    }
}

proof fn lemma_tget_update_other(
    t: Seq<(Seq<char>, TomlView)>,
    i: int,
    e: (Seq<char>, TomlView),
    q: Seq<char>,
)
    requires
        0 <= i < t.len(),
        t[i].0 == e.0,
        q != e.0,
    ensures
        tget(t.update(i, e), q) == tget(t, q),
    decreases i,
{
    let u = t.update(i, e);
    if i > 0 {
        assert(u[0] == t[0]);
        assert(u.drop_first() =~= t.drop_first().update(i - 1, e));
        lemma_tget_update_other(t.drop_first(), i - 1, e, q);
    } else {
        assert(u.drop_first() =~= t.drop_first());
    }
}

proof fn lemma_tget_sorted_insert_other(
    t: Seq<(Seq<char>, TomlView)>,
    k: Seq<char>,
    x: TomlView,
    q: Seq<char>,
)
    requires
        q != k,
    ensures
        tget(sorted_insert(t, k, x), q) == tget(t, q),
    decreases t.len(),
{
    if t.len() == 0 {
        assert(seq![(k, x)].drop_first() =~= t);
    } else if !key_lt(k, t[0].0) {
        let r = sorted_insert(t.drop_first(), k, x);
        lemma_tget_sorted_insert_other(t.drop_first(), k, x, q);
        assert((seq![t[0]] + r)[0] == t[0]);
        assert((seq![t[0]] + r).drop_first() =~= r);
    } else {
        assert((seq![(k, x)] + t)[0] == (k, x));
        assert((seq![(k, x)] + t).drop_first() =~= t);
    }
}

/// Removing another key leaves a key's value alone.
pub proof fn lemma_tget_tremove_other(t: Seq<(Seq<char>, TomlView)>, k: Seq<char>, q: Seq<char>)
    requires
        q != k,
    ensures
        tget(tremove(t, k), q) == tget(t, q),
    decreases t.len(),
{
    if t.len() > 0 && t[0].0 != k {
        lemma_tget_tremove_other(t.drop_first(), k, q);
        let r = tremove(t.drop_first(), k);
        assert((seq![t[0]] + r)[0] == t[0]);
        assert((seq![t[0]] + r).drop_first() =~= r);
    }
}

/// Two paths part ways: at some position both reach, they name
/// different keys.
pub open spec fn diverge(p: Seq<Seq<char>>, q: Seq<Seq<char>>) -> bool {
    exists|i: int| 0 <= i < p.len() && i < q.len() && p[i] != q[i]
}

/// Whether the table that holds the last segment of `p` exists.
pub open spec fn parent_is_table(v: TomlView, p: Seq<Seq<char>>) -> bool {
    p.len() > 0 && get_at(v, p.drop_last()) matches Some(TomlView::Table(_))
}

/// Setting a value where its table exists makes it readable there.
pub proof fn lemma_get_set(v: TomlView, p: Seq<Seq<char>>, x: TomlView)
    requires
        parent_is_table(v, p),
    ensures
        get_at(set_at(v, p, x), p) == Some(x),
    decreases p.len(),
{
    if p.len() == 1 {
        assert(p.drop_last() =~= Seq::<Seq<char>>::empty());
        assert(get_at(v, p.drop_last()) == Some(v));
        let t = v->Table_0;
        lemma_tget_tinsert(t, p[0], x);
        assert(p.drop_first() =~= Seq::<Seq<char>>::empty());
        assert(set_at(v, p, x) == TomlView::Table(tinsert(t, p[0], x)));
        assert(get_at(x, p.drop_first()) == Some(x));
    } else {
        let pl = p.drop_last();
        assert(pl[0] == p[0]);
        assert(pl.drop_first() =~= p.drop_first().drop_last());
        assert(v is Table);
        let t = v->Table_0;
        assert(tget(t, p[0]) is Some);
        let c = tget(t, p[0])->Some_0;
        assert(get_at(v, pl) == get_at(c, pl.drop_first()));
        lemma_get_set(c, p.drop_first(), x);
        lemma_tget_tinsert(t, p[0], set_at(c, p.drop_first(), x));
        assert(set_at(v, p, x) == TomlView::Table(tinsert(t, p[0], set_at(c, p.drop_first(), x))));
    }
}

/// Setting a value leaves alone every path that parts ways with it.
pub proof fn lemma_get_set_other(v: TomlView, p: Seq<Seq<char>>, x: TomlView, q: Seq<Seq<char>>)
    requires
        diverge(p, q),
    ensures
        get_at(set_at(v, p, x), q) == get_at(v, q),
    decreases p.len(),
{
    let i = choose|i: int| 0 <= i < p.len() && i < q.len() && p[i] != q[i];
    if v is Table {
        let t = v->Table_0;
        if p[0] != q[0] {
            if p.len() == 1 {
                lemma_tget_tinsert_other(t, p[0], x, q[0]);
            } else if tget(t, p[0]) is Some {
                lemma_tget_tinsert_other(t, p[0], set_at(tget(t, p[0])->Some_0, p.drop_first(), x), q[0]);
            }
        } else {
            assert(i > 0);
            assert(p.drop_first()[i - 1] != q.drop_first()[i - 1]);
            if p.len() > 1 && tget(t, p[0]) is Some {
                let c = tget(t, p[0])->Some_0;
                lemma_get_set_other(c, p.drop_first(), x, q.drop_first());
                lemma_tget_tinsert(t, p[0], set_at(c, p.drop_first(), x));
            }
        }
    }
}

/// Removing a value leaves alone every path that parts ways with it.
pub proof fn lemma_get_remove_other(v: TomlView, p: Seq<Seq<char>>, q: Seq<Seq<char>>)
    requires
        diverge(p, q),
    ensures
        get_at(remove_at(v, p), q) == get_at(v, q),
    decreases p.len(),
{
    let i = choose|i: int| 0 <= i < p.len() && i < q.len() && p[i] != q[i];
    if v is Table {
        let t = v->Table_0;
        if p[0] != q[0] {
            if p.len() == 1 {
                lemma_tget_tremove_other(t, p[0], q[0]);
            } else if tget(t, p[0]) is Some {
                lemma_tget_tinsert_other(t, p[0], remove_at(tget(t, p[0])->Some_0, p.drop_first()), q[0]);
            }
        } else {
            assert(i > 0);
            assert(p.drop_first()[i - 1] != q.drop_first()[i - 1]);
            if p.len() > 1 && tget(t, p[0]) is Some {
                let c = tget(t, p[0])->Some_0;
                lemma_get_remove_other(c, p.drop_first(), q.drop_first());
                lemma_tget_tinsert(t, p[0], remove_at(c, p.drop_first()));
            }
        }
    }
}


/// `r` is a strict prefix of `p`.
pub open spec fn is_proper_prefix(r: Seq<Seq<char>>, p: Seq<Seq<char>>) -> bool {
    r.len() < p.len() && p.take(r.len() as int) == r
}

/// A table above the changed path stays a table when a value is set.
pub proof fn lemma_set_keeps_table(v: TomlView, p: Seq<Seq<char>>, x: TomlView, r: Seq<Seq<char>>)
    requires
        is_proper_prefix(r, p),
        get_at(v, r) matches Some(TomlView::Table(_)),
    ensures
        get_at(set_at(v, p, x), r) matches Some(TomlView::Table(_)),
    decreases r.len(),
{
    if r.len() > 0 {
        assert(p.take(r.len() as int)[0] == p[0]);
        let t = v->Table_0;
        let c = tget(t, r[0])->Some_0;
        assert(p.drop_first().take(r.len() - 1) =~= p.take(r.len() as int).drop_first());
        assert(is_proper_prefix(r.drop_first(), p.drop_first()));
        lemma_set_keeps_table(c, p.drop_first(), x, r.drop_first());
        lemma_tget_tinsert(t, p[0], set_at(c, p.drop_first(), x));
    }
}

/// A table above the removed path stays a table.
pub proof fn lemma_remove_keeps_table(v: TomlView, p: Seq<Seq<char>>, r: Seq<Seq<char>>)
    requires
        is_proper_prefix(r, p),
        get_at(v, r) matches Some(TomlView::Table(_)),
    ensures
        get_at(remove_at(v, p), r) matches Some(TomlView::Table(_)),
    decreases r.len(),
{
    if r.len() > 0 {
        assert(p.take(r.len() as int)[0] == p[0]);
        let t = v->Table_0;
        let c = tget(t, r[0])->Some_0;
        assert(p.drop_first().take(r.len() - 1) =~= p.take(r.len() as int).drop_first());
        assert(is_proper_prefix(r.drop_first(), p.drop_first()));
        lemma_remove_keeps_table(c, p.drop_first(), r.drop_first());
        lemma_tget_tinsert(t, p[0], remove_at(c, p.drop_first()));
    }
}

/// The view of an optional value.
pub open spec fn opt_tv(o: Option<&TomlValue>) -> Option<TomlView> {
    match o {
        Some(v) => Some(tv(*v)),
        None => None,
    }
}

/// The value at `path[start..]` inside `v`.
pub fn get_nested<'a>(v: &'a TomlValue, path: &[&str], start: usize) -> (r: Option<&'a TomlValue>)
    requires
        start <= path@.len(),
    ensures
        opt_tv(r) == get_at(tv(*v), path_view(path@).skip(start as int)),
    decreases path@.len() - start,
{
    let ghost pv = path_view(path@).skip(start as int);
    if start == path.len() {
        return Some(v);
    }
    assert(pv[0] == path@[start as int]@);
    assert(pv.drop_first() =~= path_view(path@).skip(start + 1));
    match v {
        TomlValue::Table(t) => {
            proof {
                lemma_tv_table(*t);
                lemma_tindex(table_view(t@), pv[0]);
            }
            match table_find(t, path[start]) {
                Some(i) => get_nested(&t[i].1, path, start + 1),
                None => None,
            }
        },
        _ => None,
    }
}

/// `v` with the value at `path[start..]` set to `x`.
pub fn set_nested(v: TomlValue, path: &[&str], start: usize, x: TomlValue) -> (r: TomlValue)
    requires
        start <= path@.len(),
    ensures
        tv(r) == set_at(tv(v), path_view(path@).skip(start as int), tv(x)),
    decreases path@.len() - start,
{
    let ghost pv = path_view(path@).skip(start as int);
    if start == path.len() {
        return v;
    }
    assert(pv[0] == path@[start as int]@);
    assert(pv.drop_first() =~= path_view(path@).skip(start + 1));
    match v {
        TomlValue::Table(t) => {
            let ghost tvw = table_view(t@);
            proof {
                lemma_tv_table(t);
                lemma_tindex(tvw, pv[0]);
            }
            if start + 1 == path.len() {
                let r = table_set(t, String::from_str(path[start]), x);
                proof {
                    lemma_tv_table(r);
                }
                TomlValue::Table(r)
            } else {
                match table_find(&t, path[start]) {
                    Some(i) => {
                        let mut t = t;
                        let (k, child) = t.remove(i);
                        let ghost cv = tv(child);
                        assert(tvw[i as int].1 == cv);
                        let nc = set_nested(child, path, start + 1, x);
                        let ghost ncv = tv(nc);
                        t.insert(i, (k, nc));
                        assert(table_view(t@) =~= tvw.update(i as int, (pv[0], ncv)));
                        proof {
                            lemma_tv_table(t);
                        }
                        TomlValue::Table(t)
                    },
                    None => {
                        proof {
                            lemma_tv_table(t);
                        }
                        TomlValue::Table(t)
                    },
                }
            }
        },
        other => other,
    }
}

/// `v` with the value at `path[start..]` removed.
pub fn remove_nested(v: TomlValue, path: &[&str], start: usize) -> (r: TomlValue)
    requires
        start <= path@.len(),
    ensures
        tv(r) == remove_at(tv(v), path_view(path@).skip(start as int)),
    decreases path@.len() - start,
{
    let ghost pv = path_view(path@).skip(start as int);
    if start == path.len() {
        return v;
    }
    assert(pv[0] == path@[start as int]@);
    assert(pv.drop_first() =~= path_view(path@).skip(start + 1));
    match v {
        TomlValue::Table(t) => {
            let ghost tvw = table_view(t@);
            proof {
                lemma_tv_table(t);
                lemma_tindex(tvw, pv[0]);
            }
            if start + 1 == path.len() {
                let r = table_del(t, path[start]);
                proof {
                    lemma_tv_table(r);
                }
                TomlValue::Table(r)
            } else {
                match table_find(&t, path[start]) {
                    Some(i) => {
                        let mut t = t;
                        let (k, child) = t.remove(i);
                        let nc = remove_nested(child, path, start + 1);
                        let ghost ncv = tv(nc);
                        t.insert(i, (k, nc));
                        assert(table_view(t@) =~= tvw.update(i as int, (pv[0], ncv)));
                        proof {
                            lemma_tv_table(t);
                        }
                        TomlValue::Table(t)
                    },
                    None => {
                        proof {
                            lemma_tv_table(t);
                        }
                        TomlValue::Table(t)
                    },
                }
            }
        },
        other => other,
    }
}

/// A copy of `v`.
pub fn clone_value(v: &TomlValue) -> (r: TomlValue)
    ensures
        tv(r) == tv(*v),
    decreases v,
{
    match v {
        TomlValue::String(s) => TomlValue::String(s.clone()),
        TomlValue::Integer(i) => TomlValue::Integer(*i),
        TomlValue::Float(b) => TomlValue::Float(*b),
        TomlValue::Boolean(b) => TomlValue::Boolean(*b),
        TomlValue::Datetime(s) => TomlValue::Datetime(s.clone()),
        TomlValue::Array(a) => {
            let mut out: Vec<TomlValue> = Vec::new();
            let mut i: usize = 0;
            while i < a.len()
                invariant
                    i <= a@.len(),
                    *v == TomlValue::Array(*a),
                    arr_view(out@) == arr_view(a@).take(i as int),
                decreases a@.len() - i,
            {
                proof {
                    assert(decreases_to!(*v => v->Array_0));
                    assert(decreases_to!(*a => a@));
                    assert(decreases_to!(a@ => a@[i as int]));
                }
                let c = clone_value(&a[i]);
                let ghost old_out = out@;
                out.push(c);
                assert(arr_view(out@) =~= arr_view(old_out).push(tv(a@[i as int])));
                assert(arr_view(out@) =~= arr_view(a@).take(i + 1));
                i = i + 1;
            }
            proof {
                lemma_tv_array(out);
                lemma_tv_array(*a);
                assert(arr_view(a@).take(a@.len() as int) =~= arr_view(a@));
            }
            TomlValue::Array(out)
        },
        TomlValue::Table(t) => {
            let mut out: Vec<(String, TomlValue)> = Vec::new();
            let mut i: usize = 0;
            while i < t.len()
                invariant
                    i <= t@.len(),
                    *v == TomlValue::Table(*t),
                    table_view(out@) == table_view(t@).take(i as int),
                decreases t@.len() - i,
            {
                proof {
                    assert(decreases_to!(*v => v->Table_0));
                    assert(decreases_to!(*t => t@));
                    assert(decreases_to!(t@ => t@[i as int]));
                    assert(decreases_to!(t@[i as int] => t@[i as int].1));
                }
                let c = clone_value(&t[i].1);
                let k = t[i].0.clone();
                let ghost old_out = out@;
                out.push((k, c));
                assert(table_view(out@) =~= table_view(old_out).push((t@[i as int].0@, tv(t@[i as int].1))));
                assert(table_view(out@) =~= table_view(t@).take(i + 1));
                i = i + 1;
            }
            proof {
                lemma_tv_table(out);
                lemma_tv_table(*t);
                assert(table_view(t@).take(t@.len() as int) =~= table_view(t@));
            }
            TomlValue::Table(out)
        },
    }
}

/// The magnitude bits of an `f64` (all but the sign).
pub open spec fn f64_mag(b: u64) -> int {
    if b >= 0x8000_0000_0000_0000 {
        b - 0x8000_0000_0000_0000
    } else {
        b as int
    }
}

/// A NaN: every exponent bit set and a non-zero mantissa.
pub open spec fn f64_is_nan(b: u64) -> bool {
    f64_mag(b) > 0x7ff0_0000_0000_0000
}

/// The position of a non-NaN `f64` in IEEE-754 order; both zeros at 0.
pub open spec fn f64_key(b: u64) -> int {
    if b >= 0x8000_0000_0000_0000 {
        -f64_mag(b)
    } else {
        f64_mag(b)
    }
}

/// `a > b` on the `f64`s with these bits.
pub open spec fn f64_gt(a: u64, b: u64) -> bool {
    !f64_is_nan(a) && !f64_is_nan(b) && f64_key(a) > f64_key(b)
}

/// `a == b` on the `f64`s with these bits.
pub open spec fn f64_eq(a: u64, b: u64) -> bool {
    !f64_is_nan(a) && !f64_is_nan(b) && f64_key(a) == f64_key(b)
}

fn f64_mag_of(b: u64) -> (m: u64)
    ensures
        m == f64_mag(b),
{
    if b >= 0x8000_0000_0000_0000 {
        b - 0x8000_0000_0000_0000
    } else {
        b
    }
}

/// `a > b` on the `f64`s with these bits.
pub fn float_bits_gt(a: u64, b: u64) -> (r: bool)
    ensures
        r == f64_gt(a, b),
{
    let ma = f64_mag_of(a);
    let mb = f64_mag_of(b);
    if ma > 0x7ff0_0000_0000_0000 || mb > 0x7ff0_0000_0000_0000 {
        return false;
    }
    let na = a >= 0x8000_0000_0000_0000;
    let nb = b >= 0x8000_0000_0000_0000;
    if !na && !nb {
        ma > mb
    } else if na && nb {
        ma < mb
    } else if !na && nb {
        ma > 0 || mb > 0
    } else {
        false
    }
}

/// `a == b` on the `f64`s with these bits.
pub fn float_bits_eq(a: u64, b: u64) -> (r: bool)
    ensures
        r == f64_eq(a, b),
{
    let ma = f64_mag_of(a);
    let mb = f64_mag_of(b);
    if ma > 0x7ff0_0000_0000_0000 || mb > 0x7ff0_0000_0000_0000 {
        return false;
    }
    let na = a >= 0x8000_0000_0000_0000;
    let nb = b >= 0x8000_0000_0000_0000;
    if na == nb {
        ma == mb
    } else {
        ma == 0 && mb == 0
    }
}

/// Equality of TOML values as `toml::Value`'s `==` has it: floats compare
/// as `f64`s, arrays element by element, tables entry by entry in order.
pub open spec fn toml_eq(a: TomlView, b: TomlView) -> bool
    decreases a,
{
    match a {
        TomlView::String(x) => b == TomlView::String(x),
        TomlView::Integer(x) => b == TomlView::Integer(x),
        TomlView::Float(x) => b is Float && f64_eq(x, b->Float_0),
        TomlView::Boolean(x) => b == TomlView::Boolean(x),
        TomlView::Datetime(x) => b == TomlView::Datetime(x),
        TomlView::Array(x) => b is Array && x.len() == b->Array_0.len() && forall|i: int|
            0 <= i < x.len() ==> toml_eq(#[trigger] x[i], b->Array_0[i]),
        TomlView::Table(x) => b is Table && x.len() == b->Table_0.len() && forall|i: int|
            0 <= i < x.len() ==> (#[trigger] x[i]).0 == b->Table_0[i].0 && toml_eq(
                x[i].1,
                b->Table_0[i].1,
            ),
    }
}

/// Whether two values are equal as `toml::Value`'s `==` has it.
pub fn value_eq(a: &TomlValue, b: &TomlValue) -> (r: bool)
    ensures
        r == toml_eq(tv(*a), tv(*b)),
    decreases a,
{
    match (a, b) {
        (TomlValue::String(x), TomlValue::String(y)) => chars_eq(&str_to_chars(x.as_str()), &str_to_chars(y.as_str())),
        (TomlValue::Integer(x), TomlValue::Integer(y)) => *x == *y,
        (TomlValue::Float(x), TomlValue::Float(y)) => float_bits_eq(*x, *y),
        (TomlValue::Boolean(x), TomlValue::Boolean(y)) => *x == *y,
        (TomlValue::Datetime(x), TomlValue::Datetime(y)) => chars_eq(&str_to_chars(x.as_str()), &str_to_chars(y.as_str())),
        (TomlValue::Array(x), TomlValue::Array(y)) => {
            proof {
                lemma_tv_array(*x);
                lemma_tv_array(*y);
            }
            if x.len() != y.len() {
                assert(arr_view(x@).len() != arr_view(y@).len());
                return false;
            }
            let mut i: usize = 0;
            while i < x.len()
                invariant
                    i <= x@.len(),
                    x@.len() == y@.len(),
                    *a == TomlValue::Array(*x),
                    *b == TomlValue::Array(*y),
                    tv(*a) == TomlView::Array(arr_view(x@)),
                    tv(*b) == TomlView::Array(arr_view(y@)),
                    forall|j: int| 0 <= j < i ==> toml_eq(#[trigger] arr_view(x@)[j], arr_view(y@)[j]),
                decreases x@.len() - i,
            {
                proof {
                    assert(decreases_to!(*a => a->Array_0));
                    assert(decreases_to!(*x => x@));
                    assert(decreases_to!(x@ => x@[i as int]));
                }
                if !value_eq(&x[i], &y[i]) {
                    assert(!toml_eq(arr_view(x@)[i as int], arr_view(y@)[i as int]));
                    return false;
                }
                i = i + 1;
            }
            true
        },
        (TomlValue::Table(x), TomlValue::Table(y)) => {
            proof {
                lemma_tv_table(*x);
                lemma_tv_table(*y);
            }
            if x.len() != y.len() {
                assert(table_view(x@).len() != table_view(y@).len());
                return false;
            }
            let mut i: usize = 0;
            while i < x.len()
                invariant
                    i <= x@.len(),
                    x@.len() == y@.len(),
                    *a == TomlValue::Table(*x),
                    *b == TomlValue::Table(*y),
                    tv(*a) == TomlView::Table(table_view(x@)),
                    tv(*b) == TomlView::Table(table_view(y@)),
                    forall|j: int| 0 <= j < i ==> (#[trigger] table_view(x@)[j]).0 == table_view(y@)[j].0
                        && toml_eq(table_view(x@)[j].1, table_view(y@)[j].1),
                decreases x@.len() - i,
            {
                proof {
                    assert(decreases_to!(*a => a->Table_0));
                    assert(decreases_to!(*x => x@));
                    assert(decreases_to!(x@ => x@[i as int]));
                    assert(decreases_to!(x@[i as int] => x@[i as int].1));
                }
                if !chars_eq(&str_to_chars(x[i].0.as_str()), &str_to_chars(y[i].0.as_str())) {
                    assert(table_view(x@)[i as int].0 != table_view(y@)[i as int].0);
                    return false;
                }
                if !value_eq(&x[i].1, &y[i].1) {
                    assert(!toml_eq(table_view(x@)[i as int].1, table_view(y@)[i as int].1));
                    return false;
                }
                i = i + 1;
            }
            true
        },
        (TomlValue::String(_), _) => false,
        (TomlValue::Integer(_), _) => false,
        (TomlValue::Float(_), _) => false,
        (TomlValue::Boolean(_), _) => false,
        (TomlValue::Datetime(_), _) => false,
        (TomlValue::Array(x), _) => {
            proof {
                lemma_tv_array(*x);
            }
            false
        },
        (TomlValue::Table(x), _) => {
            proof {
                lemma_tv_table(*x);
            }
            false
        },
    }
}

} // verus!
