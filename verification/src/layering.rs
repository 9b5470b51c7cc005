//! Layered loading of the configuration: defaults, then the system, user
//! and workspace files, each merged over what came before, with the
//! workspace layer held to the restrictions against the configuration it
//! was merged over.

use vstd::prelude::*;
use vstd::string::StringSliceAdditionalSpecFns;
use crate::merge::{
    child_path, deep_merge_tracking, enforce_restrictions, enforce_spec, join_path, merge_entries,
    merge_view, record_entries, record_leaves, rule_guarantee, rules, track_entries, track_view, ConfigLayer,
    FieldSources,
};
use crate::restriction_laws::law_enforce_restrictions;
use crate::text::{cat3, decimal, u64_to_decimal};
use crate::toml_value::{clone_value, parent_is_table, tget, tinsert, tv, TomlValue, TomlView};

verus! {

/// The largest configuration file, in bytes, that is read.
pub const MAX_CONFIG_FILE_SIZE: u64 = 1_048_576;

#[verifier::external_type_specification]
#[verifier::external_body]
pub struct ExTomlDocumentValue(toml::Value);

/// The value that `toml::from_str` parses out of `text`, as the library's
/// model of it, or `None` where `toml` refuses the text.
pub uninterp spec fn toml_document(text: Seq<char>) -> Option<TomlView>;

/// The message of the error `toml::from_str` reports for `text`, as its
/// `Display` writes it.
pub uninterp spec fn toml_error_text(text: Seq<char>) -> Seq<char>;

/// `toml::Value`'s tree taken over one for one into the library's model:
/// floats by their bits, datetimes by their TOML text, tables in the order
/// `toml`'s map gives its keys.
#[verifier::external_body]
fn toml_tree(v: &toml::Value) -> (r: TomlValue) {
    match v {
        toml::Value::String(s) => TomlValue::String(s.clone()),
        toml::Value::Integer(i) => TomlValue::Integer(*i),
        toml::Value::Float(f) => TomlValue::Float(f.to_bits()),
        toml::Value::Boolean(b) => TomlValue::Boolean(*b),
        toml::Value::Datetime(d) => TomlValue::Datetime(d.to_string()),
        toml::Value::Array(a) => TomlValue::Array(a.iter().map(toml_tree).collect()),
        toml::Value::Table(t) => TomlValue::Table(t.iter().map(|(k, x)| (k.clone(), toml_tree(x))).collect()),
    }
}

/// `toml::from_str::<toml::Value>` on `text`. The contract claims that it
/// succeeds exactly where [`toml_document`] has a value, and that the value
/// is that one; otherwise the error's message, named [`toml_error_text`].
#[verifier::external_body]
fn toml_document_of(text: &str) -> (r: Result<TomlValue, String>)
    ensures
        r is Ok <==> toml_document(text@) is Some,
        r matches Ok(v) ==> toml_document(text@) == Some(tv(v)),
        r matches Err(e) ==> e@ == toml_error_text(text@),
{
    match toml::from_str::<toml::Value>(text) {
        Ok(v) => Ok(toml_tree(&v)),
        Err(e) => Err(e.to_string()),
    }
}

/// The message for a file of `len` bytes, over the size limit.
pub open spec fn too_large_message(len: nat) -> Seq<char> {
    "config file is "@ + decimal(len) + " bytes, exceeding the 1048576 byte limit"@
}

/// Parse the text of one configuration file. A file of more than
/// [`MAX_CONFIG_FILE_SIZE`] bytes is refused before it is parsed.
pub fn parse_layer(text: &str) -> (r: Result<TomlValue, String>)
    ensures
        text.spec_bytes().len() > MAX_CONFIG_FILE_SIZE ==> (r matches Err(m) && m@ == too_large_message(
            text.spec_bytes().len(),
        )),
        text.spec_bytes().len() <= MAX_CONFIG_FILE_SIZE ==> (r is Ok <==> toml_document(text@) is Some),
        text.spec_bytes().len() <= MAX_CONFIG_FILE_SIZE ==> (r matches Ok(v) ==> toml_document(text@)
            == Some(tv(v))),
        text.spec_bytes().len() <= MAX_CONFIG_FILE_SIZE ==> (r matches Err(e) ==> e@ == toml_error_text(text@)),
{
    let len = text.as_bytes().len();
    if len as u64 > MAX_CONFIG_FILE_SIZE {
        let n = u64_to_decimal(len as u64);
        let m = cat3("config file is ", n.as_str(), " bytes, exceeding the 1048576 byte limit");
        assert(m@ =~= too_large_message(text.spec_bytes().len()));
        return Err(m);
    }
    toml_document_of(text)
}

/// Every leaf of the defaults recorded as coming from them: a table's
/// entries under `prefix.key` (`key` at the top), any other value at
/// `prefix`.
pub open spec fn default_leaves(v: TomlView, prefix: Seq<char>, src: Map<Seq<char>, ConfigLayer>) -> Map<
    Seq<char>,
    ConfigLayer,
>
    decreases v, 1int,
{
    match v {
        TomlView::Table(t) => default_entries(t, prefix, src),
        _ => src.insert(prefix, ConfigLayer::Defaults),
    }
}

pub open spec fn default_entries(
    es: Seq<(Seq<char>, TomlView)>,
    prefix: Seq<char>,
    src: Map<Seq<char>, ConfigLayer>,
) -> Map<Seq<char>, ConfigLayer>
    decreases es, 0int,
{
    if es.len() == 0 {
        src
    } else {
        default_entries(es.drop_first(), prefix, default_leaves(es[0].1, child_path(prefix, es[0].0), src))
    }
}

/// Record every leaf of the defaults tree `val` as coming from the defaults.
fn record_defaults(val: &TomlValue, prefix: &str, sources: &mut FieldSources)
    ensures
        final(sources).view() == default_leaves(tv(*val), prefix@, old(sources).view()),
    decreases val,
{
    match val {
        TomlValue::Table(t) => {
            let ghost es = crate::toml_value::table_view(t@);
            let ghost s0 = sources.view();
            proof {
                crate::toml_value::lemma_tv_table(*t);
                assert(es.skip(0) =~= es);
            }
            let mut i: usize = 0;
            while i < t.len()
                invariant
                    i <= t@.len(),
                    es == crate::toml_value::table_view(t@),
                    *val == TomlValue::Table(*t),
                    default_entries(es.skip(i as int), prefix@, sources.view()) == default_entries(
                        es,
                        prefix@,
                        s0,
                    ),
                decreases t@.len() - i,
            {
                assert(es.skip(i as int)[0] == (t@[i as int].0@, tv(t@[i as int].1)));
                assert(es.skip(i as int).drop_first() =~= es.skip(i + 1));
                proof {
                    assert(decreases_to!(*val => val->Table_0));
                    assert(decreases_to!(*t => t@));
                    assert(decreases_to!(t@ => t@[i as int]));
                    assert(decreases_to!(t@[i as int] => t@[i as int].1));
                }
                let path = join_path(prefix, t[i].0.as_str());
                record_defaults(&t[i].1, path.as_str(), sources);
                i = i + 1;
            }
            assert(es.skip(i as int) =~= Seq::<(Seq<char>, TomlView)>::empty());
        },
        _ => {
            sources.insert(String::from_str(prefix), ConfigLayer::Defaults);
        },
    }
}

/// One optional layer merged, with tracking, over `(m, s)`.
pub open spec fn over_layer(
    ms: (TomlView, Map<Seq<char>, ConfigLayer>),
    layer: Option<TomlView>,
    which: ConfigLayer,
) -> (TomlView, Map<Seq<char>, ConfigLayer>) {
    match layer {
        Some(o) => track_view(ms.0, o, Seq::empty(), which, ms.1),
        None => ms,
    }
}

/// The defaults, with the system and then the user layer merged over them:
/// what the workspace layer is merged over and restricted against.
pub open spec fn pre_workspace_spec(
    defaults: TomlView,
    system: Option<TomlView>,
    user: Option<TomlView>,
) -> (TomlView, Map<Seq<char>, ConfigLayer>) {
    let base = (defaults, default_leaves(defaults, Seq::empty(), Map::empty()));
    over_layer(over_layer(base, system, ConfigLayer::System), user, ConfigLayer::User)
}

/// The layered configuration and the layer that set each field: defaults,
/// system, user, then the workspace layer merged over that snapshot and held
/// to the restrictions against it.
pub open spec fn layered_spec(
    defaults: TomlView,
    system: Option<TomlView>,
    user: Option<TomlView>,
    workspace: Option<TomlView>,
) -> (TomlView, Map<Seq<char>, ConfigLayer>) {
    let pre = pre_workspace_spec(defaults, system, user);
    match workspace {
        Some(w) => {
            let (m, s) = track_view(pre.0, w, Seq::empty(), ConfigLayer::Workspace, pre.1);
            (enforce_spec(m, pre.0, w), s)
        },
        None => pre,
    }
}

/// The view of an optional layer.
pub open spec fn opt_layer(l: Option<&TomlValue>) -> Option<TomlView> {
    match l {
        Some(v) => Some(tv(*v)),
        None => None,
    }
}

/// Layer the parsed configuration files in precedence order (defaults,
/// system, user, workspace), recording which layer set each field. The
/// workspace layer may only tighten what the layers below it set.
pub fn layered_config(
    defaults: &TomlValue,
    system: Option<&TomlValue>,
    user: Option<&TomlValue>,
    workspace: Option<&TomlValue>,
) -> (r: (TomlValue, FieldSources))
    ensures
        (tv(r.0), r.1.view()) == layered_spec(
            tv(*defaults),
            opt_layer(system),
            opt_layer(user),
            opt_layer(workspace),
        ),
{
    let mut merged = clone_value(defaults);
    let mut sources: FieldSources = FieldSources::new();
    record_defaults(&merged, "", &mut sources);
    assert(""@ =~= Seq::<char>::empty()) by {
        reveal_strlit("");
    }
    if let Some(o) = system {
        deep_merge_tracking(&mut merged, o, "", &ConfigLayer::System, &mut sources);
    }
    if let Some(o) = user {
        deep_merge_tracking(&mut merged, o, "", &ConfigLayer::User, &mut sources);
    }
    if let Some(w) = workspace {
        let baseline = clone_value(&merged);
        deep_merge_tracking(&mut merged, w, "", &ConfigLayer::Workspace, &mut sources);
        enforce_restrictions(&mut merged, &baseline, w);
    }
    (merged, sources)
}

/// `s1` is `s0` with some entries added or set to `layer`, and nothing
/// else changed or removed.
pub open spec fn only_sets(
    s0: Map<Seq<char>, ConfigLayer>,
    s1: Map<Seq<char>, ConfigLayer>,
    layer: ConfigLayer,
) -> bool {
    &&& forall|k: Seq<char>| #[trigger] s0.dom().contains(k) ==> s1.dom().contains(k)
    &&& forall|k: Seq<char>| #[trigger]
        s1.dom().contains(k) ==> s1[k] == layer || (s0.dom().contains(k) && s1[k] == s0[k])
}

proof fn lemma_only_sets_trans(
    a: Map<Seq<char>, ConfigLayer>,
    b: Map<Seq<char>, ConfigLayer>,
    c: Map<Seq<char>, ConfigLayer>,
    layer: ConfigLayer,
)
    requires
        only_sets(a, b, layer),
        only_sets(b, c, layer),
    ensures
        only_sets(a, c, layer),
{
    assert forall|k: Seq<char>| #[trigger] c.dom().contains(k) implies c[k] == layer || (a.dom().contains(
        k,
    ) && c[k] == a[k]) by {
        if c[k] != layer {
            assert(b.dom().contains(k));
        }
    }
}

proof fn lemma_record_leaves_only_sets(
    v: TomlView,
    prefix: Seq<char>,
    layer: ConfigLayer,
    src: Map<Seq<char>, ConfigLayer>,
)
    ensures
        only_sets(src, record_leaves(v, prefix, layer, src), layer),
    decreases v, 1int,
{
    match v {
        TomlView::Table(t) => lemma_record_entries_only_sets(t, prefix, layer, src),
        _ => {},
    }
}

proof fn lemma_record_entries_only_sets(
    es: Seq<(Seq<char>, TomlView)>,
    prefix: Seq<char>,
    layer: ConfigLayer,
    src: Map<Seq<char>, ConfigLayer>,
)
    ensures
        only_sets(src, record_entries(es, prefix, layer, src), layer),
    decreases es, 0int,
{
    if es.len() > 0 {
        let s1 = record_leaves(es[0].1, prefix + seq!['.'] + es[0].0, layer, src);
        assert(decreases_to!(es => es[0]));
        lemma_record_leaves_only_sets(es[0].1, prefix + seq!['.'] + es[0].0, layer, src);
        lemma_record_entries_only_sets(es.drop_first(), prefix, layer, s1);
        lemma_only_sets_trans(src, s1, record_entries(es.drop_first(), prefix, layer, s1), layer);
    }
}

proof fn lemma_track_view(
    b: TomlView,
    o: TomlView,
    prefix: Seq<char>,
    layer: ConfigLayer,
    src: Map<Seq<char>, ConfigLayer>,
)
    ensures
        track_view(b, o, prefix, layer, src).0 == merge_view(b, o),
        only_sets(src, track_view(b, o, prefix, layer, src).1, layer),
    decreases o, 1int,
{
    match o {
        TomlView::Table(ot) => match b {
            TomlView::Table(bt) => lemma_track_entries(bt, ot, prefix, layer, src),
            _ => {},
        },
        _ => {},
    }
}

proof fn lemma_track_entries(
    bt: Seq<(Seq<char>, TomlView)>,
    es: Seq<(Seq<char>, TomlView)>,
    prefix: Seq<char>,
    layer: ConfigLayer,
    src: Map<Seq<char>, ConfigLayer>,
)
    ensures
        track_entries(bt, es, prefix, layer, src).0 == merge_entries(bt, es),
        only_sets(src, track_entries(bt, es, prefix, layer, src).1, layer),
    decreases es, 0int,
{
    if es.len() > 0 {
        let k = es[0].0;
        let ov = es[0].1;
        let path = child_path(prefix, k);
        assert(decreases_to!(es => es[0]));
        let s2 = match tget(bt, k) {
            Some(bv) => if ov is Table {
                lemma_track_view(bv, ov, path, layer, src);
                track_view(bv, ov, path, layer, src).1
            } else {
                src.insert(path, layer)
            },
            None => {
                lemma_record_leaves_only_sets(ov, path, layer, src);
                record_leaves(ov, path, layer, src)
            },
        };
        let bt2 = match tget(bt, k) {
            Some(bv) => tinsert(bt, k, merge_view(bv, ov)),
            None => tinsert(bt, k, ov),
        };
        lemma_track_entries(bt2, es.drop_first(), prefix, layer, s2);
        lemma_only_sets_trans(src, s2, track_entries(bt2, es.drop_first(), prefix, layer, s2).1, layer);
    }
}

/// Merging with tracking gives the same configuration as the plain deep
/// merge, and changes the record of sources only by adding or setting
/// entries to the merged layer: what lower layers set elsewhere stays.
pub proof fn law_tracking_merge_is_deep_merge(
    base: TomlView,
    overlay: TomlView,
    prefix: Seq<char>,
    layer: ConfigLayer,
    sources: Map<Seq<char>, ConfigLayer>,
)
    ensures
        track_view(base, overlay, prefix, layer, sources).0 == merge_view(base, overlay),
        only_sets(sources, track_view(base, overlay, prefix, layer, sources).1, layer),
{
    lemma_track_view(base, overlay, prefix, layer, sources);
}

/// The workspace layer is merged over the configuration the lower layers
/// give (the snapshot taken before it) and then restricted against that
/// snapshot; without a workspace layer that snapshot is the result.
pub proof fn law_workspace_restricted_against_snapshot(
    defaults: TomlView,
    system: Option<TomlView>,
    user: Option<TomlView>,
    workspace: TomlView,
)
    ensures
        layered_spec(defaults, system, user, Some(workspace)).0 == enforce_spec(
            merge_view(pre_workspace_spec(defaults, system, user).0, workspace),
            pre_workspace_spec(defaults, system, user).0,
            workspace,
        ),
        layered_spec(defaults, system, user, None) == pre_workspace_spec(defaults, system, user),
{
    let pre = pre_workspace_spec(defaults, system, user);
    lemma_track_view(pre.0, workspace, Seq::empty(), ConfigLayer::Workspace, pre.1);
}

/// The lower layers are merged in order: the user layer over the system
/// layer over the defaults, each as the plain deep merge.
pub proof fn law_layers_merge_in_order(defaults: TomlView, system: TomlView, user: TomlView)
    ensures
        pre_workspace_spec(defaults, Some(system), Some(user)).0 == merge_view(
            merge_view(defaults, system),
            user,
        ),
        pre_workspace_spec(defaults, None, None).0 == defaults,
{
    let s0 = default_leaves(defaults, Seq::empty(), Map::empty());
    lemma_track_view(defaults, system, Seq::empty(), ConfigLayer::System, s0);
    let s1 = track_view(defaults, system, Seq::empty(), ConfigLayer::System, s0);
    lemma_track_view(s1.0, user, Seq::empty(), ConfigLayer::User, s1.1);
}

/// Every restriction holds of the layered configuration against the
/// configuration the lower layers give: a workspace layer cannot raise a
/// budget or limit above it, turn off a required approval, drop a blocked
/// entry, widen an allow list, change the model endpoint or loosen the
/// mode. As for the restrictions themselves, the table holding the field
/// has to exist once the workspace layer is merged.
pub proof fn law_layered_config_only_tightens(
    defaults: TomlView,
    system: Option<TomlView>,
    user: Option<TomlView>,
    workspace: TomlView,
    k: int,
)
    requires
        0 <= k < rules().len(),
        parent_is_table(merge_view(pre_workspace_spec(defaults, system, user).0, workspace), rules()[k].1),
    ensures
        rule_guarantee(
            rules()[k].0,
            rules()[k].1,
            layered_spec(defaults, system, user, Some(workspace)).0,
            pre_workspace_spec(defaults, system, user).0,
            workspace,
        ),
{
    let snapshot = pre_workspace_spec(defaults, system, user).0;
    law_workspace_restricted_against_snapshot(defaults, system, user, workspace);
    law_enforce_restrictions(merge_view(snapshot, workspace), snapshot, workspace, k);
}

/// `s` with every path of `paths` set to `layer`, and nothing else changed.
pub open spec fn stamp(
    s: Map<Seq<char>, ConfigLayer>,
    paths: Set<Seq<char>>,
    layer: ConfigLayer,
) -> Map<Seq<char>, ConfigLayer> {
    Map::new(
        |q: Seq<char>| s.dom().contains(q) || paths.contains(q),
        |q: Seq<char>|
            if paths.contains(q) {
                layer
            } else {
                s[q]
            },
    )
}

/// The paths of the leaves of `v` under `prefix`, each key joined to the
/// path above it with a `.`: how a subtree new to the base is recorded.
pub open spec fn dotted_leaves(v: TomlView, prefix: Seq<char>) -> Set<Seq<char>>
    decreases v, 1int,
{
    match v {
        TomlView::Table(t) => dotted_entries(t, prefix),
        _ => set![prefix],
    }
}

pub open spec fn dotted_entries(es: Seq<(Seq<char>, TomlView)>, prefix: Seq<char>) -> Set<Seq<char>>
    decreases es, 0int,
{
    if es.len() == 0 {
        Set::empty()
    } else {
        dotted_leaves(es[0].1, prefix + seq!['.'] + es[0].0).union(dotted_entries(es.drop_first(), prefix))
    }
}

/// The paths that merging `o` into `b` under `prefix` records as set by
/// the overlay: where both hold tables, each key's path is `prefix.key`
/// (`key` at the top) and a table meeting a table is recorded field by
/// field; a subtree the base lacks is recorded leaf by leaf; any other
/// value of the overlay is recorded at its own path.
pub open spec fn recorded_paths(b: TomlView, o: TomlView, prefix: Seq<char>) -> Set<Seq<char>>
    decreases o, 1int,
{
    match o {
        TomlView::Table(ot) => match b {
            TomlView::Table(bt) => recorded_entries(bt, ot, prefix),
            _ => set![prefix],
        },
        _ => set![prefix],
    }
}

pub open spec fn recorded_entries(
    bt: Seq<(Seq<char>, TomlView)>,
    es: Seq<(Seq<char>, TomlView)>,
    prefix: Seq<char>,
) -> Set<Seq<char>>
    decreases es, 0int,
{
    if es.len() == 0 {
        Set::empty()
    } else {
        let k = es[0].0;
        let ov = es[0].1;
        let path = child_path(prefix, k);
        (match tget(bt, k) {
            Some(bv) => if ov is Table {
                recorded_paths(bv, ov, path)
            } else {
                set![path]
            },
            None => dotted_leaves(ov, path),
        }).union(recorded_entries(bt, es.drop_first(), prefix))
    }
}

/// No key occurs twice in the table entries `t`.
pub open spec fn distinct_keys(t: Seq<(Seq<char>, TomlView)>) -> bool {
    forall|i: int, j: int| 0 <= i < j < t.len() ==> #[trigger] t[i].0 != #[trigger] t[j].0
}

/// No table of `v` has a key twice, as no TOML document's table can.
pub open spec fn keys_distinct_deep(v: TomlView) -> bool
    decreases v, 1int,
{
    match v {
        TomlView::Table(t) => distinct_keys(t) && entries_keys_distinct(t),
        _ => true,
    }
}

pub open spec fn entries_keys_distinct(es: Seq<(Seq<char>, TomlView)>) -> bool
    decreases es, 0int,
{
    es.len() == 0 || (keys_distinct_deep(es[0].1) && entries_keys_distinct(es.drop_first()))
}

proof fn lemma_stamp_twice(s: Map<Seq<char>, ConfigLayer>, a: Set<Seq<char>>, b: Set<Seq<char>>, layer: ConfigLayer)
    ensures
        stamp(stamp(s, a, layer), b, layer) == stamp(s, a.union(b), layer),
{
    assert(stamp(stamp(s, a, layer), b, layer) =~= stamp(s, a.union(b), layer));
}

proof fn lemma_stamp_one(s: Map<Seq<char>, ConfigLayer>, p: Seq<char>, layer: ConfigLayer)
    ensures
        s.insert(p, layer) == stamp(s, set![p], layer),
{
    assert(s.insert(p, layer) =~= stamp(s, set![p], layer));
}

proof fn lemma_stamp_none(s: Map<Seq<char>, ConfigLayer>, layer: ConfigLayer)
    ensures
        s == stamp(s, Set::empty(), layer),
{
    assert(s =~= stamp(s, Set::empty(), layer));
}

proof fn lemma_record_leaves_stamp(v: TomlView, prefix: Seq<char>, layer: ConfigLayer, src: Map<Seq<char>, ConfigLayer>)
    ensures
        record_leaves(v, prefix, layer, src) == stamp(src, dotted_leaves(v, prefix), layer),
    decreases v, 1int,
{
    match v {
        TomlView::Table(t) => lemma_record_entries_stamp(t, prefix, layer, src),
        _ => lemma_stamp_one(src, prefix, layer),
    }
}

proof fn lemma_record_entries_stamp(
    es: Seq<(Seq<char>, TomlView)>,
    prefix: Seq<char>,
    layer: ConfigLayer,
    src: Map<Seq<char>, ConfigLayer>,
)
    ensures
        record_entries(es, prefix, layer, src) == stamp(src, dotted_entries(es, prefix), layer),
    decreases es, 0int,
{
    if es.len() == 0 {
        lemma_stamp_none(src, layer);
    } else {
        let path = prefix + seq!['.'] + es[0].0;
        assert(decreases_to!(es => es[0]));
        lemma_record_leaves_stamp(es[0].1, path, layer, src);
        let s1 = record_leaves(es[0].1, path, layer, src);
        lemma_record_entries_stamp(es.drop_first(), prefix, layer, s1);
        lemma_stamp_twice(src, dotted_leaves(es[0].1, path), dotted_entries(es.drop_first(), prefix), layer);
    }
}

proof fn lemma_recorded_insert_other(
    bt: Seq<(Seq<char>, TomlView)>,
    es: Seq<(Seq<char>, TomlView)>,
    prefix: Seq<char>,
    k: Seq<char>,
    x: TomlView,
)
    requires
        forall|i: int| 0 <= i < es.len() ==> #[trigger] es[i].0 != k,
    ensures
        recorded_entries(tinsert(bt, k, x), es, prefix) == recorded_entries(bt, es, prefix),
    decreases es.len(),
{
    if es.len() > 0 {
        crate::toml_value::lemma_tget_tinsert_other(bt, k, x, es[0].0);
        assert forall|i: int| 0 <= i < es.drop_first().len() implies #[trigger] es.drop_first()[i].0 != k by {
            assert(es.drop_first()[i] == es[i + 1]);
        }
        lemma_recorded_insert_other(bt, es.drop_first(), prefix, k, x);
    }
}

proof fn lemma_track_view_recorded(
    b: TomlView,
    o: TomlView,
    prefix: Seq<char>,
    layer: ConfigLayer,
    src: Map<Seq<char>, ConfigLayer>,
)
    requires
        keys_distinct_deep(o),
    ensures
        track_view(b, o, prefix, layer, src).1 == stamp(src, recorded_paths(b, o, prefix), layer),
    decreases o, 1int,
{
    match o {
        TomlView::Table(ot) => match b {
            TomlView::Table(bt) => lemma_track_entries_recorded(bt, ot, prefix, layer, src),
            _ => lemma_stamp_one(src, prefix, layer),
        },
        _ => lemma_stamp_one(src, prefix, layer),
    }
}

proof fn lemma_track_entries_recorded(
    bt: Seq<(Seq<char>, TomlView)>,
    es: Seq<(Seq<char>, TomlView)>,
    prefix: Seq<char>,
    layer: ConfigLayer,
    src: Map<Seq<char>, ConfigLayer>,
)
    requires
        distinct_keys(es),
        entries_keys_distinct(es),
    ensures
        track_entries(bt, es, prefix, layer, src).1 == stamp(src, recorded_entries(bt, es, prefix), layer),
    decreases es, 0int,
{
    if es.len() == 0 {
        lemma_stamp_none(src, layer);
    } else {
        let k = es[0].0;
        let ov = es[0].1;
        let path = child_path(prefix, k);
        assert(decreases_to!(es => es[0]));
        let x = match tget(bt, k) {
            Some(bv) => if ov is Table {
                lemma_track_view_recorded(bv, ov, path, layer, src);
                track_view(bv, ov, path, layer, src).0
            } else {
                lemma_stamp_one(src, path, layer);
                ov
            },
            None => {
                lemma_record_leaves_stamp(ov, path, layer, src);
                ov
            },
        };
        let s2 = match tget(bt, k) {
            Some(bv) => if ov is Table {
                track_view(bv, ov, path, layer, src).1
            } else {
                src.insert(path, layer)
            },
            None => record_leaves(ov, path, layer, src),
        };
        let bt2 = tinsert(bt, k, x);
        let rest = es.drop_first();
        assert forall|i: int| 0 <= i < rest.len() implies #[trigger] rest[i].0 != k by {
            assert(rest[i] == es[i + 1]);
        }
        assert forall|i: int, j: int| 0 <= i < j < rest.len() implies #[trigger] rest[i].0 != #[trigger] rest[j].0 by {
            assert(rest[i] == es[i + 1]);
            assert(rest[j] == es[j + 1]);
        }
        lemma_recorded_insert_other(bt, rest, prefix, k, x);
        lemma_track_entries_recorded(bt2, rest, prefix, layer, s2);
        let a = match tget(bt, k) {
            Some(bv) => if ov is Table {
                recorded_paths(bv, ov, path)
            } else {
                set![path]
            },
            None => dotted_leaves(ov, path),
        };
        lemma_stamp_twice(src, a, recorded_entries(bt, rest, prefix), layer);
    }
}

/// Merging an overlay with tracking records its layer for exactly the
/// fields the overlay sets, each under its dotted path ([`recorded_paths`]),
/// and leaves every other entry of the record as it was; the configuration
/// is the plain deep merge. It holds for every overlay whose tables have
/// distinct keys, as every TOML document's tables do; keys may be empty.
pub proof fn law_tracking_records_overlay_leaves(
    base: TomlView,
    overlay: TomlView,
    prefix: Seq<char>,
    layer: ConfigLayer,
    sources: Map<Seq<char>, ConfigLayer>,
)
    requires
        keys_distinct_deep(overlay),
    ensures
        track_view(base, overlay, prefix, layer, sources).0 == merge_view(base, overlay),
        track_view(base, overlay, prefix, layer, sources).1 == stamp(
            sources,
            recorded_paths(base, overlay, prefix),
            layer,
        ),
{
    lemma_track_view(base, overlay, prefix, layer, sources);
    lemma_track_view_recorded(base, overlay, prefix, layer, sources);
}

} // verus!
