//! Layered configuration merging over TOML values, and the restrictions a
//! workspace layer is held to: it may only tighten security, never loosen
//! it.

use vstd::prelude::*;
use crate::string_map::StringMap;
use crate::number_order::{float_above_int, float_gt_int, int_above_float, int_gt_float};
use crate::toml_value::{
    arr_view, clone_value, diverge, f64_gt, float_bits_gt, get_at, lemma_get_remove_other,
    lemma_get_set, lemma_get_set_other, parent_is_table, is_proper_prefix, lemma_set_keeps_table,
    lemma_remove_keeps_table, get_nested, lemma_tindex, lemma_tv_array,
    lemma_tv_table, tinsert, opt_tv, path_view, remove_at, remove_nested, set_at, set_nested, table_find, table_set,
    table_view, tget, toml_eq, tv, value_eq, TomlValue, TomlView,
};

verus! {

/// The float at `p`, when there is one.
pub open spec fn float_at(v: TomlView, p: Seq<Seq<char>>) -> Option<u64> {
    match get_at(v, p) {
        Some(TomlView::Float(b)) => Some(b),
        _ => None,
    }
}

/// The integer at `p`, when there is one.
pub open spec fn int_at(v: TomlView, p: Seq<Seq<char>>) -> Option<int> {
    match get_at(v, p) {
        Some(TomlView::Integer(i)) => Some(i),
        _ => None,
    }
}

/// The boolean at `p`, when there is one.
pub open spec fn bool_at(v: TomlView, p: Seq<Seq<char>>) -> Option<bool> {
    match get_at(v, p) {
        Some(TomlView::Boolean(b)) => Some(b),
        _ => None,
    }
}

/// The string at `p`, when there is one.
pub open spec fn str_at(v: TomlView, p: Seq<Seq<char>>) -> Option<Seq<char>> {
    match get_at(v, p) {
        Some(TomlView::String(s)) => Some(s),
        _ => None,
    }
}

/// The array at `p`, when there is one.
pub open spec fn arr_at(v: TomlView, p: Seq<Seq<char>>) -> Option<Seq<TomlView>> {
    match get_at(v, p) {
        Some(TomlView::Array(a)) => Some(a),
        _ => None,
    }
}

/// The array at `p`, or an empty one.
pub open spec fn arr_or_empty(v: TomlView, p: Seq<Seq<char>>) -> Seq<TomlView> {
    match arr_at(v, p) {
        Some(a) => a,
        None => Seq::empty(),
    }
}

/// The number (integer or float) at `p`, when there is one.
pub open spec fn num_at(v: TomlView, p: Seq<Seq<char>>) -> Option<TomlView> {
    match get_at(v, p) {
        Some(TomlView::Float(x)) => Some(TomlView::Float(x)),
        Some(TomlView::Integer(i)) => Some(TomlView::Integer(i)),
        _ => None,
    }
}

/// The number `a` is greater than the number `b`, whichever of integer
/// and float each is; never when either is NaN or not a number.
pub open spec fn num_gt(a: TomlView, b: TomlView) -> bool {
    match (a, b) {
        (TomlView::Float(x), TomlView::Float(y)) => f64_gt(x, y),
        (TomlView::Integer(x), TomlView::Integer(y)) => x > y,
        (TomlView::Integer(x), TomlView::Float(y)) => int_above_float(x, y),
        (TomlView::Float(x), TomlView::Integer(y)) => float_above_int(x, y),
        _ => false,
    }
}

/// `clamp_max`: a number the workspace raised above the baseline's number
/// is set back to the baseline's, whichever of integer and float each
/// layer wrote: the result is the smaller of the two.
pub open spec fn clamp_max_spec(m: TomlView, base: TomlView, ws: TomlView, p: Seq<Seq<char>>) -> TomlView {
    match (num_at(base, p), num_at(ws, p)) {
        (Some(b), Some(w)) => if num_gt(w, b) {
            set_at(m, p, b)
        } else {
            m
        },
        _ => m,
    }
}

/// `clamp_max_int`: the same rule as [`clamp_max_spec`], applied to the
/// fields whose defaults are integers.
pub open spec fn clamp_max_int_spec(m: TomlView, base: TomlView, ws: TomlView, p: Seq<Seq<char>>) -> TomlView {
    clamp_max_spec(m, base, ws, p)
}

/// `enforce_bool_only_true`: a workspace `false` is forced to `true`.
pub open spec fn bool_only_true_spec(m: TomlView, ws: TomlView, p: Seq<Seq<char>>) -> TomlView {
    if bool_at(ws, p) == Some(false) {
        set_at(m, p, TomlView::Boolean(true))
    } else {
        m
    }
}

/// `enforce_bool_only_false`: a workspace `true` is forced to `false`.
pub open spec fn bool_only_false_spec(m: TomlView, ws: TomlView, p: Seq<Seq<char>>) -> TomlView {
    if bool_at(ws, p) == Some(true) {
        set_at(m, p, TomlView::Boolean(false))
    } else {
        m
    }
}

/// Some element of `r` equals `x`.
pub open spec fn contains_eq(r: Seq<TomlView>, x: TomlView) -> bool {
    exists|i: int| 0 <= i < r.len() && toml_eq(#[trigger] r[i], x)
}

/// `r` with each of `items` appended that it does not already hold.
pub open spec fn union_into(r: Seq<TomlView>, items: Seq<TomlView>) -> Seq<TomlView>
    decreases items.len(),
{
    if items.len() == 0 {
        r
    } else {
        let r2 = if contains_eq(r, items[0]) {
            r
        } else {
            r.push(items[0])
        };
        union_into(r2, items.drop_first())
    }
}

/// `union_string_arrays`: when both layers hold an array, the merged
/// array gets back every baseline entry the workspace dropped.
pub open spec fn union_spec(m: TomlView, base: TomlView, ws: TomlView, p: Seq<Seq<char>>) -> TomlView {
    match (arr_at(base, p), arr_at(ws, p)) {
        (Some(b), Some(_)) => set_at(m, p, TomlView::Array(union_into(arr_or_empty(m, p), b))),
        _ => m,
    }
}

/// Index of the first mode equal to `s`; -1 when none is.
pub open spec fn mode_pos(modes: Seq<Seq<char>>, s: Seq<char>) -> int
    decreases modes.len(),
{
    if modes.len() == 0 {
        -1
    } else if modes[0] == s {
        0
    } else {
        let r = mode_pos(modes.drop_first(), s);
        if r < 0 {
            -1
        } else {
            r + 1
        }
    }
}

/// `enforce_mode_tighten`: modes run from strictest to most permissive; a
/// workspace mode more permissive than the baseline's is reverted.
pub open spec fn mode_tighten_spec(
    m: TomlView,
    base: TomlView,
    ws: TomlView,
    p: Seq<Seq<char>>,
    modes: Seq<Seq<char>>,
) -> TomlView {
    match (str_at(base, p), str_at(ws, p)) {
        (Some(b), Some(w)) => if mode_pos(modes, b) >= 0 && mode_pos(modes, w) >= 0 && mode_pos(
            modes,
            w,
        ) > mode_pos(modes, b) {
            set_at(m, p, TomlView::String(b))
        } else {
            m
        },
        _ => m,
    }
}

/// `block_workspace_override`: a field the workspace sets goes back to
/// the baseline's value, or away when the baseline has none.
pub open spec fn block_override_spec(m: TomlView, base: TomlView, ws: TomlView, p: Seq<Seq<char>>) -> TomlView {
    if get_at(ws, p) is Some {
        match get_at(base, p) {
            Some(b) => set_at(m, p, b),
            None => remove_at(m, p),
        }
    } else {
        m
    }
}

/// Some item of `items` is missing from `base`.
pub open spec fn expands(items: Seq<TomlView>, base: Seq<TomlView>) -> bool {
    exists|i: int| 0 <= i < items.len() && !contains_eq(base, #[trigger] items[i])
}

/// `block_workspace_expansion`: when the workspace array holds an entry
/// the baseline's lacks, the baseline's array (empty when it has none)
/// replaces the merged one.
pub open spec fn block_expansion_spec(m: TomlView, base: TomlView, ws: TomlView, p: Seq<Seq<char>>) -> TomlView {
    match arr_at(ws, p) {
        Some(w) => if expands(w, arr_or_empty(base, p)) {
            set_at(m, p, TomlView::Array(arr_or_empty(base, p)))
        } else {
            m
        },
        None => m,
    }
}


/// The segment `budget`, character by character.
pub open spec fn seg_budget() -> Seq<char> {
    seq!['b', 'u', 'd', 'g', 'e', 't']
}

/// The segment `session_max_usd`, character by character.
pub open spec fn seg_session_max_usd() -> Seq<char> {
    seq!['s', 'e', 's', 's', 'i', 'o', 'n', '_', 'm', 'a', 'x', '_', 'u', 's', 'd']
}

/// The segment `per_action_max_usd`, character by character.
pub open spec fn seg_per_action_max_usd() -> Seq<char> {
    seq!['p', 'e', 'r', '_', 'a', 'c', 't', 'i', 'o', 'n', '_', 'm', 'a', 'x', '_', 'u', 's', 'd']
}

/// The segment `security`, character by character.
pub open spec fn seg_security() -> Seq<char> {
    seq!['s', 'e', 'c', 'u', 'r', 'i', 't', 'y']
}

/// The segment `policy`, character by character.
pub open spec fn seg_policy() -> Seq<char> {
    seq!['p', 'o', 'l', 'i', 'c', 'y']
}

/// The segment `max_argument_size`, character by character.
pub open spec fn seg_max_argument_size() -> Seq<char> {
    seq!['m', 'a', 'x', '_', 'a', 'r', 'g', 'u', 'm', 'e', 'n', 't', '_', 's', 'i', 'z', 'e']
}

/// The segment `require_approval_for_delete`, character by character.
pub open spec fn seg_require_approval_for_delete() -> Seq<char> {
    seq!['r', 'e', 'q', 'u', 'i', 'r', 'e', '_', 'a', 'p', 'p', 'r', 'o', 'v', 'a', 'l', '_', 'f', 'o', 'r', '_', 'd', 'e', 'l', 'e', 't', 'e']
}

/// The segment `require_approval_for_network`, character by character.
pub open spec fn seg_require_approval_for_network() -> Seq<char> {
    seq!['r', 'e', 'q', 'u', 'i', 'r', 'e', '_', 'a', 'p', 'p', 'r', 'o', 'v', 'a', 'l', '_', 'f', 'o', 'r', '_', 'n', 'e', 't', 'w', 'o', 'r', 'k']
}

/// The segment `blocked_tools`, character by character.
pub open spec fn seg_blocked_tools() -> Seq<char> {
    seq!['b', 'l', 'o', 'c', 'k', 'e', 'd', '_', 't', 'o', 'o', 'l', 's']
}

/// The segment `denied_paths`, character by character.
pub open spec fn seg_denied_paths() -> Seq<char> {
    seq!['d', 'e', 'n', 'i', 'e', 'd', '_', 'p', 'a', 't', 'h', 's']
}

/// The segment `denied_hosts`, character by character.
pub open spec fn seg_denied_hosts() -> Seq<char> {
    seq!['d', 'e', 'n', 'i', 'e', 'd', '_', 'h', 'o', 's', 't', 's']
}

/// The segment `workspace`, character by character.
pub open spec fn seg_workspace() -> Seq<char> {
    seq!['w', 'o', 'r', 'k', 's', 'p', 'a', 'c', 'e']
}

/// The segment `mode`, character by character.
pub open spec fn seg_mode() -> Seq<char> {
    seq!['m', 'o', 'd', 'e']
}

/// The segment `safe`, character by character.
pub open spec fn seg_safe() -> Seq<char> {
    seq!['s', 'a', 'f', 'e']
}

/// The segment `guided`, character by character.
pub open spec fn seg_guided() -> Seq<char> {
    seq!['g', 'u', 'i', 'd', 'e', 'd']
}

/// The segment `autonomous`, character by character.
pub open spec fn seg_autonomous() -> Seq<char> {
    seq!['a', 'u', 't', 'o', 'n', 'o', 'm', 'o', 'u', 's']
}

/// The segment `escape_policy`, character by character.
pub open spec fn seg_escape_policy() -> Seq<char> {
    seq!['e', 's', 'c', 'a', 'p', 'e', '_', 'p', 'o', 'l', 'i', 'c', 'y']
}

/// The segment `deny`, character by character.
pub open spec fn seg_deny() -> Seq<char> {
    seq!['d', 'e', 'n', 'y']
}

/// The segment `ask`, character by character.
pub open spec fn seg_ask() -> Seq<char> {
    seq!['a', 's', 'k']
}

/// The segment `allow`, character by character.
pub open spec fn seg_allow() -> Seq<char> {
    seq!['a', 'l', 'l', 'o', 'w']
}

/// The segment `never_allow`, character by character.
pub open spec fn seg_never_allow() -> Seq<char> {
    seq!['n', 'e', 'v', 'e', 'r', '_', 'a', 'l', 'l', 'o', 'w']
}

/// The segment `require_signatures`, character by character.
pub open spec fn seg_require_signatures() -> Seq<char> {
    seq!['r', 'e', 'q', 'u', 'i', 'r', 'e', '_', 's', 'i', 'g', 'n', 'a', 't', 'u', 'r', 'e', 's']
}

/// The segment `approval_timeout_secs`, character by character.
pub open spec fn seg_approval_timeout_secs() -> Seq<char> {
    seq!['a', 'p', 'p', 'r', 'o', 'v', 'a', 'l', '_', 't', 'i', 'm', 'e', 'o', 'u', 't', '_', 's', 'e', 'c', 's']
}

/// The segment `approval_required_tools`, character by character.
pub open spec fn seg_approval_required_tools() -> Seq<char> {
    seq!['a', 'p', 'p', 'r', 'o', 'v', 'a', 'l', '_', 'r', 'e', 'q', 'u', 'i', 'r', 'e', 'd', '_', 't', 'o', 'o', 'l', 's']
}

/// The segment `allowed_paths`, character by character.
pub open spec fn seg_allowed_paths() -> Seq<char> {
    seq!['a', 'l', 'l', 'o', 'w', 'e', 'd', '_', 'p', 'a', 't', 'h', 's']
}

/// The segment `allowed_hosts`, character by character.
pub open spec fn seg_allowed_hosts() -> Seq<char> {
    seq!['a', 'l', 'l', 'o', 'w', 'e', 'd', '_', 'h', 'o', 's', 't', 's']
}

/// The segment `auto_allow_read`, character by character.
pub open spec fn seg_auto_allow_read() -> Seq<char> {
    seq!['a', 'u', 't', 'o', '_', 'a', 'l', 'l', 'o', 'w', '_', 'r', 'e', 'a', 'd']
}

/// The segment `auto_allow_write`, character by character.
pub open spec fn seg_auto_allow_write() -> Seq<char> {
    seq!['a', 'u', 't', 'o', '_', 'a', 'l', 'l', 'o', 'w', '_', 'w', 'r', 'i', 't', 'e']
}

/// The segment `model`, character by character.
pub open spec fn seg_model() -> Seq<char> {
    seq!['m', 'o', 'd', 'e', 'l']
}

/// The segment `api_key`, character by character.
pub open spec fn seg_api_key() -> Seq<char> {
    seq!['a', 'p', 'i', '_', 'k', 'e', 'y']
}

/// The segment `api_url`, character by character.
pub open spec fn seg_api_url() -> Seq<char> {
    seq!['a', 'p', 'i', '_', 'u', 'r', 'l']
}

/// The segment `hooks`, character by character.
pub open spec fn seg_hooks() -> Seq<char> {
    seq!['h', 'o', 'o', 'k', 's']
}

/// The segment `allow_wasm_hooks`, character by character.
pub open spec fn seg_allow_wasm_hooks() -> Seq<char> {
    seq!['a', 'l', 'l', 'o', 'w', '_', 'w', 'a', 's', 'm', '_', 'h', 'o', 'o', 'k', 's']
}

/// The segment `allow_agent_hooks`, character by character.
pub open spec fn seg_allow_agent_hooks() -> Seq<char> {
    seq!['a', 'l', 'l', 'o', 'w', '_', 'a', 'g', 'e', 'n', 't', '_', 'h', 'o', 'o', 'k', 's']
}

/// The segment `rate_limits`, character by character.
pub open spec fn seg_rate_limits() -> Seq<char> {
    seq!['r', 'a', 't', 'e', '_', 'l', 'i', 'm', 'i', 't', 's']
}

/// The segment `elicitation_per_server_per_min`, character by character.
pub open spec fn seg_elicitation_per_server_per_min() -> Seq<char> {
    seq!['e', 'l', 'i', 'c', 'i', 't', 'a', 't', 'i', 'o', 'n', '_', 'p', 'e', 'r', '_', 's', 'e', 'r', 'v', 'e', 'r', '_', 'p', 'e', 'r', '_', 'm', 'i', 'n']
}

/// The segment `max_pending_requests`, character by character.
pub open spec fn seg_max_pending_requests() -> Seq<char> {
    seq!['m', 'a', 'x', '_', 'p', 'e', 'n', 'd', 'i', 'n', 'g', '_', 'r', 'e', 'q', 'u', 'e', 's', 't', 's']
}

/// The segment `warn_at_percent`, character by character.
pub open spec fn seg_warn_at_percent() -> Seq<char> {
    seq!['w', 'a', 'r', 'n', '_', 'a', 't', '_', 'p', 'e', 'r', 'c', 'e', 'n', 't']
}

/// The segment `subagents`, character by character.
pub open spec fn seg_subagents() -> Seq<char> {
    seq!['s', 'u', 'b', 'a', 'g', 'e', 'n', 't', 's']
}

/// The segment `max_concurrent`, character by character.
pub open spec fn seg_max_concurrent() -> Seq<char> {
    seq!['m', 'a', 'x', '_', 'c', 'o', 'n', 'c', 'u', 'r', 'r', 'e', 'n', 't']
}

/// The segment `max_depth`, character by character.
pub open spec fn seg_max_depth() -> Seq<char> {
    seq!['m', 'a', 'x', '_', 'd', 'e', 'p', 't', 'h']
}

/// The segment `timeout_secs`, character by character.
pub open spec fn seg_timeout_secs() -> Seq<char> {
    seq!['t', 'i', 'm', 'e', 'o', 'u', 't', '_', 's', 'e', 'c', 's']
}

/// The segment `retry`, character by character.
pub open spec fn seg_retry() -> Seq<char> {
    seq!['r', 'e', 't', 'r', 'y']
}

/// The segment `llm_max_attempts`, character by character.
pub open spec fn seg_llm_max_attempts() -> Seq<char> {
    seq!['l', 'l', 'm', '_', 'm', 'a', 'x', '_', 'a', 't', 't', 'e', 'm', 'p', 't', 's']
}

/// The segment `mcp_max_attempts`, character by character.
pub open spec fn seg_mcp_max_attempts() -> Seq<char> {
    seq!['m', 'c', 'p', '_', 'm', 'a', 'x', '_', 'a', 't', 't', 'e', 'm', 'p', 't', 's']
}

/// The segment `timeouts`, character by character.
pub open spec fn seg_timeouts() -> Seq<char> {
    seq!['t', 'i', 'm', 'e', 'o', 'u', 't', 's']
}

/// The segment `approval_secs`, character by character.
pub open spec fn seg_approval_secs() -> Seq<char> {
    seq!['a', 'p', 'p', 'r', 'o', 'v', 'a', 'l', '_', 's', 'e', 'c', 's']
}

/// The segment `idle_secs`, character by character.
pub open spec fn seg_idle_secs() -> Seq<char> {
    seq!['i', 'd', 'l', 'e', '_', 's', 'e', 'c', 's']
}

/// The segment `allow_http_hooks`, character by character.
pub open spec fn seg_allow_http_hooks() -> Seq<char> {
    seq!['a', 'l', 'l', 'o', 'w', '_', 'h', 't', 't', 'p', '_', 'h', 'o', 'o', 'k', 's']
}

/// The segment `allow_command_hooks`, character by character.
pub open spec fn seg_allow_command_hooks() -> Seq<char> {
    seq!['a', 'l', 'l', 'o', 'w', '_', 'c', 'o', 'm', 'm', 'a', 'n', 'd', '_', 'h', 'o', 'o', 'k', 's']
}

/// The segment `servers`, character by character.
pub open spec fn seg_servers() -> Seq<char> {
    seq!['s', 'e', 'r', 'v', 'e', 'r', 's']
}

/// The segment `trusted`, character by character.
pub open spec fn seg_trusted() -> Seq<char> {
    seq!['t', 'r', 'u', 's', 't', 'e', 'd']
}

/// The segment `auto_start`, character by character.
pub open spec fn seg_auto_start() -> Seq<char> {
    seq!['a', 'u', 't', 'o', '_', 's', 't', 'a', 'r', 't']
}

/// The segment `command`, character by character.
pub open spec fn seg_command() -> Seq<char> {
    seq!['c', 'o', 'm', 'm', 'a', 'n', 'd']
}

/// The segment `args`, character by character.
pub open spec fn seg_args() -> Seq<char> {
    seq!['a', 'r', 'g', 's']
}

/// The segment `env`, character by character.
pub open spec fn seg_env() -> Seq<char> {
    seq!['e', 'n', 'v']
}

/// The segment `cwd`, character by character.
pub open spec fn seg_cwd() -> Seq<char> {
    seq!['c', 'w', 'd']
}

/// The segment `binary_hash`, character by character.
pub open spec fn seg_binary_hash() -> Seq<char> {
    seq!['b', 'i', 'n', 'a', 'r', 'y', '_', 'h', 'a', 's', 'h']
}

/// The fields of a baseline server a workspace may not change.
pub open spec fn protected_fields() -> Seq<Seq<char>> {
    seq![seg_command(), seg_args(), seg_env(), seg_cwd(), seg_binary_hash(), seg_trusted()]
}

/// The path of `field` on server `name`.
pub open spec fn server_path(name: Seq<char>, field: Seq<char>) -> Seq<Seq<char>> {
    seq![seg_servers(), name, field]
}

/// The protected `fields` of baseline server `name`, whose baseline entry
/// is `bsrv`: a field the workspace sets to something else goes back to
/// the baseline's value, or away when the baseline has none.
pub open spec fn protect_fields(
    m: TomlView,
    ws: TomlView,
    name: Seq<char>,
    bsrv: TomlView,
    fields: Seq<Seq<char>>,
) -> TomlView
    decreases fields.len(),
{
    if fields.len() == 0 {
        m
    } else {
        let fp = server_path(name, fields[0]);
        let bf = match bsrv {
            TomlView::Table(t) => tget(t, fields[0]),
            _ => None,
        };
        let m2 = match get_at(ws, fp) {
            Some(wv) => match bf {
                Some(bv) => if toml_eq(wv, bv) {
                    m
                } else {
                    set_at(m, fp, bv)
                },
                None => remove_at(m, fp),
            },
            None => m,
        };
        protect_fields(m2, ws, name, bsrv, fields.drop_first())
    }
}

/// A workspace server: a baseline one keeps its protected fields; one the
/// workspace brought in is neither trusted nor started automatically.
pub open spec fn sanitize_server(
    m: TomlView,
    base_servers: Seq<(Seq<char>, TomlView)>,
    ws: TomlView,
    name: Seq<char>,
) -> TomlView {
    match tget(base_servers, name) {
        Some(bsrv) => protect_fields(m, ws, name, bsrv, protected_fields()),
        None => {
            let tp = server_path(name, seg_trusted());
            let ap = server_path(name, seg_auto_start());
            let m1 = if bool_at(m, tp) == Some(true) {
                set_at(m, tp, TomlView::Boolean(false))
            } else {
                m
            };
            if bool_at(m1, ap) == Some(true) {
                set_at(m1, ap, TomlView::Boolean(false))
            } else {
                m1
            }
        },
    }
}

pub open spec fn sanitize_fold(
    m: TomlView,
    base_servers: Seq<(Seq<char>, TomlView)>,
    ws: TomlView,
    names: Seq<(Seq<char>, TomlView)>,
) -> TomlView
    decreases names.len(),
{
    if names.len() == 0 {
        m
    } else {
        sanitize_fold(sanitize_server(m, base_servers, ws, names[0].0), base_servers, ws, names.drop_first())
    }
}

/// `sanitize_workspace_servers`: each server of the workspace's
/// `servers` table, in key order, as [`sanitize_server`] says.
pub open spec fn sanitize_spec(m: TomlView, base: TomlView, ws: TomlView) -> TomlView {
    match get_at(ws, seq![seg_servers()]) {
        Some(TomlView::Table(wss)) => sanitize_fold(
            m,
            match get_at(base, seq![seg_servers()]) {
                Some(TomlView::Table(b)) => b,
                _ => Seq::empty(),
            },
            ws,
            wss,
        ),
        _ => m,
    }
}
/// The kinds of restriction a workspace layer is held to, each applied
/// at a path.
pub ghost enum RuleKind {
    /// [`clamp_max`]
    ClampFloat,
    /// [`clamp_max_int`]
    ClampInt,
    /// [`enforce_bool_only_true`]
    OnlyTrue,
    /// [`enforce_bool_only_false`]
    OnlyFalse,
    /// [`union_string_arrays`]
    Union,
    /// [`block_workspace_expansion`]
    NoExpansion,
    /// [`block_workspace_override`]
    NoOverride,
    /// [`enforce_mode_tighten`] with these modes, strictest first
    Tighten(Seq<Seq<char>>),
}

/// One restriction applied at `p`.
pub open spec fn apply_rule(k: RuleKind, m: TomlView, b: TomlView, w: TomlView, p: Seq<Seq<char>>) -> TomlView {
    match k {
        RuleKind::ClampFloat => clamp_max_spec(m, b, w, p),
        RuleKind::ClampInt => clamp_max_int_spec(m, b, w, p),
        RuleKind::OnlyTrue => bool_only_true_spec(m, w, p),
        RuleKind::OnlyFalse => bool_only_false_spec(m, w, p),
        RuleKind::Union => union_spec(m, b, w, p),
        RuleKind::NoExpansion => block_expansion_spec(m, b, w, p),
        RuleKind::NoOverride => block_override_spec(m, b, w, p),
        RuleKind::Tighten(modes) => mode_tighten_spec(m, b, w, p, modes),
    }
}

/// The restrictions `rs` applied in order.
pub open spec fn apply_rules(m: TomlView, b: TomlView, w: TomlView, rs: Seq<(RuleKind, Seq<Seq<char>>)>) -> TomlView
    decreases rs.len(),
{
    if rs.len() == 0 {
        m
    } else {
        apply_rules(apply_rule(rs[0].0, m, b, w, rs[0].1), b, w, rs.drop_first())
    }
}

pub proof fn lemma_apply_rules_snoc(
    m: TomlView,
    b: TomlView,
    w: TomlView,
    rs: Seq<(RuleKind, Seq<Seq<char>>)>,
    r: (RuleKind, Seq<Seq<char>>),
)
    ensures
        apply_rules(m, b, w, rs.push(r)) == apply_rule(r.0, apply_rules(m, b, w, rs), b, w, r.1),
    decreases rs.len(),
{
    let q = rs.push(r);
    if rs.len() > 0 {
        let m1 = apply_rule(rs[0].0, m, b, w, rs[0].1);
        assert(q.drop_first() =~= rs.drop_first().push(r));
        assert(q[0] == rs[0]);
        assert(apply_rules(m, b, w, q) == apply_rules(m1, b, w, q.drop_first()));
        assert(apply_rules(m, b, w, rs) == apply_rules(m1, b, w, rs.drop_first()));
        lemma_apply_rules_snoc(m1, b, w, rs.drop_first(), r);
    } else {
        let m1 = apply_rule(r.0, m, b, w, r.1);
        assert(q[0] == r);
        assert(q.drop_first() =~= Seq::<(RuleKind, Seq<Seq<char>>)>::empty());
        assert(apply_rules(m, b, w, q) == apply_rules(m1, b, w, q.drop_first()));
        assert(apply_rules(m1, b, w, q.drop_first()) == m1);
        assert(apply_rules(m, b, w, rs) == m);
    }
}

pub proof fn lemma_apply_rules_concat(
    m: TomlView,
    b: TomlView,
    w: TomlView,
    rs: Seq<(RuleKind, Seq<Seq<char>>)>,
    ts: Seq<(RuleKind, Seq<Seq<char>>)>,
)
    ensures
        apply_rules(m, b, w, rs + ts) == apply_rules(apply_rules(m, b, w, rs), b, w, ts),
    decreases rs.len(),
{
    if rs.len() > 0 {
        assert((rs + ts).drop_first() =~= rs.drop_first() + ts);
        assert((rs + ts)[0] == rs[0]);
        lemma_apply_rules_concat(apply_rule(rs[0].0, m, b, w, rs[0].1), b, w, rs.drop_first(), ts);
    } else {
        assert(rs + ts =~= ts);
    }
}

/// Budgets and the tool policy: spending limits and the argument size may only fall, approval requirements may only be switched on, and the blocked and denied lists may only grow.
pub open spec fn budget_policy_rules() -> Seq<(RuleKind, Seq<Seq<char>>)> {
    seq![
        (RuleKind::ClampFloat, seq![seg_budget(), seg_session_max_usd()]),
        (RuleKind::ClampFloat, seq![seg_budget(), seg_per_action_max_usd()]),
        (RuleKind::ClampInt, seq![seg_security(), seg_policy(), seg_max_argument_size()]),
        (RuleKind::OnlyTrue, seq![seg_security(), seg_policy(), seg_require_approval_for_delete()]),
        (RuleKind::OnlyTrue, seq![seg_security(), seg_policy(), seg_require_approval_for_network()]),
        (RuleKind::Union, seq![seg_security(), seg_policy(), seg_blocked_tools()]),
        (RuleKind::Union, seq![seg_security(), seg_policy(), seg_denied_paths()]),
        (RuleKind::Union, seq![seg_security(), seg_policy(), seg_denied_hosts()]),
    ]
}

/// Workspace modes may only get stricter, allow lists may not widen, the model endpoint and key may not be set, and WASM and agent hooks may not be switched on.
pub open spec fn workspace_security_rules() -> Seq<(RuleKind, Seq<Seq<char>>)> {
    seq![
        (RuleKind::Tighten(seq![seg_safe(), seg_guided(), seg_autonomous()]), seq![seg_workspace(), seg_mode()]),
        (RuleKind::Tighten(seq![seg_deny(), seg_ask(), seg_allow()]), seq![seg_workspace(), seg_escape_policy()]),
        (RuleKind::Union, seq![seg_workspace(), seg_never_allow()]),
        (RuleKind::OnlyTrue, seq![seg_security(), seg_require_signatures()]),
        (RuleKind::ClampInt, seq![seg_security(), seg_approval_timeout_secs()]),
        (RuleKind::Union, seq![seg_security(), seg_policy(), seg_approval_required_tools()]),
        (RuleKind::NoExpansion, seq![seg_security(), seg_policy(), seg_allowed_paths()]),
        (RuleKind::NoExpansion, seq![seg_security(), seg_policy(), seg_allowed_hosts()]),
        (RuleKind::NoExpansion, seq![seg_workspace(), seg_auto_allow_read()]),
        (RuleKind::NoExpansion, seq![seg_workspace(), seg_auto_allow_write()]),
        (RuleKind::NoOverride, seq![seg_model(), seg_api_key()]),
        (RuleKind::NoOverride, seq![seg_model(), seg_api_url()]),
        (RuleKind::OnlyFalse, seq![seg_hooks(), seg_allow_wasm_hooks()]),
        (RuleKind::OnlyFalse, seq![seg_hooks(), seg_allow_agent_hooks()]),
    ]
}

/// Rate limits, the budget warning threshold, sub-agent, retry and timeout limits may only fall, and HTTP and command hooks may not be switched on.
pub open spec fn limits_rules() -> Seq<(RuleKind, Seq<Seq<char>>)> {
    seq![
        (RuleKind::ClampInt, seq![seg_rate_limits(), seg_elicitation_per_server_per_min()]),
        (RuleKind::ClampInt, seq![seg_rate_limits(), seg_max_pending_requests()]),
        (RuleKind::ClampInt, seq![seg_budget(), seg_warn_at_percent()]),
        (RuleKind::ClampInt, seq![seg_subagents(), seg_max_concurrent()]),
        (RuleKind::ClampInt, seq![seg_subagents(), seg_max_depth()]),
        (RuleKind::ClampInt, seq![seg_subagents(), seg_timeout_secs()]),
        (RuleKind::ClampInt, seq![seg_retry(), seg_llm_max_attempts()]),
        (RuleKind::ClampInt, seq![seg_retry(), seg_mcp_max_attempts()]),
        (RuleKind::ClampInt, seq![seg_timeouts(), seg_approval_secs()]),
        (RuleKind::ClampInt, seq![seg_timeouts(), seg_idle_secs()]),
        (RuleKind::OnlyFalse, seq![seg_hooks(), seg_allow_http_hooks()]),
        (RuleKind::OnlyFalse, seq![seg_hooks(), seg_allow_command_hooks()]),
    ]
}

/// Every restriction, in the order they are applied.
pub open spec fn rules() -> Seq<(RuleKind, Seq<Seq<char>>)> {
    budget_policy_rules() + workspace_security_rules() + limits_rules()
}

/// What [`enforce_restrictions`] makes of the merged value.
pub open spec fn enforce_spec(m: TomlView, b: TomlView, w: TomlView) -> TomlView {
    sanitize_spec(apply_rules(m, b, w, rules()), b, w)
}

/// Paths that part ways with `p` keep their values when `p` is set.
pub proof fn lemma_frame_set(m: TomlView, p: Seq<Seq<char>>, x: TomlView)
    ensures
        forall|q: Seq<Seq<char>>| #[trigger] diverge(p, q) ==> get_at(set_at(m, p, x), q) == get_at(m, q),
{
    assert forall|q: Seq<Seq<char>>| #[trigger] diverge(p, q) implies get_at(set_at(m, p, x), q)
        == get_at(m, q) by {
        lemma_get_set_other(m, p, x, q);
    }
}

/// Paths that part ways with `p` keep their values when `p` is removed.
pub proof fn lemma_frame_remove(m: TomlView, p: Seq<Seq<char>>)
    ensures
        forall|q: Seq<Seq<char>>| #[trigger] diverge(p, q) ==> get_at(remove_at(m, p), q) == get_at(m, q),
{
    assert forall|q: Seq<Seq<char>>| #[trigger] diverge(p, q) implies get_at(remove_at(m, p), q)
        == get_at(m, q) by {
        lemma_get_remove_other(m, p, q);
    }
}

/// A number the workspace raised above the baseline's number reads as
/// the baseline's afterwards, whichever of integer and float each layer
/// wrote, and nothing off its path changes.
pub proof fn law_clamp_max(m: TomlView, b: TomlView, w: TomlView, p: Seq<Seq<char>>)
    ensures
        num_at(b, p) is Some && num_at(w, p) is Some && num_gt(num_at(w, p)->Some_0, num_at(b, p)->Some_0)
            && parent_is_table(m, p) ==> get_at(clamp_max_spec(m, b, w, p), p) == num_at(b, p),
        forall|q: Seq<Seq<char>>| #[trigger] diverge(p, q) ==> get_at(clamp_max_spec(m, b, w, p), q)
            == get_at(m, q),
{
    if num_at(b, p) is Some {
        lemma_frame_set(m, p, num_at(b, p)->Some_0);
        if parent_is_table(m, p) {
            lemma_get_set(m, p, num_at(b, p)->Some_0);
        }
    }
}

/// The integer clamp is the same rule.
pub proof fn law_clamp_max_int(m: TomlView, b: TomlView, w: TomlView, p: Seq<Seq<char>>)
    ensures
        num_at(b, p) is Some && num_at(w, p) is Some && num_gt(num_at(w, p)->Some_0, num_at(b, p)->Some_0)
            && parent_is_table(m, p) ==> get_at(clamp_max_int_spec(m, b, w, p), p) == num_at(b, p),
        forall|q: Seq<Seq<char>>| #[trigger] diverge(p, q) ==> get_at(clamp_max_int_spec(m, b, w, p), q)
            == get_at(m, q),
{
    law_clamp_max(m, b, w, p);
}

/// A flag the workspace set to `false` reads `true` afterwards, and
/// nothing off its path changes.
pub proof fn law_bool_only_true(m: TomlView, w: TomlView, p: Seq<Seq<char>>)
    ensures
        bool_at(w, p) == Some(false) && parent_is_table(m, p) ==> bool_at(bool_only_true_spec(m, w, p), p)
            == Some(true),
        forall|q: Seq<Seq<char>>| #[trigger] diverge(p, q) ==> get_at(bool_only_true_spec(m, w, p), q)
            == get_at(m, q),
{
    lemma_frame_set(m, p, TomlView::Boolean(true));
    if parent_is_table(m, p) {
        lemma_get_set(m, p, TomlView::Boolean(true));
    }
}

/// A flag the workspace set to `true` reads `false` afterwards, and
/// nothing off its path changes.
pub proof fn law_bool_only_false(m: TomlView, w: TomlView, p: Seq<Seq<char>>)
    ensures
        bool_at(w, p) == Some(true) && parent_is_table(m, p) ==> bool_at(bool_only_false_spec(m, w, p), p)
            == Some(false),
        forall|q: Seq<Seq<char>>| #[trigger] diverge(p, q) ==> get_at(bool_only_false_spec(m, w, p), q)
            == get_at(m, q),
{
    lemma_frame_set(m, p, TomlView::Boolean(false));
    if parent_is_table(m, p) {
        lemma_get_set(m, p, TomlView::Boolean(false));
    }
}

proof fn lemma_union_into(r: Seq<TomlView>, items: Seq<TomlView>)
    ensures
        union_into(r, items).len() >= r.len(),
        forall|j: int| 0 <= j < r.len() ==> #[trigger] union_into(r, items)[j] == r[j],
        forall|i: int|
            0 <= i < items.len() && toml_eq(items[i], items[i]) ==> contains_eq(
                union_into(r, items),
                #[trigger] items[i],
            ),
    decreases items.len(),
{
    if items.len() > 0 {
        let r2 = if contains_eq(r, items[0]) {
            r
        } else {
            r.push(items[0])
        };
        lemma_union_into(r2, items.drop_first());
        let u = union_into(r, items);
        assert forall|i: int|
            0 <= i < items.len() && toml_eq(items[i], items[i]) implies contains_eq(
                u,
                #[trigger] items[i],
            ) by {
            if i == 0 {
                if contains_eq(r, items[0]) {
                    let j = choose|j: int| 0 <= j < r.len() && toml_eq(#[trigger] r[j], items[0]);
                    assert(u[j] == r[j]);
                } else {
                    assert(u[r.len() as int] == r2[r.len() as int]);
                }
            } else {
                assert(items[i] == items.drop_first()[i - 1]);
            }
        }
    }
}

/// When both layers hold the array, every baseline entry is still in it
/// afterwards (an entry counts when it equals itself, which a NaN does
/// not), and nothing off its path changes.
pub proof fn law_union(m: TomlView, b: TomlView, w: TomlView, p: Seq<Seq<char>>)
    ensures
        arr_at(b, p) is Some && arr_at(w, p) is Some && parent_is_table(m, p) ==> arr_at(
            union_spec(m, b, w, p),
            p,
        ) is Some && forall|i: int|
            0 <= i < arr_at(b, p)->Some_0.len() && toml_eq(
                arr_at(b, p)->Some_0[i],
                arr_at(b, p)->Some_0[i],
            ) ==> contains_eq(arr_at(union_spec(m, b, w, p), p)->Some_0, #[trigger] arr_at(b, p)->Some_0[i]),
        forall|q: Seq<Seq<char>>| #[trigger] diverge(p, q) ==> get_at(union_spec(m, b, w, p), q)
            == get_at(m, q),
{
    if arr_at(b, p) is Some {
        let u = union_into(arr_or_empty(m, p), arr_at(b, p)->Some_0);
        lemma_frame_set(m, p, TomlView::Array(u));
        lemma_union_into(arr_or_empty(m, p), arr_at(b, p)->Some_0);
        if parent_is_table(m, p) {
            lemma_get_set(m, p, TomlView::Array(u));
        }
    }
}

/// A mode the workspace made more permissive than the baseline's reads as
/// the baseline's afterwards, and nothing off its path changes.
pub proof fn law_mode_tighten(
    m: TomlView,
    b: TomlView,
    w: TomlView,
    p: Seq<Seq<char>>,
    modes: Seq<Seq<char>>,
)
    ensures
        str_at(b, p) is Some && str_at(w, p) is Some && mode_pos(modes, str_at(b, p)->Some_0) >= 0
            && mode_pos(modes, str_at(w, p)->Some_0) > mode_pos(modes, str_at(b, p)->Some_0)
            && parent_is_table(m, p) ==> str_at(mode_tighten_spec(m, b, w, p, modes), p) == str_at(b, p),
        forall|q: Seq<Seq<char>>| #[trigger] diverge(p, q) ==> get_at(
            mode_tighten_spec(m, b, w, p, modes),
            q,
        ) == get_at(m, q),
{
    if str_at(b, p) is Some {
        lemma_frame_set(m, p, TomlView::String(str_at(b, p)->Some_0));
        if parent_is_table(m, p) {
            lemma_get_set(m, p, TomlView::String(str_at(b, p)->Some_0));
        }
    }
}

/// A field the workspace set reads as the baseline's value afterwards when
/// the baseline has one, and nothing off its path changes.
pub proof fn law_block_override(m: TomlView, b: TomlView, w: TomlView, p: Seq<Seq<char>>)
    ensures
        get_at(w, p) is Some && get_at(b, p) is Some && parent_is_table(m, p) ==> get_at(
            block_override_spec(m, b, w, p),
            p,
        ) == get_at(b, p),
        forall|q: Seq<Seq<char>>| #[trigger] diverge(p, q) ==> get_at(block_override_spec(m, b, w, p), q)
            == get_at(m, q),
{
    lemma_frame_remove(m, p);
    if get_at(b, p) is Some {
        lemma_frame_set(m, p, get_at(b, p)->Some_0);
        if parent_is_table(m, p) {
            lemma_get_set(m, p, get_at(b, p)->Some_0);
        }
    }
}

/// When the workspace's array holds an entry the baseline's lacks, the
/// array reads as the baseline's afterwards (empty when it has none), and
/// nothing off its path changes.
pub proof fn law_block_expansion(m: TomlView, b: TomlView, w: TomlView, p: Seq<Seq<char>>)
    ensures
        arr_at(w, p) is Some && expands(arr_at(w, p)->Some_0, arr_or_empty(b, p)) && parent_is_table(m, p)
            ==> arr_at(block_expansion_spec(m, b, w, p), p) == Some(arr_or_empty(b, p)),
        forall|q: Seq<Seq<char>>| #[trigger] diverge(p, q) ==> get_at(
            block_expansion_spec(m, b, w, p),
            q,
        ) == get_at(m, q),
{
    lemma_frame_set(m, p, TomlView::Array(arr_or_empty(b, p)));
    if parent_is_table(m, p) {
        lemma_get_set(m, p, TomlView::Array(arr_or_empty(b, p)));
    }
}

/// Which configuration layer a value came from.
#[derive(Debug, Clone, Copy, PartialEq, Eq)]
pub enum ConfigLayer {
    /// Compiled-in defaults (`defaults.toml`).
    Defaults,
    /// System-wide configuration (`/etc/astrid/config.toml`).
    System,
    /// User-level configuration (`~/.astrid/config.toml`).
    User,
    /// Workspace-level configuration (`{workspace}/.astrid/config.toml`).
    Workspace,
    /// Environment variable fallback.
    Environment,
}

pub open spec fn layer_label(l: ConfigLayer) -> Seq<char> {
    match l {
        ConfigLayer::Defaults => "defaults"@,
        ConfigLayer::System => "system (/etc/astrid/config.toml)"@,
        ConfigLayer::User => "user (~/.astrid/config.toml)"@,
        ConfigLayer::Workspace => "workspace (.astrid/config.toml)"@,
        ConfigLayer::Environment => "environment variable"@,
    }
}

impl ConfigLayer {
    /// How the layer is named to users.
    pub fn to_string(&self) -> (r: String)
        ensures
            r@ == layer_label(*self),
    {
        match self {
            ConfigLayer::Defaults => String::from_str("defaults"),
            ConfigLayer::System => String::from_str("system (/etc/astrid/config.toml)"),
            ConfigLayer::User => String::from_str("user (~/.astrid/config.toml)"),
            ConfigLayer::Workspace => String::from_str("workspace (.astrid/config.toml)"),
            ConfigLayer::Environment => String::from_str("environment variable"),
        }
    }
}

/// Which layer set each field, keyed by the field's dotted path.
pub type FieldSources = StringMap<ConfigLayer>;

/// `overlay` merged into `base`: tables merge key by key, anything else
/// from the overlay replaces what the base has.
pub open spec fn merge_view(b: TomlView, o: TomlView) -> TomlView
    decreases o, 1int,
{
    match o {
        TomlView::Table(ot) => match b {
            TomlView::Table(bt) => TomlView::Table(merge_entries(bt, ot)),
            _ => o,
        },
        _ => o,
    }
}

/// The entries `es` merged, in order, into the table entries `bt`.
pub open spec fn merge_entries(bt: Seq<(Seq<char>, TomlView)>, es: Seq<(Seq<char>, TomlView)>) -> Seq<
    (Seq<char>, TomlView),
>
    decreases es, 0int,
{
    if es.len() == 0 {
        bt
    } else {
        let k = es[0].0;
        let bt2 = match tget(bt, k) {
            Some(bv) => tinsert(bt, k, merge_view(bv, es[0].1)),
            None => tinsert(bt, k, es[0].1),
        };
        merge_entries(bt2, es.drop_first())
    }
}

/// The dotted path of `key` under `prefix`.
pub open spec fn child_path(prefix: Seq<char>, key: Seq<char>) -> Seq<char> {
    if prefix.len() == 0 {
        key
    } else {
        prefix + seq!['.'] + key
    }
}

/// Every leaf under `v` recorded as set by `layer`: a table's entries
/// under `prefix.key`, any other value at `prefix`.
pub open spec fn record_leaves(
    v: TomlView,
    prefix: Seq<char>,
    layer: ConfigLayer,
    src: Map<Seq<char>, ConfigLayer>,
) -> Map<Seq<char>, ConfigLayer>
    decreases v, 1int,
{
    match v {
        TomlView::Table(t) => record_entries(t, prefix, layer, src),
        _ => src.insert(prefix, layer),
    }
}

pub open spec fn record_entries(
    es: Seq<(Seq<char>, TomlView)>,
    prefix: Seq<char>,
    layer: ConfigLayer,
    src: Map<Seq<char>, ConfigLayer>,
) -> Map<Seq<char>, ConfigLayer>
    decreases es, 0int,
{
    if es.len() == 0 {
        src
    } else {
        record_entries(
            es.drop_first(),
            prefix,
            layer,
            record_leaves(es[0].1, prefix + seq!['.'] + es[0].0, layer, src),
        )
    }
}

/// `overlay` merged into `base` as [`merge_view`] does, with the layer
/// recorded for each field the overlay set.
pub open spec fn track_view(
    b: TomlView,
    o: TomlView,
    prefix: Seq<char>,
    layer: ConfigLayer,
    src: Map<Seq<char>, ConfigLayer>,
) -> (TomlView, Map<Seq<char>, ConfigLayer>)
    decreases o, 1int,
{
    match o {
        TomlView::Table(ot) => match b {
            TomlView::Table(bt) => {
                let (t, s2) = track_entries(bt, ot, prefix, layer, src);
                (TomlView::Table(t), s2)
            },
            _ => (o, src.insert(prefix, layer)),
        },
        _ => (o, src.insert(prefix, layer)),
    }
}

pub open spec fn track_entries(
    bt: Seq<(Seq<char>, TomlView)>,
    es: Seq<(Seq<char>, TomlView)>,
    prefix: Seq<char>,
    layer: ConfigLayer,
    src: Map<Seq<char>, ConfigLayer>,
) -> (Seq<(Seq<char>, TomlView)>, Map<Seq<char>, ConfigLayer>)
    decreases es, 0int,
{
    if es.len() == 0 {
        (bt, src)
    } else {
        let k = es[0].0;
        let ov = es[0].1;
        let path = child_path(prefix, k);
        let (bt2, s2) = match tget(bt, k) {
            Some(bv) => if ov is Table {
                let (nv, s) = track_view(bv, ov, path, layer, src);
                (tinsert(bt, k, nv), s)
            } else {
                (tinsert(bt, k, ov), src.insert(path, layer))
            },
            None => (tinsert(bt, k, ov), record_leaves(ov, path, layer, src)),
        };
        track_entries(bt2, es.drop_first(), prefix, layer, s2)
    }
}

/// Whether the value at `r` is a table.
pub open spec fn table_at(v: TomlView, r: Seq<Seq<char>>) -> bool {
    get_at(v, r) matches Some(TomlView::Table(_))
}

/// What a restriction guarantees about the value at its path in `r`,
/// given the baseline `b` and the workspace layer `w`.
pub open spec fn rule_guarantee(k: RuleKind, p: Seq<Seq<char>>, r: TomlView, b: TomlView, w: TomlView) -> bool {
    match k {
        RuleKind::ClampFloat => num_at(b, p) is Some && num_at(w, p) is Some && num_gt(
            num_at(w, p)->Some_0,
            num_at(b, p)->Some_0,
        ) ==> get_at(r, p) == num_at(b, p),
        RuleKind::ClampInt => num_at(b, p) is Some && num_at(w, p) is Some && num_gt(
            num_at(w, p)->Some_0,
            num_at(b, p)->Some_0,
        ) ==> get_at(r, p) == num_at(b, p),
        RuleKind::OnlyTrue => bool_at(w, p) == Some(false) ==> bool_at(r, p) == Some(true),
        RuleKind::OnlyFalse => bool_at(w, p) == Some(true) ==> bool_at(r, p) == Some(false),
        RuleKind::Union => arr_at(b, p) is Some && arr_at(w, p) is Some ==> arr_at(r, p) is Some
            && forall|i: int|
            0 <= i < arr_at(b, p)->Some_0.len() && toml_eq(
                arr_at(b, p)->Some_0[i],
                arr_at(b, p)->Some_0[i],
            ) ==> contains_eq(arr_at(r, p)->Some_0, #[trigger] arr_at(b, p)->Some_0[i]),
        RuleKind::NoExpansion => arr_at(w, p) is Some && expands(arr_at(w, p)->Some_0, arr_or_empty(b, p))
            ==> arr_at(r, p) == Some(arr_or_empty(b, p)),
        RuleKind::NoOverride => get_at(w, p) is Some && get_at(b, p) is Some ==> get_at(r, p) == get_at(b, p),
        RuleKind::Tighten(modes) => str_at(b, p) is Some && str_at(w, p) is Some && mode_pos(
            modes,
            str_at(b, p)->Some_0,
        ) >= 0 && mode_pos(modes, str_at(w, p)->Some_0) > mode_pos(modes, str_at(b, p)->Some_0)
            ==> str_at(r, p) == str_at(b, p),
    }
}

/// One restriction: its guarantee where its table exists, nothing changed
/// off its path, and tables above its path still tables.
pub proof fn lemma_rule_step(k: RuleKind, m: TomlView, b: TomlView, w: TomlView, p: Seq<Seq<char>>)
    ensures
        parent_is_table(m, p) ==> rule_guarantee(k, p, apply_rule(k, m, b, w, p), b, w),
        forall|q: Seq<Seq<char>>| #[trigger] diverge(p, q) ==> get_at(apply_rule(k, m, b, w, p), q)
            == get_at(m, q),
        forall|r: Seq<Seq<char>>|
            #[trigger] is_proper_prefix(r, p) && table_at(m, r) ==> table_at(apply_rule(k, m, b, w, p), r),
{
    match k {
        RuleKind::ClampFloat => {
            law_clamp_max(m, b, w, p);
        },
        RuleKind::ClampInt => {
            law_clamp_max_int(m, b, w, p);
        },
        RuleKind::OnlyTrue => {
            law_bool_only_true(m, w, p);
        },
        RuleKind::OnlyFalse => {
            law_bool_only_false(m, w, p);
        },
        RuleKind::Union => {
            law_union(m, b, w, p);
        },
        RuleKind::NoExpansion => {
            law_block_expansion(m, b, w, p);
        },
        RuleKind::NoOverride => {
            law_block_override(m, b, w, p);
        },
        RuleKind::Tighten(modes) => {
            law_mode_tighten(m, b, w, p, modes);
        },
    }
    assert forall|r: Seq<Seq<char>>| #[trigger] is_proper_prefix(r, p) && table_at(m, r) implies table_at(
        apply_rule(k, m, b, w, p),
        r,
    ) by {
        let x = apply_rule(k, m, b, w, p);
        if x != m {
            match k {
                RuleKind::ClampFloat => lemma_set_keeps_table(m, p, num_at(b, p)->Some_0, r),
                RuleKind::ClampInt => lemma_set_keeps_table(m, p, num_at(b, p)->Some_0, r),
                RuleKind::OnlyTrue => lemma_set_keeps_table(m, p, TomlView::Boolean(true), r),
                RuleKind::OnlyFalse => lemma_set_keeps_table(m, p, TomlView::Boolean(false), r),
                RuleKind::Union => lemma_set_keeps_table(
                    m,
                    p,
                    TomlView::Array(union_into(arr_or_empty(m, p), arr_at(b, p)->Some_0)),
                    r,
                ),
                RuleKind::NoExpansion => lemma_set_keeps_table(m, p, TomlView::Array(arr_or_empty(b, p)), r),
                RuleKind::NoOverride => {
                    if get_at(b, p) is Some {
                        lemma_set_keeps_table(m, p, get_at(b, p)->Some_0, r);
                    } else {
                        lemma_remove_keeps_table(m, p, r);
                    }
                },
                RuleKind::Tighten(modes) => lemma_set_keeps_table(m, p, TomlView::String(str_at(b, p)->Some_0), r),
            }
        }
    }
}

/// Restrictions that all part ways with `q` leave the value at `q` alone.
pub proof fn lemma_rules_frame(
    m: TomlView,
    b: TomlView,
    w: TomlView,
    rs: Seq<(RuleKind, Seq<Seq<char>>)>,
    q: Seq<Seq<char>>,
)
    requires
        forall|i: int| 0 <= i < rs.len() ==> diverge(#[trigger] rs[i].1, q),
    ensures
        get_at(apply_rules(m, b, w, rs), q) == get_at(m, q),
    decreases rs.len(),
{
    if rs.len() > 0 {
        assert(diverge(rs[0].1, q));
        lemma_rule_step(rs[0].0, m, b, w, rs[0].1);
        assert forall|i: int| 0 <= i < rs.drop_first().len() implies diverge(
            #[trigger] rs.drop_first()[i].1,
            q,
        ) by {
            assert(rs.drop_first()[i] == rs[i + 1]);
        }
        lemma_rules_frame(apply_rule(rs[0].0, m, b, w, rs[0].1), b, w, rs.drop_first(), q);
    }
}

/// A table that each restriction either parts ways with or lies above
/// stays a table.
pub proof fn lemma_rules_keep_table(
    m: TomlView,
    b: TomlView,
    w: TomlView,
    rs: Seq<(RuleKind, Seq<Seq<char>>)>,
    r: Seq<Seq<char>>,
)
    requires
        forall|i: int|
            0 <= i < rs.len() ==> diverge(#[trigger] rs[i].1, r) || is_proper_prefix(r, rs[i].1),
        table_at(m, r),
    ensures
        table_at(apply_rules(m, b, w, rs), r),
    decreases rs.len(),
{
    if rs.len() > 0 {
        assert(diverge(rs[0].1, r) || is_proper_prefix(r, rs[0].1));
        lemma_rule_step(rs[0].0, m, b, w, rs[0].1);
        assert forall|i: int| 0 <= i < rs.drop_first().len() implies diverge(
            #[trigger] rs.drop_first()[i].1,
            r,
        ) || is_proper_prefix(r, rs.drop_first()[i].1) by {
            assert(rs.drop_first()[i] == rs[i + 1]);
        }
        lemma_rules_keep_table(apply_rule(rs[0].0, m, b, w, rs[0].1), b, w, rs.drop_first(), r);
    }
}

/// Checking the fields of one server leaves every path outside
/// `servers` alone.
proof fn lemma_protect_frame(
    m: TomlView,
    ws: TomlView,
    name: Seq<char>,
    bsrv: TomlView,
    fields: Seq<Seq<char>>,
    q: Seq<Seq<char>>,
)
    requires
        q.len() > 0,
        q[0] != seg_servers(),
    ensures
        get_at(protect_fields(m, ws, name, bsrv, fields), q) == get_at(m, q),
    decreases fields.len(),
{
    if fields.len() > 0 {
        let fp = server_path(name, fields[0]);
        assert(diverge(fp, q)) by {
            assert(fp[0] != q[0]);
        }
        lemma_frame_set(m, fp, TomlView::Boolean(false));
        lemma_frame_remove(m, fp);
        let bf = match bsrv {
            TomlView::Table(t) => tget(t, fields[0]),
            _ => None,
        };
        if bf is Some {
            lemma_frame_set(m, fp, bf->Some_0);
        }
        let m2 = match get_at(ws, fp) {
            Some(wv) => match bf {
                Some(bv) => if toml_eq(wv, bv) {
                    m
                } else {
                    set_at(m, fp, bv)
                },
                None => remove_at(m, fp),
            },
            None => m,
        };
        lemma_protect_frame(m2, ws, name, bsrv, fields.drop_first(), q);
    }
}

/// Sanitising servers leaves every path outside `servers` alone.
pub proof fn lemma_sanitize_frame(m: TomlView, b: TomlView, w: TomlView, q: Seq<Seq<char>>)
    requires
        q.len() > 0,
        q[0] != seg_servers(),
    ensures
        get_at(sanitize_spec(m, b, w), q) == get_at(m, q),
{
    match get_at(w, seq![seg_servers()]) {
        Some(TomlView::Table(wss)) => {
            let bss = match get_at(b, seq![seg_servers()]) {
                Some(TomlView::Table(t)) => t,
                _ => Seq::empty(),
            };
            lemma_sanitize_fold_frame(m, bss, w, wss, q);
        },
        _ => {},
    }
}

proof fn lemma_sanitize_fold_frame(
    m: TomlView,
    bss: Seq<(Seq<char>, TomlView)>,
    w: TomlView,
    names: Seq<(Seq<char>, TomlView)>,
    q: Seq<Seq<char>>,
)
    requires
        q.len() > 0,
        q[0] != seg_servers(),
    ensures
        get_at(sanitize_fold(m, bss, w, names), q) == get_at(m, q),
    decreases names.len(),
{
    if names.len() > 0 {
        let name = names[0].0;
        let m1 = sanitize_server(m, bss, w, name);
        match tget(bss, name) {
            Some(bsrv) => {
                lemma_protect_frame(m, w, name, bsrv, protected_fields(), q);
            },
            None => {
                let tp = server_path(name, seg_trusted());
                let ap = server_path(name, seg_auto_start());
                assert(diverge(tp, q)) by {
                    assert(tp[0] != q[0]);
                }
                assert(diverge(ap, q)) by {
                    assert(ap[0] != q[0]);
                }
                lemma_frame_set(m, tp, TomlView::Boolean(false));
                let mt = if bool_at(m, tp) == Some(true) {
                    set_at(m, tp, TomlView::Boolean(false))
                } else {
                    m
                };
                lemma_frame_set(mt, ap, TomlView::Boolean(false));
            },
        }
        lemma_sanitize_fold_frame(m1, bss, w, names.drop_first(), q);
    }
}

/// One restriction's guarantee, where its table exists.
pub proof fn lemma_rule_guarantee_at(k: RuleKind, m: TomlView, b: TomlView, w: TomlView, p: Seq<Seq<char>>)
    requires
        parent_is_table(m, p),
    ensures
        rule_guarantee(k, p, apply_rule(k, m, b, w, p), b, w),
{
    lemma_rule_step(k, m, b, w, p);
}

/// Paths that hold different keys at position `i` part ways.
pub proof fn lemma_diverge_at(p: Seq<Seq<char>>, q: Seq<Seq<char>>, i: int)
    requires
        0 <= i < p.len(),
        i < q.len(),
        p[i] != q[i],
    ensures
        diverge(p, q),
{
}

/// Set the value at `path` inside `merged`.
fn set_in(merged: &mut TomlValue, path: &[&str], x: TomlValue)
    ensures
        tv(*final(merged)) == set_at(tv(*old(merged)), path_view(path@), tv(x)),
{
    let mut tmp = TomlValue::Boolean(false);
    std::mem::swap(merged, &mut tmp);
    assert(path_view(path@).skip(0) =~= path_view(path@));
    *merged = set_nested(tmp, path, 0, x);
}

/// Remove the value at `path` inside `merged`.
fn remove_in(merged: &mut TomlValue, path: &[&str])
    ensures
        tv(*final(merged)) == remove_at(tv(*old(merged)), path_view(path@)),
{
    let mut tmp = TomlValue::Boolean(false);
    std::mem::swap(merged, &mut tmp);
    assert(path_view(path@).skip(0) =~= path_view(path@));
    *merged = remove_nested(tmp, path, 0);
}

/// The value at `path` inside `v`.
fn value_at<'a>(v: &'a TomlValue, path: &[&str]) -> (r: Option<&'a TomlValue>)
    ensures
        opt_tv(r) == get_at(tv(*v), path_view(path@)),
{
    assert(path_view(path@).skip(0) =~= path_view(path@));
    get_nested(v, path, 0)
}

/// Whether the number `a` is greater than the number `b`.
fn number_gt(a: &TomlValue, b: &TomlValue) -> (r: bool)
    ensures
        r == num_gt(tv(*a), tv(*b)),
{
    match (a, b) {
        (TomlValue::Float(x), TomlValue::Float(y)) => float_bits_gt(*x, *y),
        (TomlValue::Integer(x), TomlValue::Integer(y)) => *x > *y,
        (TomlValue::Integer(x), TomlValue::Float(y)) => int_gt_float(*x, *y),
        (TomlValue::Float(x), TomlValue::Integer(y)) => float_gt_int(*x, *y),
        _ => false,
    }
}

/// The number at `path`, if there is one.
fn number_at<'a>(v: &'a TomlValue, path: &[&str]) -> (r: Option<&'a TomlValue>)
    ensures
        opt_tv(r) == num_at(tv(*v), path_view(path@)),
{
    match value_at(v, path) {
        Some(x) => match x {
            TomlValue::Float(_) => Some(x),
            TomlValue::Integer(_) => Some(x),
            _ => None,
        },
        None => None,
    }
}

/// Clamp a number so the workspace cannot raise it above the baseline:
/// the smaller of the two numbers is kept, whichever of integer and float
/// each layer wrote.
pub fn clamp_max(merged: &mut TomlValue, baseline: &TomlValue, workspace: &TomlValue, path: &[&str])
    ensures
        tv(*final(merged)) == clamp_max_spec(
            tv(*old(merged)),
            tv(*baseline),
            tv(*workspace),
            path_view(path@),
        ),
{
    match (number_at(baseline, path), number_at(workspace, path)) {
        (Some(bv), Some(wv)) => {
            if number_gt(wv, bv) {
                set_in(merged, path, clone_value(bv));
            }
        },
        _ => {},
    }
}

/// Clamp an integer field so the workspace cannot raise it above the
/// baseline; the same rule as [`clamp_max`].
pub fn clamp_max_int(merged: &mut TomlValue, baseline: &TomlValue, workspace: &TomlValue, path: &[&str])
    ensures
        tv(*final(merged)) == clamp_max_int_spec(
            tv(*old(merged)),
            tv(*baseline),
            tv(*workspace),
            path_view(path@),
        ),
{
    clamp_max(merged, baseline, workspace, path)
}

/// A boolean the workspace may turn on but not off.
pub fn enforce_bool_only_true(merged: &mut TomlValue, workspace: &TomlValue, path: &[&str])
    ensures
        tv(*final(merged)) == bool_only_true_spec(tv(*old(merged)), tv(*workspace), path_view(path@)),
{
    match value_at(workspace, path) {
        Some(TomlValue::Boolean(false)) => set_in(merged, path, TomlValue::Boolean(true)),
        _ => {},
    }
}

/// A boolean the workspace may turn off but not on.
pub fn enforce_bool_only_false(merged: &mut TomlValue, workspace: &TomlValue, path: &[&str])
    ensures
        tv(*final(merged)) == bool_only_false_spec(tv(*old(merged)), tv(*workspace), path_view(path@)),
{
    match value_at(workspace, path) {
        Some(TomlValue::Boolean(true)) => set_in(merged, path, TomlValue::Boolean(false)),
        _ => {},
    }
}

/// Whether some element of `r` equals `x`.
fn contains_value(r: &Vec<TomlValue>, x: &TomlValue) -> (b: bool)
    ensures
        b == contains_eq(arr_view(r@), tv(*x)),
{
    let mut i: usize = 0;
    while i < r.len()
        invariant
            i <= r@.len(),
            forall|j: int| 0 <= j < i ==> !toml_eq(#[trigger] arr_view(r@)[j], tv(*x)),
        decreases r@.len() - i,
    {
        if value_eq(&r[i], x) {
            assert(toml_eq(arr_view(r@)[i as int], tv(*x)));
            return true;
        }
        i = i + 1;
    }
    false
}

/// A copy of the array at `path`, or an empty one.
fn array_copy(v: &TomlValue, path: &[&str]) -> (r: Vec<TomlValue>)
    ensures
        arr_view(r@) == arr_or_empty(tv(*v), path_view(path@)),
{
    match value_at(v, path) {
        Some(x) => {
            let c = clone_value(x);
            match c {
                TomlValue::Array(a) => {
                    proof {
                        lemma_tv_array(a);
                    }
                    a
                },
                _ => {
                    let e: Vec<TomlValue> = Vec::new();
                    assert(arr_view(e@) =~= Seq::<TomlView>::empty());
                    e
                },
            }
        },
        None => {
            let e: Vec<TomlValue> = Vec::new();
            assert(arr_view(e@) =~= Seq::<TomlView>::empty());
            e
        },
    }
}

/// An array the workspace may add to but not take from: baseline entries
/// missing from the merged array are appended again.
pub fn union_string_arrays(merged: &mut TomlValue, baseline: &TomlValue, workspace: &TomlValue, path: &[&str])
    ensures
        tv(*final(merged)) == union_spec(
            tv(*old(merged)),
            tv(*baseline),
            tv(*workspace),
            path_view(path@),
        ),
{
    let ghost pv = path_view(path@);
    let b_is_arr = match value_at(baseline, path) {
        Some(TomlValue::Array(_)) => true,
        _ => false,
    };
    let w_is_arr = match value_at(workspace, path) {
        Some(TomlValue::Array(_)) => true,
        _ => false,
    };
    if !(b_is_arr && w_is_arr) {
        return;
    }
    let baseline_items = array_copy(baseline, path);
    let mut result = array_copy(merged, path);
    let ghost items = arr_view(baseline_items@);
    let ghost start = arr_view(result@);
    let mut i: usize = 0;
    proof {
        assert(items.skip(0) =~= items);
    }
    while i < baseline_items.len()
        invariant
            i <= baseline_items@.len(),
            items == arr_view(baseline_items@),
            union_into(arr_view(result@), items.skip(i as int)) == union_into(start, items),
        decreases baseline_items@.len() - i,
    {
        let ghost before = arr_view(result@);
        assert(items.skip(i as int)[0] == items[i as int]);
        assert(items.skip(i as int).drop_first() =~= items.skip(i + 1));
        if !contains_value(&result, &baseline_items[i]) {
            result.push(clone_value(&baseline_items[i]));
            assert(arr_view(result@) =~= before.push(items[i as int]));
        }
        i = i + 1;
    }
    assert(items.skip(i as int) =~= Seq::<TomlView>::empty());
    let ghost fin = arr_view(result@);
    proof {
        lemma_tv_array(result);
    }
    set_in(merged, path, TomlValue::Array(result));
}

/// Position of the first mode equal to `s`.
fn find_mode(modes: &[&str], s: &str) -> (r: Option<usize>)
    ensures
        match r {
            Some(i) => i == mode_pos(path_view(modes@), s@),
            None => mode_pos(path_view(modes@), s@) < 0,
        },
{
    let ghost mv = path_view(modes@);
    let sc = crate::text::str_to_chars(s);
    let mut i: usize = 0;
    assert(mv.skip(0) =~= mv);
    while i < modes.len()
        invariant
            i <= modes@.len(),
            mv == path_view(modes@),
            sc@ == s@,
            mode_pos(mv, s@) == (if mode_pos(mv.skip(i as int), s@) < 0 {
                -1
            } else {
                mode_pos(mv.skip(i as int), s@) + i
            }),
        decreases modes@.len() - i,
    {
        assert(mv.skip(i as int)[0] == modes@[i as int]@);
        assert(mv.skip(i as int).drop_first() =~= mv.skip(i + 1));
        if crate::text::chars_eq(&crate::text::str_to_chars(modes[i]), &sc) {
            return Some(i);
        }
        i = i + 1;
    }
    assert(mv.skip(i as int) =~= Seq::<Seq<char>>::empty());
    None
}

/// A mode that may only get stricter; `ordered_modes` runs from strictest
/// to most permissive.
pub fn enforce_mode_tighten(
    merged: &mut TomlValue,
    baseline: &TomlValue,
    workspace: &TomlValue,
    path: &[&str],
    ordered_modes: &[&str],
)
    ensures
        tv(*final(merged)) == mode_tighten_spec(
            tv(*old(merged)),
            tv(*baseline),
            tv(*workspace),
            path_view(path@),
            path_view(ordered_modes@),
        ),
{
    match (value_at(baseline, path), value_at(workspace, path)) {
        (Some(TomlValue::String(b)), Some(TomlValue::String(w))) => {
            let bi = find_mode(ordered_modes, b.as_str());
            let wi = find_mode(ordered_modes, w.as_str());
            match (bi, wi) {
                (Some(bx), Some(wx)) => {
                    if wx > bx {
                        set_in(merged, path, TomlValue::String(b.clone()));
                    }
                },
                _ => {},
            }
        },
        _ => {},
    }
}

/// A field the workspace may not set: it goes back to the baseline's
/// value, or away when the baseline has none.
pub fn block_workspace_override(merged: &mut TomlValue, baseline: &TomlValue, workspace: &TomlValue, path: &[&str])
    ensures
        tv(*final(merged)) == block_override_spec(
            tv(*old(merged)),
            tv(*baseline),
            tv(*workspace),
            path_view(path@),
        ),
{
    if value_at(workspace, path).is_some() {
        match value_at(baseline, path) {
            Some(b) => {
                let c = clone_value(b);
                set_in(merged, path, c);
            },
            None => remove_in(merged, path),
        }
    }
}

/// An array the workspace may narrow but not widen: if it holds an entry
/// the baseline's lacks, the baseline's array is put back.
pub fn block_workspace_expansion(merged: &mut TomlValue, baseline: &TomlValue, workspace: &TomlValue, path: &[&str])
    ensures
        tv(*final(merged)) == block_expansion_spec(
            tv(*old(merged)),
            tv(*baseline),
            tv(*workspace),
            path_view(path@),
        ),
{
    let ws_is_arr = match value_at(workspace, path) {
        Some(TomlValue::Array(_)) => true,
        _ => false,
    };
    if !ws_is_arr {
        return;
    }
    let ws_items = array_copy(workspace, path);
    let baseline_arr = array_copy(baseline, path);
    let ghost wi = arr_view(ws_items@);
    let ghost ba = arr_view(baseline_arr@);
    let mut had_expansion = false;
    let mut i: usize = 0;
    while i < ws_items.len() && !had_expansion
        invariant
            i <= ws_items@.len(),
            wi == arr_view(ws_items@),
            ba == arr_view(baseline_arr@),
            had_expansion ==> 0 < i && !contains_eq(ba, wi[i - 1]),
            !had_expansion ==> forall|j: int| 0 <= j < i ==> contains_eq(ba, #[trigger] wi[j]),
        decreases ws_items@.len() - i,
    {
        if !contains_value(&baseline_arr, &ws_items[i]) {
            had_expansion = true;
        }
        i = i + 1;
    }
    if had_expansion {
        proof {
            lemma_tv_array(baseline_arr);
        }
        set_in(merged, path, TomlValue::Array(baseline_arr));
    }
}

/// Keep workspace servers in check: a server the baseline has keeps its
/// protected fields (`command`, `args`, `env`, `cwd`, `binary_hash`,
/// `trusted`); one the workspace added is made untrusted and is not
/// started automatically.
pub fn sanitize_workspace_servers(merged: &mut TomlValue, baseline: &TomlValue, workspace: &TomlValue)
    ensures
        tv(*final(merged)) == sanitize_spec(tv(*old(merged)), tv(*baseline), tv(*workspace)),
{
    proof {
        reveal_strlit("servers");
        reveal_strlit("trusted");
        reveal_strlit("auto_start");
        reveal_strlit("command");
        reveal_strlit("args");
        reveal_strlit("env");
        reveal_strlit("cwd");
        reveal_strlit("binary_hash");
    }
    assert("servers"@ =~= seg_servers());
    let sp: [&str; 1] = ["servers"];
    assert(path_view(sp@) =~= seq![seg_servers()]);
    let wss = match value_at(workspace, &sp) {
        Some(TomlValue::Table(t)) => t,
        _ => {
            return;
        },
    };
    let empty: Vec<(String, TomlValue)> = Vec::new();
    let bss = match value_at(baseline, &sp) {
        Some(TomlValue::Table(t)) => t,
        _ => &empty,
    };
    let ghost m0 = tv(*merged);
    let ghost wsv = tv(*workspace);
    let ghost names = table_view(wss@);
    let ghost bssv = table_view(bss@);
    proof {
        lemma_tv_table(*wss);
        if bss@ != empty@ {
            lemma_tv_table(*bss);
        }
        assert(table_view(empty@) =~= Seq::<(Seq<char>, TomlView)>::empty());
        assert(names.skip(0) =~= names);
    }
    assert(bssv == match get_at(tv(*baseline), seq![seg_servers()]) {
        Some(TomlView::Table(b)) => b,
        _ => Seq::empty(),
    });
    let fields: [&str; 6] = ["command", "args", "env", "cwd", "binary_hash", "trusted"];
    assert("command"@ =~= seg_command());
    assert("args"@ =~= seg_args());
    assert("env"@ =~= seg_env());
    assert("cwd"@ =~= seg_cwd());
    assert("binary_hash"@ =~= seg_binary_hash());
    assert("trusted"@ =~= seg_trusted());
    assert("auto_start"@ =~= seg_auto_start());
    assert(path_view(fields@) =~= protected_fields());
    let mut i: usize = 0;
    while i < wss.len()
        invariant
            i <= wss@.len(),
            names == table_view(wss@),
            bssv == table_view(bss@),
            "servers"@ == seg_servers(),
            "trusted"@ == seg_trusted(),
            "auto_start"@ == seg_auto_start(),
            wsv == tv(*workspace),
            path_view(fields@) == protected_fields(),
            sanitize_fold(tv(*merged), bssv, wsv, names.skip(i as int)) == sanitize_fold(
                m0,
                bssv,
                wsv,
                names,
            ),
        decreases wss@.len() - i,
    {
        let name = &wss[i].0;
        let ghost nv = name@;
        let ghost before = tv(*merged);
        assert(names.skip(i as int)[0].0 == nv);
        assert(names.skip(i as int).drop_first() =~= names.skip(i + 1));
        proof {
            lemma_tindex(bssv, nv);
        }
        match table_find(bss, name.as_str()) {
            Some(j) => {
                let bsrv = &bss[j].1;
                let ghost bv = tv(*bsrv);
                assert(bssv[j as int].1 == bv);
                let ghost fv = protected_fields();
                let mut k: usize = 0;
                assert(fv.skip(0) =~= fv);
                while k < 6
                    invariant
                        k <= 6,
                        fv == protected_fields(),
                        path_view(fields@) == fv,
                        wsv == tv(*workspace),
                        bv == tv(*bsrv),
                        nv == name@,
                        "servers"@ == seg_servers(),
                        protect_fields(tv(*merged), wsv, nv, bv, fv.skip(k as int)) == protect_fields(
                            before,
                            wsv,
                            nv,
                            bv,
                            fv,
                        ),
                    decreases 6 - k,
                {
                    let field = fields[k];
                    assert(fv.skip(k as int)[0] == field@);
                    assert(fv.skip(k as int).drop_first() =~= fv.skip(k + 1));
                    let fp: [&str; 3] = ["servers", name.as_str(), field];
                    assert(path_view(fp@) =~= server_path(nv, field@));
                    let bf: Option<&TomlValue> = match bsrv {
                        TomlValue::Table(t) => {
                            proof {
                                lemma_tv_table(*t);
                                lemma_tindex(table_view(t@), field@);
                            }
                            match table_find(t, field) {
                                Some(q) => Some(&t[q].1),
                                None => None,
                            }
                        },
                        _ => None,
                    };
                    match value_at(workspace, &fp) {
                        Some(wv) => match bf {
                            Some(b) => {
                                if !value_eq(wv, b) {
                                    let c = clone_value(b);
                                    set_in(merged, &fp, c);
                                }
                            },
                            None => remove_in(merged, &fp),
                        },
                        None => {},
                    }
                    k = k + 1;
                }
                assert(fv.skip(6) =~= Seq::<Seq<char>>::empty());
            },
            None => {
                let tp: [&str; 3] = ["servers", name.as_str(), "trusted"];
                let ap: [&str; 3] = ["servers", name.as_str(), "auto_start"];
                assert(path_view(tp@) =~= server_path(nv, seg_trusted()));
                assert(path_view(ap@) =~= server_path(nv, seg_auto_start()));
                let t_on = match value_at(merged, &tp) {
                    Some(TomlValue::Boolean(true)) => true,
                    _ => false,
                };
                if t_on {
                    set_in(merged, &tp, TomlValue::Boolean(false));
                }
                let a_on = match value_at(merged, &ap) {
                    Some(TomlValue::Boolean(true)) => true,
                    _ => false,
                };
                if a_on {
                    set_in(merged, &ap, TomlValue::Boolean(false));
                }
            },
        }
        i = i + 1;
    }
    assert(names.skip(i as int) =~= Seq::<(Seq<char>, TomlView)>::empty());
}

/// Budgets and the tool policy: spending limits and the argument size may only fall, approval requirements may only be switched on, and the blocked and denied lists may only grow.
#[verifier::spinoff_prover]
#[verifier::rlimit(40)]
fn restrict_budget_policy(merged: &mut TomlValue, baseline: &TomlValue, workspace: &TomlValue)
    ensures
        tv(*final(merged)) == apply_rules(tv(*old(merged)), tv(*baseline), tv(*workspace), budget_policy_rules()),
{
    let ghost m0 = tv(*merged);
    let ghost bv = tv(*baseline);
    let ghost wv = tv(*workspace);
    let ghost rs = budget_policy_rules();
    proof {
        reveal_strlit("budget");
        reveal_strlit("session_max_usd");
        reveal_strlit("per_action_max_usd");
        reveal_strlit("security");
        reveal_strlit("policy");
        reveal_strlit("max_argument_size");
        reveal_strlit("require_approval_for_delete");
        reveal_strlit("require_approval_for_network");
        reveal_strlit("blocked_tools");
        reveal_strlit("denied_paths");
        reveal_strlit("denied_hosts");
    }
    assert("budget"@ =~= seg_budget());
    assert("session_max_usd"@ =~= seg_session_max_usd());
    assert("per_action_max_usd"@ =~= seg_per_action_max_usd());
    assert("security"@ =~= seg_security());
    assert("policy"@ =~= seg_policy());
    assert("max_argument_size"@ =~= seg_max_argument_size());
    assert("require_approval_for_delete"@ =~= seg_require_approval_for_delete());
    assert("require_approval_for_network"@ =~= seg_require_approval_for_network());
    assert("blocked_tools"@ =~= seg_blocked_tools());
    assert("denied_paths"@ =~= seg_denied_paths());
    assert("denied_hosts"@ =~= seg_denied_hosts());
    assert(rs.take(0) =~= Seq::<(RuleKind, Seq<Seq<char>>)>::empty());
    let p1: [&str; 2] = ["budget", "session_max_usd"];
    assert(path_view(p1@) =~= seq![seg_budget(), seg_session_max_usd()]);
    assert(rs[0] == (RuleKind::ClampFloat, seq![seg_budget(), seg_session_max_usd()]));
    clamp_max(merged, baseline, workspace, &p1);
    proof {
        lemma_apply_rules_snoc(m0, bv, wv, rs.take(0), rs[0]);
        assert(rs.take(1) =~= rs.take(0).push(rs[0]));
    }
    let p2: [&str; 2] = ["budget", "per_action_max_usd"];
    assert(path_view(p2@) =~= seq![seg_budget(), seg_per_action_max_usd()]);
    assert(rs[1] == (RuleKind::ClampFloat, seq![seg_budget(), seg_per_action_max_usd()]));
    clamp_max(merged, baseline, workspace, &p2);
    proof {
        lemma_apply_rules_snoc(m0, bv, wv, rs.take(1), rs[1]);
        assert(rs.take(2) =~= rs.take(1).push(rs[1]));
    }
    let p3: [&str; 3] = ["security", "policy", "max_argument_size"];
    assert(path_view(p3@) =~= seq![seg_security(), seg_policy(), seg_max_argument_size()]);
    assert(rs[2] == (RuleKind::ClampInt, seq![seg_security(), seg_policy(), seg_max_argument_size()]));
    clamp_max_int(merged, baseline, workspace, &p3);
    proof {
        lemma_apply_rules_snoc(m0, bv, wv, rs.take(2), rs[2]);
        assert(rs.take(3) =~= rs.take(2).push(rs[2]));
    }
    let p4: [&str; 3] = ["security", "policy", "require_approval_for_delete"];
    assert(path_view(p4@) =~= seq![seg_security(), seg_policy(), seg_require_approval_for_delete()]);
    assert(rs[3] == (RuleKind::OnlyTrue, seq![seg_security(), seg_policy(), seg_require_approval_for_delete()]));
    enforce_bool_only_true(merged, workspace, &p4);
    proof {
        lemma_apply_rules_snoc(m0, bv, wv, rs.take(3), rs[3]);
        assert(rs.take(4) =~= rs.take(3).push(rs[3]));
    }
    let p5: [&str; 3] = ["security", "policy", "require_approval_for_network"];
    assert(path_view(p5@) =~= seq![seg_security(), seg_policy(), seg_require_approval_for_network()]);
    assert(rs[4] == (RuleKind::OnlyTrue, seq![seg_security(), seg_policy(), seg_require_approval_for_network()]));
    enforce_bool_only_true(merged, workspace, &p5);
    proof {
        lemma_apply_rules_snoc(m0, bv, wv, rs.take(4), rs[4]);
        assert(rs.take(5) =~= rs.take(4).push(rs[4]));
    }
    let p6: [&str; 3] = ["security", "policy", "blocked_tools"];
    assert(path_view(p6@) =~= seq![seg_security(), seg_policy(), seg_blocked_tools()]);
    assert(rs[5] == (RuleKind::Union, seq![seg_security(), seg_policy(), seg_blocked_tools()]));
    union_string_arrays(merged, baseline, workspace, &p6);
    proof {
        lemma_apply_rules_snoc(m0, bv, wv, rs.take(5), rs[5]);
        assert(rs.take(6) =~= rs.take(5).push(rs[5]));
    }
    let p7: [&str; 3] = ["security", "policy", "denied_paths"];
    assert(path_view(p7@) =~= seq![seg_security(), seg_policy(), seg_denied_paths()]);
    assert(rs[6] == (RuleKind::Union, seq![seg_security(), seg_policy(), seg_denied_paths()]));
    union_string_arrays(merged, baseline, workspace, &p7);
    proof {
        lemma_apply_rules_snoc(m0, bv, wv, rs.take(6), rs[6]);
        assert(rs.take(7) =~= rs.take(6).push(rs[6]));
    }
    let p8: [&str; 3] = ["security", "policy", "denied_hosts"];
    assert(path_view(p8@) =~= seq![seg_security(), seg_policy(), seg_denied_hosts()]);
    assert(rs[7] == (RuleKind::Union, seq![seg_security(), seg_policy(), seg_denied_hosts()]));
    union_string_arrays(merged, baseline, workspace, &p8);
    proof {
        lemma_apply_rules_snoc(m0, bv, wv, rs.take(7), rs[7]);
        assert(rs.take(8) =~= rs.take(7).push(rs[7]));
    }
    assert(rs.take(8) =~= rs);
}

/// Workspace modes may only get stricter, allow lists may not widen, the model endpoint and key may not be set, and WASM and agent hooks may not be switched on.
#[verifier::spinoff_prover]
#[verifier::rlimit(40)]
fn restrict_workspace_security(merged: &mut TomlValue, baseline: &TomlValue, workspace: &TomlValue)
    ensures
        tv(*final(merged)) == apply_rules(tv(*old(merged)), tv(*baseline), tv(*workspace), workspace_security_rules()),
{
    let ghost m0 = tv(*merged);
    let ghost bv = tv(*baseline);
    let ghost wv = tv(*workspace);
    let ghost rs = workspace_security_rules();
    proof {
        reveal_strlit("workspace");
        reveal_strlit("mode");
        reveal_strlit("safe");
        reveal_strlit("guided");
        reveal_strlit("autonomous");
        reveal_strlit("escape_policy");
        reveal_strlit("deny");
        reveal_strlit("ask");
        reveal_strlit("allow");
        reveal_strlit("never_allow");
        reveal_strlit("security");
        reveal_strlit("require_signatures");
        reveal_strlit("approval_timeout_secs");
        reveal_strlit("policy");
        reveal_strlit("approval_required_tools");
        reveal_strlit("allowed_paths");
        reveal_strlit("allowed_hosts");
        reveal_strlit("auto_allow_read");
        reveal_strlit("auto_allow_write");
        reveal_strlit("model");
        reveal_strlit("api_key");
        reveal_strlit("api_url");
        reveal_strlit("hooks");
        reveal_strlit("allow_wasm_hooks");
        reveal_strlit("allow_agent_hooks");
    }
    assert("workspace"@ =~= seg_workspace());
    assert("mode"@ =~= seg_mode());
    assert("safe"@ =~= seg_safe());
    assert("guided"@ =~= seg_guided());
    assert("autonomous"@ =~= seg_autonomous());
    assert("escape_policy"@ =~= seg_escape_policy());
    assert("deny"@ =~= seg_deny());
    assert("ask"@ =~= seg_ask());
    assert("allow"@ =~= seg_allow());
    assert("never_allow"@ =~= seg_never_allow());
    assert("security"@ =~= seg_security());
    assert("require_signatures"@ =~= seg_require_signatures());
    assert("approval_timeout_secs"@ =~= seg_approval_timeout_secs());
    assert("policy"@ =~= seg_policy());
    assert("approval_required_tools"@ =~= seg_approval_required_tools());
    assert("allowed_paths"@ =~= seg_allowed_paths());
    assert("allowed_hosts"@ =~= seg_allowed_hosts());
    assert("auto_allow_read"@ =~= seg_auto_allow_read());
    assert("auto_allow_write"@ =~= seg_auto_allow_write());
    assert("model"@ =~= seg_model());
    assert("api_key"@ =~= seg_api_key());
    assert("api_url"@ =~= seg_api_url());
    assert("hooks"@ =~= seg_hooks());
    assert("allow_wasm_hooks"@ =~= seg_allow_wasm_hooks());
    assert("allow_agent_hooks"@ =~= seg_allow_agent_hooks());
    assert(rs.take(0) =~= Seq::<(RuleKind, Seq<Seq<char>>)>::empty());
    let p1: [&str; 2] = ["workspace", "mode"];
    assert(path_view(p1@) =~= seq![seg_workspace(), seg_mode()]);
    assert(rs[0] == (RuleKind::Tighten(seq![seg_safe(), seg_guided(), seg_autonomous()]), seq![seg_workspace(), seg_mode()]));
    let o1: [&str; 3] = ["safe", "guided", "autonomous"];
    assert(path_view(o1@) =~= seq![seg_safe(), seg_guided(), seg_autonomous()]);
    enforce_mode_tighten(merged, baseline, workspace, &p1, &o1);
    proof {
        lemma_apply_rules_snoc(m0, bv, wv, rs.take(0), rs[0]);
        assert(rs.take(1) =~= rs.take(0).push(rs[0]));
    }
    let p2: [&str; 2] = ["workspace", "escape_policy"];
    assert(path_view(p2@) =~= seq![seg_workspace(), seg_escape_policy()]);
    assert(rs[1] == (RuleKind::Tighten(seq![seg_deny(), seg_ask(), seg_allow()]), seq![seg_workspace(), seg_escape_policy()]));
    let o2: [&str; 3] = ["deny", "ask", "allow"];
    assert(path_view(o2@) =~= seq![seg_deny(), seg_ask(), seg_allow()]);
    enforce_mode_tighten(merged, baseline, workspace, &p2, &o2);
    proof {
        lemma_apply_rules_snoc(m0, bv, wv, rs.take(1), rs[1]);
        assert(rs.take(2) =~= rs.take(1).push(rs[1]));
    }
    let p3: [&str; 2] = ["workspace", "never_allow"];
    assert(path_view(p3@) =~= seq![seg_workspace(), seg_never_allow()]);
    assert(rs[2] == (RuleKind::Union, seq![seg_workspace(), seg_never_allow()]));
    union_string_arrays(merged, baseline, workspace, &p3);
    proof {
        lemma_apply_rules_snoc(m0, bv, wv, rs.take(2), rs[2]);
        assert(rs.take(3) =~= rs.take(2).push(rs[2]));
    }
    let p4: [&str; 2] = ["security", "require_signatures"];
    assert(path_view(p4@) =~= seq![seg_security(), seg_require_signatures()]);
    assert(rs[3] == (RuleKind::OnlyTrue, seq![seg_security(), seg_require_signatures()]));
    enforce_bool_only_true(merged, workspace, &p4);
    proof {
        lemma_apply_rules_snoc(m0, bv, wv, rs.take(3), rs[3]);
        assert(rs.take(4) =~= rs.take(3).push(rs[3]));
    }
    let p5: [&str; 2] = ["security", "approval_timeout_secs"];
    assert(path_view(p5@) =~= seq![seg_security(), seg_approval_timeout_secs()]);
    assert(rs[4] == (RuleKind::ClampInt, seq![seg_security(), seg_approval_timeout_secs()]));
    clamp_max_int(merged, baseline, workspace, &p5);
    proof {
        lemma_apply_rules_snoc(m0, bv, wv, rs.take(4), rs[4]);
        assert(rs.take(5) =~= rs.take(4).push(rs[4]));
    }
    let p6: [&str; 3] = ["security", "policy", "approval_required_tools"];
    assert(path_view(p6@) =~= seq![seg_security(), seg_policy(), seg_approval_required_tools()]);
    assert(rs[5] == (RuleKind::Union, seq![seg_security(), seg_policy(), seg_approval_required_tools()]));
    union_string_arrays(merged, baseline, workspace, &p6);
    proof {
        lemma_apply_rules_snoc(m0, bv, wv, rs.take(5), rs[5]);
        assert(rs.take(6) =~= rs.take(5).push(rs[5]));
    }
    let p7: [&str; 3] = ["security", "policy", "allowed_paths"];
    assert(path_view(p7@) =~= seq![seg_security(), seg_policy(), seg_allowed_paths()]);
    assert(rs[6] == (RuleKind::NoExpansion, seq![seg_security(), seg_policy(), seg_allowed_paths()]));
    block_workspace_expansion(merged, baseline, workspace, &p7);
    proof {
        lemma_apply_rules_snoc(m0, bv, wv, rs.take(6), rs[6]);
        assert(rs.take(7) =~= rs.take(6).push(rs[6]));
    }
    let p8: [&str; 3] = ["security", "policy", "allowed_hosts"];
    assert(path_view(p8@) =~= seq![seg_security(), seg_policy(), seg_allowed_hosts()]);
    assert(rs[7] == (RuleKind::NoExpansion, seq![seg_security(), seg_policy(), seg_allowed_hosts()]));
    block_workspace_expansion(merged, baseline, workspace, &p8);
    proof {
        lemma_apply_rules_snoc(m0, bv, wv, rs.take(7), rs[7]);
        assert(rs.take(8) =~= rs.take(7).push(rs[7]));
    }
    let p9: [&str; 2] = ["workspace", "auto_allow_read"];
    assert(path_view(p9@) =~= seq![seg_workspace(), seg_auto_allow_read()]);
    assert(rs[8] == (RuleKind::NoExpansion, seq![seg_workspace(), seg_auto_allow_read()]));
    block_workspace_expansion(merged, baseline, workspace, &p9);
    proof {
        lemma_apply_rules_snoc(m0, bv, wv, rs.take(8), rs[8]);
        assert(rs.take(9) =~= rs.take(8).push(rs[8]));
    }
    let p10: [&str; 2] = ["workspace", "auto_allow_write"];
    assert(path_view(p10@) =~= seq![seg_workspace(), seg_auto_allow_write()]);
    assert(rs[9] == (RuleKind::NoExpansion, seq![seg_workspace(), seg_auto_allow_write()]));
    block_workspace_expansion(merged, baseline, workspace, &p10);
    proof {
        lemma_apply_rules_snoc(m0, bv, wv, rs.take(9), rs[9]);
        assert(rs.take(10) =~= rs.take(9).push(rs[9]));
    }
    let p11: [&str; 2] = ["model", "api_key"];
    assert(path_view(p11@) =~= seq![seg_model(), seg_api_key()]);
    assert(rs[10] == (RuleKind::NoOverride, seq![seg_model(), seg_api_key()]));
    block_workspace_override(merged, baseline, workspace, &p11);
    proof {
        lemma_apply_rules_snoc(m0, bv, wv, rs.take(10), rs[10]);
        assert(rs.take(11) =~= rs.take(10).push(rs[10]));
    }
    let p12: [&str; 2] = ["model", "api_url"];
    assert(path_view(p12@) =~= seq![seg_model(), seg_api_url()]);
    assert(rs[11] == (RuleKind::NoOverride, seq![seg_model(), seg_api_url()]));
    block_workspace_override(merged, baseline, workspace, &p12);
    proof {
        lemma_apply_rules_snoc(m0, bv, wv, rs.take(11), rs[11]);
        assert(rs.take(12) =~= rs.take(11).push(rs[11]));
    }
    let p13: [&str; 2] = ["hooks", "allow_wasm_hooks"];
    assert(path_view(p13@) =~= seq![seg_hooks(), seg_allow_wasm_hooks()]);
    assert(rs[12] == (RuleKind::OnlyFalse, seq![seg_hooks(), seg_allow_wasm_hooks()]));
    enforce_bool_only_false(merged, workspace, &p13);
    proof {
        lemma_apply_rules_snoc(m0, bv, wv, rs.take(12), rs[12]);
        assert(rs.take(13) =~= rs.take(12).push(rs[12]));
    }
    let p14: [&str; 2] = ["hooks", "allow_agent_hooks"];
    assert(path_view(p14@) =~= seq![seg_hooks(), seg_allow_agent_hooks()]);
    assert(rs[13] == (RuleKind::OnlyFalse, seq![seg_hooks(), seg_allow_agent_hooks()]));
    enforce_bool_only_false(merged, workspace, &p14);
    proof {
        lemma_apply_rules_snoc(m0, bv, wv, rs.take(13), rs[13]);
        assert(rs.take(14) =~= rs.take(13).push(rs[13]));
    }
    assert(rs.take(14) =~= rs);
}

/// Rate limits, the budget warning threshold, sub-agent, retry and timeout limits may only fall, and HTTP and command hooks may not be switched on.
#[verifier::spinoff_prover]
#[verifier::rlimit(40)]
fn restrict_limits(merged: &mut TomlValue, baseline: &TomlValue, workspace: &TomlValue)
    ensures
        tv(*final(merged)) == apply_rules(tv(*old(merged)), tv(*baseline), tv(*workspace), limits_rules()),
{
    let ghost m0 = tv(*merged);
    let ghost bv = tv(*baseline);
    let ghost wv = tv(*workspace);
    let ghost rs = limits_rules();
    proof {
        reveal_strlit("rate_limits");
        reveal_strlit("elicitation_per_server_per_min");
        reveal_strlit("max_pending_requests");
        reveal_strlit("budget");
        reveal_strlit("warn_at_percent");
        reveal_strlit("subagents");
        reveal_strlit("max_concurrent");
        reveal_strlit("max_depth");
        reveal_strlit("timeout_secs");
        reveal_strlit("retry");
        reveal_strlit("llm_max_attempts");
        reveal_strlit("mcp_max_attempts");
        reveal_strlit("timeouts");
        reveal_strlit("approval_secs");
        reveal_strlit("idle_secs");
        reveal_strlit("hooks");
        reveal_strlit("allow_http_hooks");
        reveal_strlit("allow_command_hooks");
    }
    assert("rate_limits"@ =~= seg_rate_limits());
    assert("elicitation_per_server_per_min"@ =~= seg_elicitation_per_server_per_min());
    assert("max_pending_requests"@ =~= seg_max_pending_requests());
    assert("budget"@ =~= seg_budget());
    assert("warn_at_percent"@ =~= seg_warn_at_percent());
    assert("subagents"@ =~= seg_subagents());
    assert("max_concurrent"@ =~= seg_max_concurrent());
    assert("max_depth"@ =~= seg_max_depth());
    assert("timeout_secs"@ =~= seg_timeout_secs());
    assert("retry"@ =~= seg_retry());
    assert("llm_max_attempts"@ =~= seg_llm_max_attempts());
    assert("mcp_max_attempts"@ =~= seg_mcp_max_attempts());
    assert("timeouts"@ =~= seg_timeouts());
    assert("approval_secs"@ =~= seg_approval_secs());
    assert("idle_secs"@ =~= seg_idle_secs());
    assert("hooks"@ =~= seg_hooks());
    assert("allow_http_hooks"@ =~= seg_allow_http_hooks());
    assert("allow_command_hooks"@ =~= seg_allow_command_hooks());
    assert(rs.take(0) =~= Seq::<(RuleKind, Seq<Seq<char>>)>::empty());
    let p1: [&str; 2] = ["rate_limits", "elicitation_per_server_per_min"];
    assert(path_view(p1@) =~= seq![seg_rate_limits(), seg_elicitation_per_server_per_min()]);
    assert(rs[0] == (RuleKind::ClampInt, seq![seg_rate_limits(), seg_elicitation_per_server_per_min()]));
    clamp_max_int(merged, baseline, workspace, &p1);
    proof {
        lemma_apply_rules_snoc(m0, bv, wv, rs.take(0), rs[0]);
        assert(rs.take(1) =~= rs.take(0).push(rs[0]));
    }
    let p2: [&str; 2] = ["rate_limits", "max_pending_requests"];
    assert(path_view(p2@) =~= seq![seg_rate_limits(), seg_max_pending_requests()]);
    assert(rs[1] == (RuleKind::ClampInt, seq![seg_rate_limits(), seg_max_pending_requests()]));
    clamp_max_int(merged, baseline, workspace, &p2);
    proof {
        lemma_apply_rules_snoc(m0, bv, wv, rs.take(1), rs[1]);
        assert(rs.take(2) =~= rs.take(1).push(rs[1]));
    }
    let p3: [&str; 2] = ["budget", "warn_at_percent"];
    assert(path_view(p3@) =~= seq![seg_budget(), seg_warn_at_percent()]);
    assert(rs[2] == (RuleKind::ClampInt, seq![seg_budget(), seg_warn_at_percent()]));
    clamp_max_int(merged, baseline, workspace, &p3);
    proof {
        lemma_apply_rules_snoc(m0, bv, wv, rs.take(2), rs[2]);
        assert(rs.take(3) =~= rs.take(2).push(rs[2]));
    }
    let p4: [&str; 2] = ["subagents", "max_concurrent"];
    assert(path_view(p4@) =~= seq![seg_subagents(), seg_max_concurrent()]);
    assert(rs[3] == (RuleKind::ClampInt, seq![seg_subagents(), seg_max_concurrent()]));
    clamp_max_int(merged, baseline, workspace, &p4);
    proof {
        lemma_apply_rules_snoc(m0, bv, wv, rs.take(3), rs[3]);
        assert(rs.take(4) =~= rs.take(3).push(rs[3]));
    }
    let p5: [&str; 2] = ["subagents", "max_depth"];
    assert(path_view(p5@) =~= seq![seg_subagents(), seg_max_depth()]);
    assert(rs[4] == (RuleKind::ClampInt, seq![seg_subagents(), seg_max_depth()]));
    clamp_max_int(merged, baseline, workspace, &p5);
    proof {
        lemma_apply_rules_snoc(m0, bv, wv, rs.take(4), rs[4]);
        assert(rs.take(5) =~= rs.take(4).push(rs[4]));
    }
    let p6: [&str; 2] = ["subagents", "timeout_secs"];
    assert(path_view(p6@) =~= seq![seg_subagents(), seg_timeout_secs()]);
    assert(rs[5] == (RuleKind::ClampInt, seq![seg_subagents(), seg_timeout_secs()]));
    clamp_max_int(merged, baseline, workspace, &p6);
    proof {
        lemma_apply_rules_snoc(m0, bv, wv, rs.take(5), rs[5]);
        assert(rs.take(6) =~= rs.take(5).push(rs[5]));
    }
    let p7: [&str; 2] = ["retry", "llm_max_attempts"];
    assert(path_view(p7@) =~= seq![seg_retry(), seg_llm_max_attempts()]);
    assert(rs[6] == (RuleKind::ClampInt, seq![seg_retry(), seg_llm_max_attempts()]));
    clamp_max_int(merged, baseline, workspace, &p7);
    proof {
        lemma_apply_rules_snoc(m0, bv, wv, rs.take(6), rs[6]);
        assert(rs.take(7) =~= rs.take(6).push(rs[6]));
    }
    let p8: [&str; 2] = ["retry", "mcp_max_attempts"];
    assert(path_view(p8@) =~= seq![seg_retry(), seg_mcp_max_attempts()]);
    assert(rs[7] == (RuleKind::ClampInt, seq![seg_retry(), seg_mcp_max_attempts()]));
    clamp_max_int(merged, baseline, workspace, &p8);
    proof {
        lemma_apply_rules_snoc(m0, bv, wv, rs.take(7), rs[7]);
        assert(rs.take(8) =~= rs.take(7).push(rs[7]));
    }
    let p9: [&str; 2] = ["timeouts", "approval_secs"];
    assert(path_view(p9@) =~= seq![seg_timeouts(), seg_approval_secs()]);
    assert(rs[8] == (RuleKind::ClampInt, seq![seg_timeouts(), seg_approval_secs()]));
    clamp_max_int(merged, baseline, workspace, &p9);
    proof {
        lemma_apply_rules_snoc(m0, bv, wv, rs.take(8), rs[8]);
        assert(rs.take(9) =~= rs.take(8).push(rs[8]));
    }
    let p10: [&str; 2] = ["timeouts", "idle_secs"];
    assert(path_view(p10@) =~= seq![seg_timeouts(), seg_idle_secs()]);
    assert(rs[9] == (RuleKind::ClampInt, seq![seg_timeouts(), seg_idle_secs()]));
    clamp_max_int(merged, baseline, workspace, &p10);
    proof {
        lemma_apply_rules_snoc(m0, bv, wv, rs.take(9), rs[9]);
        assert(rs.take(10) =~= rs.take(9).push(rs[9]));
    }
    let p11: [&str; 2] = ["hooks", "allow_http_hooks"];
    assert(path_view(p11@) =~= seq![seg_hooks(), seg_allow_http_hooks()]);
    assert(rs[10] == (RuleKind::OnlyFalse, seq![seg_hooks(), seg_allow_http_hooks()]));
    enforce_bool_only_false(merged, workspace, &p11);
    proof {
        lemma_apply_rules_snoc(m0, bv, wv, rs.take(10), rs[10]);
        assert(rs.take(11) =~= rs.take(10).push(rs[10]));
    }
    let p12: [&str; 2] = ["hooks", "allow_command_hooks"];
    assert(path_view(p12@) =~= seq![seg_hooks(), seg_allow_command_hooks()]);
    assert(rs[11] == (RuleKind::OnlyFalse, seq![seg_hooks(), seg_allow_command_hooks()]));
    enforce_bool_only_false(merged, workspace, &p12);
    proof {
        lemma_apply_rules_snoc(m0, bv, wv, rs.take(11), rs[11]);
        assert(rs.take(12) =~= rs.take(11).push(rs[11]));
    }
    assert(rs.take(12) =~= rs);
}

/// Hold the workspace layer to tightening security only. `merged` is the
/// configuration with the workspace layer merged in, `baseline` the one
/// before it (the defaults when no user configuration exists), and
/// `workspace_layer` the workspace's own values.
pub fn enforce_restrictions(merged: &mut TomlValue, baseline: &TomlValue, workspace_layer: &TomlValue)
    ensures
        tv(*final(merged)) == enforce_spec(tv(*old(merged)), tv(*baseline), tv(*workspace_layer)),
{
    let ghost m0 = tv(*merged);
    let ghost bv = tv(*baseline);
    let ghost wv = tv(*workspace_layer);
    restrict_budget_policy(merged, baseline, workspace_layer);
    restrict_workspace_security(merged, baseline, workspace_layer);
    restrict_limits(merged, baseline, workspace_layer);
    proof {
        lemma_apply_rules_concat(m0, bv, wv, budget_policy_rules(), workspace_security_rules());
        lemma_apply_rules_concat(
            m0,
            bv,
            wv,
            budget_policy_rules() + workspace_security_rules(),
            limits_rules(),
        );
    }
    sanitize_workspace_servers(merged, baseline, workspace_layer);
}

/// Merge `overlay` into `base`: tables merge field by field, and any other
/// overlay value (arrays included) replaces the base's.
pub fn deep_merge(base: &mut TomlValue, overlay: &TomlValue)
    ensures
        tv(*final(base)) == merge_view(tv(*old(base)), tv(*overlay)),
    decreases overlay,
{
    let base_is_table = match base {
        TomlValue::Table(_) => true,
        _ => false,
    };
    match overlay {
        TomlValue::Table(ot) => {
            if !base_is_table {
                *base = clone_value(overlay);
                return;
            }
            let mut tmp = TomlValue::Boolean(false);
            std::mem::swap(base, &mut tmp);
            let mut bt = match tmp {
                TomlValue::Table(t) => t,
                _ => Vec::new(),
            };
            proof {
                lemma_tv_table(bt);
            }
            let ghost bt0 = table_view(bt@);
            let ghost es = table_view(ot@);
            proof {
                lemma_tv_table(*ot);
                assert(es.skip(0) =~= es);
            }
            let mut i: usize = 0;
            while i < ot.len()
                invariant
                    i <= ot@.len(),
                    es == table_view(ot@),
                    *overlay == TomlValue::Table(*ot),
                    merge_entries(table_view(bt@), es.skip(i as int)) == merge_entries(bt0, es),
                decreases ot@.len() - i,
            {
                let ghost cur = table_view(bt@);
                let key = &ot[i].0;
                let ov = &ot[i].1;
                assert(es.skip(i as int)[0] == (key@, tv(*ov)));
                assert(es.skip(i as int).drop_first() =~= es.skip(i + 1));
                proof {
                    lemma_tindex(cur, key@);
                    assert(decreases_to!(*overlay => overlay->Table_0));
                    assert(decreases_to!(*ot => ot@));
                    assert(decreases_to!(ot@ => ot@[i as int]));
                    assert(decreases_to!(ot@[i as int] => ot@[i as int].1));
                }
                match table_find(&bt, key.as_str()) {
                    Some(j) => {
                        let (k, mut bv) = bt.remove(j);
                        let ghost bvv = tv(bv);
                        assert(cur[j as int] == (k@, bvv));
                        deep_merge(&mut bv, ov);
                        let ghost nv = tv(bv);
                        bt.insert(j, (k, bv));
                        assert(table_view(bt@) =~= cur.update(j as int, (key@, nv)));
                    },
                    None => {
                        bt = table_set(bt, key.clone(), clone_value(ov));
                    },
                }
                i = i + 1;
            }
            assert(es.skip(i as int) =~= Seq::<(Seq<char>, TomlView)>::empty());
            proof {
                lemma_tv_table(bt);
            }
            *base = TomlValue::Table(bt);
        },
        _ => {
            *base = clone_value(overlay);
        },
    }
}

/// The dotted path of `key` under `prefix`.
pub(crate) fn join_path(prefix: &str, key: &str) -> (r: String)
    ensures
        r@ == child_path(prefix@, key@),
{
    if prefix.is_empty() {
        String::from_str(key)
    } else {
        proof {
            reveal_strlit(".");
        }
        let r = crate::text::cat3(prefix, ".", key);
        assert(r@ =~= prefix@ + seq!['.'] + key@);
        r
    }
}

/// Record every leaf under `val` as set by `layer`.
fn record_all_leaves(val: &TomlValue, prefix: &str, layer: ConfigLayer, sources: &mut FieldSources)
    ensures
        final(sources).view() == record_leaves(tv(*val), prefix@, layer, old(sources).view()),
    decreases val,
{
    match val {
        TomlValue::Table(t) => {
            let ghost es = table_view(t@);
            let ghost s0 = sources.view();
            proof {
                lemma_tv_table(*t);
                assert(es.skip(0) =~= es);
            }
            let mut i: usize = 0;
            while i < t.len()
                invariant
                    i <= t@.len(),
                    es == table_view(t@),
                    *val == TomlValue::Table(*t),
                    record_entries(es.skip(i as int), prefix@, layer, sources.view()) == record_entries(
                        es,
                        prefix@,
                        layer,
                        s0,
                    ),
                decreases t@.len() - i,
            {
                assert(es.skip(i as int)[0] == (t@[i as int].0@, tv(t@[i as int].1)));
                assert(es.skip(i as int).drop_first() =~= es.skip(i + 1));
                proof {
                    assert(decreases_to!(*val => val->Table_0));
                    assert(decreases_to!(*t => t@));
                    assert(decreases_to!(t@ => t@[i as int]));
                    assert(decreases_to!(t@[i as int] => t@[i as int].1));
                    reveal_strlit(".");
                }
                let path = crate::text::cat3(prefix, ".", t[i].0.as_str());
                assert(path@ =~= prefix@ + seq!['.'] + t@[i as int].0@);
                record_all_leaves(&t[i].1, path.as_str(), layer, sources);
                i = i + 1;
            }
            assert(es.skip(i as int) =~= Seq::<(Seq<char>, TomlView)>::empty());
        },
        _ => {
            sources.insert(String::from_str(prefix), layer);
        },
    }
}

/// Merge `overlay` into `base` as [`deep_merge`] does, recording in
/// `sources` that `layer` set each field the overlay set. `prefix` is the
/// dotted path of `base` (empty at the top).
pub fn deep_merge_tracking(
    base: &mut TomlValue,
    overlay: &TomlValue,
    prefix: &str,
    layer: &ConfigLayer,
    sources: &mut FieldSources,
)
    ensures
        (tv(*final(base)), final(sources).view()) == track_view(
            tv(*old(base)),
            tv(*overlay),
            prefix@,
            *layer,
            old(sources).view(),
        ),
    decreases overlay,
{
    let base_is_table = match base {
        TomlValue::Table(_) => true,
        _ => false,
    };
    match overlay {
        TomlValue::Table(ot) => {
            if !base_is_table {
                *base = clone_value(overlay);
                sources.insert(String::from_str(prefix), *layer);
                return;
            }
            let mut tmp = TomlValue::Boolean(false);
            std::mem::swap(base, &mut tmp);
            let mut bt = match tmp {
                TomlValue::Table(t) => t,
                _ => Vec::new(),
            };
            proof {
                lemma_tv_table(bt);
            }
            let ghost bt0 = table_view(bt@);
            let ghost s0 = sources.view();
            let ghost es = table_view(ot@);
            proof {
                lemma_tv_table(*ot);
                assert(es.skip(0) =~= es);
            }
            let mut i: usize = 0;
            while i < ot.len()
                invariant
                    i <= ot@.len(),
                    es == table_view(ot@),
                    *overlay == TomlValue::Table(*ot),
                    track_entries(table_view(bt@), es.skip(i as int), prefix@, *layer, sources.view())
                        == track_entries(bt0, es, prefix@, *layer, s0),
                decreases ot@.len() - i,
            {
                let ghost cur = table_view(bt@);
                let key = &ot[i].0;
                let ov = &ot[i].1;
                assert(es.skip(i as int)[0] == (key@, tv(*ov)));
                assert(es.skip(i as int).drop_first() =~= es.skip(i + 1));
                proof {
                    lemma_tindex(cur, key@);
                    assert(decreases_to!(*overlay => overlay->Table_0));
                    assert(decreases_to!(*ot => ot@));
                    assert(decreases_to!(ot@ => ot@[i as int]));
                    assert(decreases_to!(ot@[i as int] => ot@[i as int].1));
                }
                let path = join_path(prefix, key.as_str());
                let ov_is_table = match ov {
                    TomlValue::Table(_) => true,
                    _ => false,
                };
                match table_find(&bt, key.as_str()) {
                    Some(j) => {
                        let (k, mut bv) = bt.remove(j);
                        assert(cur[j as int] == (k@, tv(bv)));
                        if ov_is_table {
                            deep_merge_tracking(&mut bv, ov, path.as_str(), layer, sources);
                        } else {
                            bv = clone_value(ov);
                            sources.insert(path, *layer);
                        }
                        let ghost nv = tv(bv);
                        bt.insert(j, (k, bv));
                        assert(table_view(bt@) =~= cur.update(j as int, (key@, nv)));
                    },
                    None => {
                        bt = table_set(bt, key.clone(), clone_value(ov));
                        record_all_leaves(ov, path.as_str(), *layer, sources);
                    },
                }
                i = i + 1;
            }
            assert(es.skip(i as int) =~= Seq::<(Seq<char>, TomlView)>::empty());
            proof {
                lemma_tv_table(bt);
            }
            *base = TomlValue::Table(bt);
        },
        _ => {
            *base = clone_value(overlay);
            sources.insert(String::from_str(prefix), *layer);
        },
    }
}

} // verus!
