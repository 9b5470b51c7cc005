//! The restrictions taken together: each one's guarantee still holds
//! once all of them, and the server checks, have run.

use vstd::prelude::*;
use crate::merge::{
    apply_rule, apply_rules, budget_policy_rules, enforce_spec, lemma_apply_rules_concat,
    lemma_apply_rules_snoc, lemma_diverge_at, lemma_rule_guarantee_at, lemma_rules_frame,
    lemma_rules_keep_table, lemma_sanitize_frame, limits_rules, rule_guarantee, rules,
    workspace_security_rules, RuleKind,
    seg_allow, seg_allow_agent_hooks, seg_allow_command_hooks, seg_allow_http_hooks, seg_allow_wasm_hooks, seg_allowed_hosts, seg_allowed_paths, seg_api_key, seg_api_url, seg_approval_required_tools, seg_approval_secs, seg_approval_timeout_secs, seg_ask, seg_auto_allow_read, seg_auto_allow_write, seg_autonomous, seg_blocked_tools, seg_budget, seg_denied_hosts, seg_denied_paths, seg_deny, seg_elicitation_per_server_per_min, seg_escape_policy, seg_guided, seg_hooks, seg_idle_secs, seg_llm_max_attempts, seg_max_argument_size, seg_max_concurrent, seg_max_depth, seg_max_pending_requests, seg_mcp_max_attempts, seg_mode, seg_model, seg_never_allow, seg_per_action_max_usd, seg_policy, seg_rate_limits, seg_require_approval_for_delete, seg_require_approval_for_network, seg_require_signatures, seg_retry, seg_safe, seg_security, seg_servers, seg_session_max_usd, seg_subagents, seg_timeout_secs, seg_timeouts, seg_warn_at_percent, seg_workspace,
};
use crate::toml_value::{diverge, is_proper_prefix, parent_is_table, TomlView};

verus! {

/// Restriction `k` of `rs` parts ways with every other one.
pub open spec fn apart_from_others(rs: Seq<(RuleKind, Seq<Seq<char>>)>, k: int) -> bool {
    forall|i: int| 0 <= i < rs.len() && i != k ==> diverge(#[trigger] rs[i].1, rs[k].1)
}

/// A path that parts ways with `q` either parts ways with the table that
/// holds `q`'s last segment, or lies below that table.
proof fn lemma_apart_parent(p: Seq<Seq<char>>, q: Seq<Seq<char>>)
    requires
        diverge(p, q),
        q.len() > 0,
    ensures
        diverge(p, q.drop_last()) || is_proper_prefix(q.drop_last(), p),
{
    let r = q.drop_last();
    if !diverge(p, r) {
        let d = choose|d: int| 0 <= d < p.len() && d < q.len() && p[d] != q[d];
        if d < r.len() {
            assert(p[d] != r[d]);
        }
        assert(p.take(r.len() as int) =~= r) by {
            assert forall|x: int| 0 <= x < r.len() implies p.take(r.len() as int)[x] == r[x] by {
                if p[x] != r[x] {
                    assert(diverge(p, r));
                }
            }
        }
    }
}

/// In a list of restrictions whose paths part ways, restriction `k`'s
/// guarantee holds once the whole list has run, wherever the table that
/// holds its field exists at the start.
pub proof fn lemma_rules_guarantee(
    m: TomlView,
    b: TomlView,
    w: TomlView,
    rs: Seq<(RuleKind, Seq<Seq<char>>)>,
    k: int,
)
    requires
        0 <= k < rs.len(),
        apart_from_others(rs, k),
        parent_is_table(m, rs[k].1),
    ensures
        rule_guarantee(rs[k].0, rs[k].1, apply_rules(m, b, w, rs), b, w),
{
    let p = rs[k].1;
    let pre = rs.take(k);
    let post = rs.skip(k + 1);
    assert(rs =~= pre.push(rs[k]) + post);
    lemma_apply_rules_concat(m, b, w, pre.push(rs[k]), post);
    lemma_apply_rules_snoc(m, b, w, pre, rs[k]);
    let mk = apply_rules(m, b, w, pre);
    assert forall|i: int| 0 <= i < pre.len() implies diverge(#[trigger] pre[i].1, p.drop_last())
        || is_proper_prefix(p.drop_last(), pre[i].1) by {
        assert(pre[i] == rs[i]);
        assert(diverge(rs[i].1, rs[k].1));
        lemma_apart_parent(rs[i].1, p);
    }
    lemma_rules_keep_table(m, b, w, pre, p.drop_last());
    lemma_rule_guarantee_at(rs[k].0, mk, b, w, p);
    let mk1 = apply_rule(rs[k].0, mk, b, w, p);
    assert forall|i: int| 0 <= i < post.len() implies diverge(#[trigger] post[i].1, p) by {
        assert(post[i] == rs[k + 1 + i]);
    }
    lemma_rules_frame(mk1, b, w, post, p);
}

/// The restrictions, one by one.
proof fn lemma_rule_table()
    ensures
        rules().len() == 34,
        rules()[0] == (RuleKind::ClampFloat, seq![seg_budget(), seg_session_max_usd()]),
        rules()[1] == (RuleKind::ClampFloat, seq![seg_budget(), seg_per_action_max_usd()]),
        rules()[2] == (RuleKind::ClampInt, seq![seg_security(), seg_policy(), seg_max_argument_size()]),
        rules()[3] == (RuleKind::OnlyTrue, seq![seg_security(), seg_policy(), seg_require_approval_for_delete()]),
        rules()[4] == (RuleKind::OnlyTrue, seq![seg_security(), seg_policy(), seg_require_approval_for_network()]),
        rules()[5] == (RuleKind::Union, seq![seg_security(), seg_policy(), seg_blocked_tools()]),
        rules()[6] == (RuleKind::Union, seq![seg_security(), seg_policy(), seg_denied_paths()]),
        rules()[7] == (RuleKind::Union, seq![seg_security(), seg_policy(), seg_denied_hosts()]),
        rules()[8] == (RuleKind::Tighten(seq![seg_safe(), seg_guided(), seg_autonomous()]), seq![seg_workspace(), seg_mode()]),
        rules()[9] == (RuleKind::Tighten(seq![seg_deny(), seg_ask(), seg_allow()]), seq![seg_workspace(), seg_escape_policy()]),
        rules()[10] == (RuleKind::Union, seq![seg_workspace(), seg_never_allow()]),
        rules()[11] == (RuleKind::OnlyTrue, seq![seg_security(), seg_require_signatures()]),
        rules()[12] == (RuleKind::ClampInt, seq![seg_security(), seg_approval_timeout_secs()]),
        rules()[13] == (RuleKind::Union, seq![seg_security(), seg_policy(), seg_approval_required_tools()]),
        rules()[14] == (RuleKind::NoExpansion, seq![seg_security(), seg_policy(), seg_allowed_paths()]),
        rules()[15] == (RuleKind::NoExpansion, seq![seg_security(), seg_policy(), seg_allowed_hosts()]),
        rules()[16] == (RuleKind::NoExpansion, seq![seg_workspace(), seg_auto_allow_read()]),
        rules()[17] == (RuleKind::NoExpansion, seq![seg_workspace(), seg_auto_allow_write()]),
        rules()[18] == (RuleKind::NoOverride, seq![seg_model(), seg_api_key()]),
        rules()[19] == (RuleKind::NoOverride, seq![seg_model(), seg_api_url()]),
        rules()[20] == (RuleKind::OnlyFalse, seq![seg_hooks(), seg_allow_wasm_hooks()]),
        rules()[21] == (RuleKind::OnlyFalse, seq![seg_hooks(), seg_allow_agent_hooks()]),
        rules()[22] == (RuleKind::ClampInt, seq![seg_rate_limits(), seg_elicitation_per_server_per_min()]),
        rules()[23] == (RuleKind::ClampInt, seq![seg_rate_limits(), seg_max_pending_requests()]),
        rules()[24] == (RuleKind::ClampInt, seq![seg_budget(), seg_warn_at_percent()]),
        rules()[25] == (RuleKind::ClampInt, seq![seg_subagents(), seg_max_concurrent()]),
        rules()[26] == (RuleKind::ClampInt, seq![seg_subagents(), seg_max_depth()]),
        rules()[27] == (RuleKind::ClampInt, seq![seg_subagents(), seg_timeout_secs()]),
        rules()[28] == (RuleKind::ClampInt, seq![seg_retry(), seg_llm_max_attempts()]),
        rules()[29] == (RuleKind::ClampInt, seq![seg_retry(), seg_mcp_max_attempts()]),
        rules()[30] == (RuleKind::ClampInt, seq![seg_timeouts(), seg_approval_secs()]),
        rules()[31] == (RuleKind::ClampInt, seq![seg_timeouts(), seg_idle_secs()]),
        rules()[32] == (RuleKind::OnlyFalse, seq![seg_hooks(), seg_allow_http_hooks()]),
        rules()[33] == (RuleKind::OnlyFalse, seq![seg_hooks(), seg_allow_command_hooks()]),
{
    assert(budget_policy_rules()[0] == (RuleKind::ClampFloat, seq![seg_budget(), seg_session_max_usd()]));
    assert(budget_policy_rules()[1] == (RuleKind::ClampFloat, seq![seg_budget(), seg_per_action_max_usd()]));
    assert(budget_policy_rules()[2] == (RuleKind::ClampInt, seq![seg_security(), seg_policy(), seg_max_argument_size()]));
    assert(budget_policy_rules()[3] == (RuleKind::OnlyTrue, seq![seg_security(), seg_policy(), seg_require_approval_for_delete()]));
    assert(budget_policy_rules()[4] == (RuleKind::OnlyTrue, seq![seg_security(), seg_policy(), seg_require_approval_for_network()]));
    assert(budget_policy_rules()[5] == (RuleKind::Union, seq![seg_security(), seg_policy(), seg_blocked_tools()]));
    assert(budget_policy_rules()[6] == (RuleKind::Union, seq![seg_security(), seg_policy(), seg_denied_paths()]));
    assert(budget_policy_rules()[7] == (RuleKind::Union, seq![seg_security(), seg_policy(), seg_denied_hosts()]));
    assert(workspace_security_rules()[0] == (RuleKind::Tighten(seq![seg_safe(), seg_guided(), seg_autonomous()]), seq![seg_workspace(), seg_mode()]));
    assert(workspace_security_rules()[1] == (RuleKind::Tighten(seq![seg_deny(), seg_ask(), seg_allow()]), seq![seg_workspace(), seg_escape_policy()]));
    assert(workspace_security_rules()[2] == (RuleKind::Union, seq![seg_workspace(), seg_never_allow()]));
    assert(workspace_security_rules()[3] == (RuleKind::OnlyTrue, seq![seg_security(), seg_require_signatures()]));
    assert(workspace_security_rules()[4] == (RuleKind::ClampInt, seq![seg_security(), seg_approval_timeout_secs()]));
    assert(workspace_security_rules()[5] == (RuleKind::Union, seq![seg_security(), seg_policy(), seg_approval_required_tools()]));
    assert(workspace_security_rules()[6] == (RuleKind::NoExpansion, seq![seg_security(), seg_policy(), seg_allowed_paths()]));
    assert(workspace_security_rules()[7] == (RuleKind::NoExpansion, seq![seg_security(), seg_policy(), seg_allowed_hosts()]));
    assert(workspace_security_rules()[8] == (RuleKind::NoExpansion, seq![seg_workspace(), seg_auto_allow_read()]));
    assert(workspace_security_rules()[9] == (RuleKind::NoExpansion, seq![seg_workspace(), seg_auto_allow_write()]));
    assert(workspace_security_rules()[10] == (RuleKind::NoOverride, seq![seg_model(), seg_api_key()]));
    assert(workspace_security_rules()[11] == (RuleKind::NoOverride, seq![seg_model(), seg_api_url()]));
    assert(workspace_security_rules()[12] == (RuleKind::OnlyFalse, seq![seg_hooks(), seg_allow_wasm_hooks()]));
    assert(workspace_security_rules()[13] == (RuleKind::OnlyFalse, seq![seg_hooks(), seg_allow_agent_hooks()]));
    assert(limits_rules()[0] == (RuleKind::ClampInt, seq![seg_rate_limits(), seg_elicitation_per_server_per_min()]));
    assert(limits_rules()[1] == (RuleKind::ClampInt, seq![seg_rate_limits(), seg_max_pending_requests()]));
    assert(limits_rules()[2] == (RuleKind::ClampInt, seq![seg_budget(), seg_warn_at_percent()]));
    assert(limits_rules()[3] == (RuleKind::ClampInt, seq![seg_subagents(), seg_max_concurrent()]));
    assert(limits_rules()[4] == (RuleKind::ClampInt, seq![seg_subagents(), seg_max_depth()]));
    assert(limits_rules()[5] == (RuleKind::ClampInt, seq![seg_subagents(), seg_timeout_secs()]));
    assert(limits_rules()[6] == (RuleKind::ClampInt, seq![seg_retry(), seg_llm_max_attempts()]));
    assert(limits_rules()[7] == (RuleKind::ClampInt, seq![seg_retry(), seg_mcp_max_attempts()]));
    assert(limits_rules()[8] == (RuleKind::ClampInt, seq![seg_timeouts(), seg_approval_secs()]));
    assert(limits_rules()[9] == (RuleKind::ClampInt, seq![seg_timeouts(), seg_idle_secs()]));
    assert(limits_rules()[10] == (RuleKind::OnlyFalse, seq![seg_hooks(), seg_allow_http_hooks()]));
    assert(limits_rules()[11] == (RuleKind::OnlyFalse, seq![seg_hooks(), seg_allow_command_hooks()]));
}

/// The segments that tell the restrictions' paths apart differ.
proof fn lemma_segments_differ()
    ensures
        seg_allow_agent_hooks() != seg_allow_command_hooks(),
        seg_allow_agent_hooks() != seg_allow_http_hooks(),
        seg_allow_agent_hooks() != seg_allow_wasm_hooks(),
        seg_allow_command_hooks() != seg_allow_http_hooks(),
        seg_allow_command_hooks() != seg_allow_wasm_hooks(),
        seg_allow_http_hooks() != seg_allow_wasm_hooks(),
        seg_allowed_hosts() != seg_allowed_paths(),
        seg_allowed_hosts() != seg_approval_required_tools(),
        seg_allowed_hosts() != seg_blocked_tools(),
        seg_allowed_hosts() != seg_denied_hosts(),
        seg_allowed_hosts() != seg_denied_paths(),
        seg_allowed_hosts() != seg_max_argument_size(),
        seg_allowed_hosts() != seg_require_approval_for_delete(),
        seg_allowed_hosts() != seg_require_approval_for_network(),
        seg_allowed_paths() != seg_approval_required_tools(),
        seg_allowed_paths() != seg_blocked_tools(),
        seg_allowed_paths() != seg_denied_hosts(),
        seg_allowed_paths() != seg_denied_paths(),
        seg_allowed_paths() != seg_max_argument_size(),
        seg_allowed_paths() != seg_require_approval_for_delete(),
        seg_allowed_paths() != seg_require_approval_for_network(),
        seg_api_key() != seg_api_url(),
        seg_approval_required_tools() != seg_blocked_tools(),
        seg_approval_required_tools() != seg_denied_hosts(),
        seg_approval_required_tools() != seg_denied_paths(),
        seg_approval_required_tools() != seg_max_argument_size(),
        seg_approval_required_tools() != seg_require_approval_for_delete(),
        seg_approval_required_tools() != seg_require_approval_for_network(),
        seg_approval_secs() != seg_idle_secs(),
        seg_approval_timeout_secs() != seg_policy(),
        seg_approval_timeout_secs() != seg_require_signatures(),
        seg_auto_allow_read() != seg_auto_allow_write(),
        seg_auto_allow_read() != seg_escape_policy(),
        seg_auto_allow_read() != seg_mode(),
        seg_auto_allow_read() != seg_never_allow(),
        seg_auto_allow_write() != seg_escape_policy(),
        seg_auto_allow_write() != seg_mode(),
        seg_auto_allow_write() != seg_never_allow(),
        seg_blocked_tools() != seg_denied_hosts(),
        seg_blocked_tools() != seg_denied_paths(),
        seg_blocked_tools() != seg_max_argument_size(),
        seg_blocked_tools() != seg_require_approval_for_delete(),
        seg_blocked_tools() != seg_require_approval_for_network(),
        seg_budget() != seg_hooks(),
        seg_budget() != seg_model(),
        seg_budget() != seg_rate_limits(),
        seg_budget() != seg_retry(),
        seg_budget() != seg_security(),
        seg_budget() != seg_servers(),
        seg_budget() != seg_subagents(),
        seg_budget() != seg_timeouts(),
        seg_budget() != seg_workspace(),
        seg_denied_hosts() != seg_denied_paths(),
        seg_denied_hosts() != seg_max_argument_size(),
        seg_denied_hosts() != seg_require_approval_for_delete(),
        seg_denied_hosts() != seg_require_approval_for_network(),
        seg_denied_paths() != seg_max_argument_size(),
        seg_denied_paths() != seg_require_approval_for_delete(),
        seg_denied_paths() != seg_require_approval_for_network(),
        seg_elicitation_per_server_per_min() != seg_max_pending_requests(),
        seg_escape_policy() != seg_mode(),
        seg_escape_policy() != seg_never_allow(),
        seg_hooks() != seg_model(),
        seg_hooks() != seg_rate_limits(),
        seg_hooks() != seg_retry(),
        seg_hooks() != seg_security(),
        seg_hooks() != seg_servers(),
        seg_hooks() != seg_subagents(),
        seg_hooks() != seg_timeouts(),
        seg_hooks() != seg_workspace(),
        seg_llm_max_attempts() != seg_mcp_max_attempts(),
        seg_max_argument_size() != seg_require_approval_for_delete(),
        seg_max_argument_size() != seg_require_approval_for_network(),
        seg_max_concurrent() != seg_max_depth(),
        seg_max_concurrent() != seg_timeout_secs(),
        seg_max_depth() != seg_timeout_secs(),
        seg_mode() != seg_never_allow(),
        seg_model() != seg_rate_limits(),
        seg_model() != seg_retry(),
        seg_model() != seg_security(),
        seg_model() != seg_servers(),
        seg_model() != seg_subagents(),
        seg_model() != seg_timeouts(),
        seg_model() != seg_workspace(),
        seg_per_action_max_usd() != seg_session_max_usd(),
        seg_per_action_max_usd() != seg_warn_at_percent(),
        seg_policy() != seg_require_signatures(),
        seg_rate_limits() != seg_retry(),
        seg_rate_limits() != seg_security(),
        seg_rate_limits() != seg_servers(),
        seg_rate_limits() != seg_subagents(),
        seg_rate_limits() != seg_timeouts(),
        seg_rate_limits() != seg_workspace(),
        seg_require_approval_for_delete() != seg_require_approval_for_network(),
        seg_retry() != seg_security(),
        seg_retry() != seg_servers(),
        seg_retry() != seg_subagents(),
        seg_retry() != seg_timeouts(),
        seg_retry() != seg_workspace(),
        seg_security() != seg_servers(),
        seg_security() != seg_subagents(),
        seg_security() != seg_timeouts(),
        seg_security() != seg_workspace(),
        seg_servers() != seg_subagents(),
        seg_servers() != seg_timeouts(),
        seg_servers() != seg_workspace(),
        seg_session_max_usd() != seg_warn_at_percent(),
        seg_subagents() != seg_timeouts(),
        seg_subagents() != seg_workspace(),
        seg_timeouts() != seg_workspace(),
{
    assert(seg_allow_agent_hooks().len() == 17);
    assert(seg_allow_command_hooks().len() == 19);
    assert(seg_allow_http_hooks().len() == 16);
    assert(seg_allow_wasm_hooks().len() == 16);
    assert(seg_allowed_hosts().len() == 13);
    assert(seg_allowed_paths().len() == 13);
    assert(seg_api_key().len() == 7);
    assert(seg_api_url().len() == 7);
    assert(seg_approval_required_tools().len() == 23);
    assert(seg_approval_secs().len() == 13);
    assert(seg_approval_timeout_secs().len() == 21);
    assert(seg_auto_allow_read().len() == 15);
    assert(seg_auto_allow_write().len() == 16);
    assert(seg_blocked_tools().len() == 13);
    assert(seg_budget().len() == 6);
    assert(seg_denied_hosts().len() == 12);
    assert(seg_denied_paths().len() == 12);
    assert(seg_elicitation_per_server_per_min().len() == 30);
    assert(seg_escape_policy().len() == 13);
    assert(seg_hooks().len() == 5);
    assert(seg_idle_secs().len() == 9);
    assert(seg_llm_max_attempts().len() == 16);
    assert(seg_max_argument_size().len() == 17);
    assert(seg_max_concurrent().len() == 14);
    assert(seg_max_depth().len() == 9);
    assert(seg_max_pending_requests().len() == 20);
    assert(seg_mcp_max_attempts().len() == 16);
    assert(seg_mode().len() == 4);
    assert(seg_model().len() == 5);
    assert(seg_never_allow().len() == 11);
    assert(seg_per_action_max_usd().len() == 18);
    assert(seg_policy().len() == 6);
    assert(seg_rate_limits().len() == 11);
    assert(seg_require_approval_for_delete().len() == 27);
    assert(seg_require_approval_for_network().len() == 28);
    assert(seg_require_signatures().len() == 18);
    assert(seg_retry().len() == 5);
    assert(seg_security().len() == 8);
    assert(seg_servers().len() == 7);
    assert(seg_session_max_usd().len() == 15);
    assert(seg_subagents().len() == 9);
    assert(seg_timeout_secs().len() == 12);
    assert(seg_timeouts().len() == 8);
    assert(seg_warn_at_percent().len() == 15);
    assert(seg_workspace().len() == 9);
    assert(seg_allow_http_hooks()[6] != seg_allow_wasm_hooks()[6]);
    assert(seg_allowed_hosts()[8] != seg_allowed_paths()[8]);
    assert(seg_allowed_hosts()[0] != seg_blocked_tools()[0]);
    assert(seg_allowed_paths()[0] != seg_blocked_tools()[0]);
    assert(seg_api_key()[4] != seg_api_url()[4]);
    assert(seg_denied_hosts()[7] != seg_denied_paths()[7]);
    assert(seg_hooks()[0] != seg_model()[0]);
    assert(seg_hooks()[0] != seg_retry()[0]);
    assert(seg_llm_max_attempts()[0] != seg_mcp_max_attempts()[0]);
    assert(seg_model()[0] != seg_retry()[0]);
    assert(seg_security()[0] != seg_timeouts()[0]);
    assert(seg_session_max_usd()[0] != seg_warn_at_percent()[0]);
    assert(seg_subagents()[0] != seg_workspace()[0]);
}

/// Restriction `budget.session_max_usd` parts ways with the others, and lies outside `servers`.
proof fn lemma_apart_0()
    ensures
        apart_from_others(rules(), 0),
        rules()[0].1.len() > 0,
        rules()[0].1[0] != seg_servers(),
{
    lemma_rule_table();
    lemma_segments_differ();
    let pk = seq![seg_budget(), seg_session_max_usd()];
    assert forall|i: int| 0 <= i < rules().len() && i != 0 implies diverge(#[trigger] rules()[i].1, rules()[0].1) by {
        if i == 1 {
            lemma_diverge_at(seq![seg_budget(), seg_per_action_max_usd()], pk, 1);
        } else if i == 2 {
            lemma_diverge_at(seq![seg_security(), seg_policy(), seg_max_argument_size()], pk, 0);
        } else if i == 3 {
            lemma_diverge_at(seq![seg_security(), seg_policy(), seg_require_approval_for_delete()], pk, 0);
        } else if i == 4 {
            lemma_diverge_at(seq![seg_security(), seg_policy(), seg_require_approval_for_network()], pk, 0);
        } else if i == 5 {
            lemma_diverge_at(seq![seg_security(), seg_policy(), seg_blocked_tools()], pk, 0);
        } else if i == 6 {
            lemma_diverge_at(seq![seg_security(), seg_policy(), seg_denied_paths()], pk, 0);
        } else if i == 7 {
            lemma_diverge_at(seq![seg_security(), seg_policy(), seg_denied_hosts()], pk, 0);
        } else if i == 8 {
            lemma_diverge_at(seq![seg_workspace(), seg_mode()], pk, 0);
        } else if i == 9 {
            lemma_diverge_at(seq![seg_workspace(), seg_escape_policy()], pk, 0);
        } else if i == 10 {
            lemma_diverge_at(seq![seg_workspace(), seg_never_allow()], pk, 0);
        } else if i == 11 {
            lemma_diverge_at(seq![seg_security(), seg_require_signatures()], pk, 0);
        } else if i == 12 {
            lemma_diverge_at(seq![seg_security(), seg_approval_timeout_secs()], pk, 0);
        } else if i == 13 {
            lemma_diverge_at(seq![seg_security(), seg_policy(), seg_approval_required_tools()], pk, 0);
        } else if i == 14 {
            lemma_diverge_at(seq![seg_security(), seg_policy(), seg_allowed_paths()], pk, 0);
        } else if i == 15 {
            lemma_diverge_at(seq![seg_security(), seg_policy(), seg_allowed_hosts()], pk, 0);
        } else if i == 16 {
            lemma_diverge_at(seq![seg_workspace(), seg_auto_allow_read()], pk, 0);
        } else if i == 17 {
            lemma_diverge_at(seq![seg_workspace(), seg_auto_allow_write()], pk, 0);
        } else if i == 18 {
            lemma_diverge_at(seq![seg_model(), seg_api_key()], pk, 0);
        } else if i == 19 {
            lemma_diverge_at(seq![seg_model(), seg_api_url()], pk, 0);
        } else if i == 20 {
            lemma_diverge_at(seq![seg_hooks(), seg_allow_wasm_hooks()], pk, 0);
        } else if i == 21 {
            lemma_diverge_at(seq![seg_hooks(), seg_allow_agent_hooks()], pk, 0);
        } else if i == 22 {
            lemma_diverge_at(seq![seg_rate_limits(), seg_elicitation_per_server_per_min()], pk, 0);
        } else if i == 23 {
            lemma_diverge_at(seq![seg_rate_limits(), seg_max_pending_requests()], pk, 0);
        } else if i == 24 {
            lemma_diverge_at(seq![seg_budget(), seg_warn_at_percent()], pk, 1);
        } else if i == 25 {
            lemma_diverge_at(seq![seg_subagents(), seg_max_concurrent()], pk, 0);
        } else if i == 26 {
            lemma_diverge_at(seq![seg_subagents(), seg_max_depth()], pk, 0);
        } else if i == 27 {
            lemma_diverge_at(seq![seg_subagents(), seg_timeout_secs()], pk, 0);
        } else if i == 28 {
            lemma_diverge_at(seq![seg_retry(), seg_llm_max_attempts()], pk, 0);
        } else if i == 29 {
            lemma_diverge_at(seq![seg_retry(), seg_mcp_max_attempts()], pk, 0);
        } else if i == 30 {
            lemma_diverge_at(seq![seg_timeouts(), seg_approval_secs()], pk, 0);
        } else if i == 31 {
            lemma_diverge_at(seq![seg_timeouts(), seg_idle_secs()], pk, 0);
        } else if i == 32 {
            lemma_diverge_at(seq![seg_hooks(), seg_allow_http_hooks()], pk, 0);
        } else if i == 33 {
            lemma_diverge_at(seq![seg_hooks(), seg_allow_command_hooks()], pk, 0);
        }
    }
}

/// Restriction `budget.per_action_max_usd` parts ways with the others, and lies outside `servers`.
proof fn lemma_apart_1()
    ensures
        apart_from_others(rules(), 1),
        rules()[1].1.len() > 0,
        rules()[1].1[0] != seg_servers(),
{
    lemma_rule_table();
    lemma_segments_differ();
    let pk = seq![seg_budget(), seg_per_action_max_usd()];
    assert forall|i: int| 0 <= i < rules().len() && i != 1 implies diverge(#[trigger] rules()[i].1, rules()[1].1) by {
        if i == 0 {
            lemma_diverge_at(seq![seg_budget(), seg_session_max_usd()], pk, 1);
        } else if i == 2 {
            lemma_diverge_at(seq![seg_security(), seg_policy(), seg_max_argument_size()], pk, 0);
        } else if i == 3 {
            lemma_diverge_at(seq![seg_security(), seg_policy(), seg_require_approval_for_delete()], pk, 0);
        } else if i == 4 {
            lemma_diverge_at(seq![seg_security(), seg_policy(), seg_require_approval_for_network()], pk, 0);
        } else if i == 5 {
            lemma_diverge_at(seq![seg_security(), seg_policy(), seg_blocked_tools()], pk, 0);
        } else if i == 6 {
            lemma_diverge_at(seq![seg_security(), seg_policy(), seg_denied_paths()], pk, 0);
        } else if i == 7 {
            lemma_diverge_at(seq![seg_security(), seg_policy(), seg_denied_hosts()], pk, 0);
        } else if i == 8 {
            lemma_diverge_at(seq![seg_workspace(), seg_mode()], pk, 0);
        } else if i == 9 {
            lemma_diverge_at(seq![seg_workspace(), seg_escape_policy()], pk, 0);
        } else if i == 10 {
            lemma_diverge_at(seq![seg_workspace(), seg_never_allow()], pk, 0);
        } else if i == 11 {
            lemma_diverge_at(seq![seg_security(), seg_require_signatures()], pk, 0);
        } else if i == 12 {
            lemma_diverge_at(seq![seg_security(), seg_approval_timeout_secs()], pk, 0);
        } else if i == 13 {
            lemma_diverge_at(seq![seg_security(), seg_policy(), seg_approval_required_tools()], pk, 0);
        } else if i == 14 {
            lemma_diverge_at(seq![seg_security(), seg_policy(), seg_allowed_paths()], pk, 0);
        } else if i == 15 {
            lemma_diverge_at(seq![seg_security(), seg_policy(), seg_allowed_hosts()], pk, 0);
        } else if i == 16 {
            lemma_diverge_at(seq![seg_workspace(), seg_auto_allow_read()], pk, 0);
        } else if i == 17 {
            lemma_diverge_at(seq![seg_workspace(), seg_auto_allow_write()], pk, 0);
        } else if i == 18 {
            lemma_diverge_at(seq![seg_model(), seg_api_key()], pk, 0);
        } else if i == 19 {
            lemma_diverge_at(seq![seg_model(), seg_api_url()], pk, 0);
        } else if i == 20 {
            lemma_diverge_at(seq![seg_hooks(), seg_allow_wasm_hooks()], pk, 0);
        } else if i == 21 {
            lemma_diverge_at(seq![seg_hooks(), seg_allow_agent_hooks()], pk, 0);
        } else if i == 22 {
            lemma_diverge_at(seq![seg_rate_limits(), seg_elicitation_per_server_per_min()], pk, 0);
        } else if i == 23 {
            lemma_diverge_at(seq![seg_rate_limits(), seg_max_pending_requests()], pk, 0);
        } else if i == 24 {
            lemma_diverge_at(seq![seg_budget(), seg_warn_at_percent()], pk, 1);
        } else if i == 25 {
            lemma_diverge_at(seq![seg_subagents(), seg_max_concurrent()], pk, 0);
        } else if i == 26 {
            lemma_diverge_at(seq![seg_subagents(), seg_max_depth()], pk, 0);
        } else if i == 27 {
            lemma_diverge_at(seq![seg_subagents(), seg_timeout_secs()], pk, 0);
        } else if i == 28 {
            lemma_diverge_at(seq![seg_retry(), seg_llm_max_attempts()], pk, 0);
        } else if i == 29 {
            lemma_diverge_at(seq![seg_retry(), seg_mcp_max_attempts()], pk, 0);
        } else if i == 30 {
            lemma_diverge_at(seq![seg_timeouts(), seg_approval_secs()], pk, 0);
        } else if i == 31 {
            lemma_diverge_at(seq![seg_timeouts(), seg_idle_secs()], pk, 0);
        } else if i == 32 {
            lemma_diverge_at(seq![seg_hooks(), seg_allow_http_hooks()], pk, 0);
        } else if i == 33 {
            lemma_diverge_at(seq![seg_hooks(), seg_allow_command_hooks()], pk, 0);
        }
    }
}

/// Restriction `security.policy.max_argument_size` parts ways with the others, and lies outside `servers`.
proof fn lemma_apart_2()
    ensures
        apart_from_others(rules(), 2),
        rules()[2].1.len() > 0,
        rules()[2].1[0] != seg_servers(),
{
    lemma_rule_table();
    lemma_segments_differ();
    let pk = seq![seg_security(), seg_policy(), seg_max_argument_size()];
    assert forall|i: int| 0 <= i < rules().len() && i != 2 implies diverge(#[trigger] rules()[i].1, rules()[2].1) by {
        if i == 0 {
            lemma_diverge_at(seq![seg_budget(), seg_session_max_usd()], pk, 0);
        } else if i == 1 {
            lemma_diverge_at(seq![seg_budget(), seg_per_action_max_usd()], pk, 0);
        } else if i == 3 {
            lemma_diverge_at(seq![seg_security(), seg_policy(), seg_require_approval_for_delete()], pk, 2);
        } else if i == 4 {
            lemma_diverge_at(seq![seg_security(), seg_policy(), seg_require_approval_for_network()], pk, 2);
        } else if i == 5 {
            lemma_diverge_at(seq![seg_security(), seg_policy(), seg_blocked_tools()], pk, 2);
        } else if i == 6 {
            lemma_diverge_at(seq![seg_security(), seg_policy(), seg_denied_paths()], pk, 2);
        } else if i == 7 {
            lemma_diverge_at(seq![seg_security(), seg_policy(), seg_denied_hosts()], pk, 2);
        } else if i == 8 {
            lemma_diverge_at(seq![seg_workspace(), seg_mode()], pk, 0);
        } else if i == 9 {
            lemma_diverge_at(seq![seg_workspace(), seg_escape_policy()], pk, 0);
        } else if i == 10 {
            lemma_diverge_at(seq![seg_workspace(), seg_never_allow()], pk, 0);
        } else if i == 11 {
            lemma_diverge_at(seq![seg_security(), seg_require_signatures()], pk, 1);
        } else if i == 12 {
            lemma_diverge_at(seq![seg_security(), seg_approval_timeout_secs()], pk, 1);
        } else if i == 13 {
            lemma_diverge_at(seq![seg_security(), seg_policy(), seg_approval_required_tools()], pk, 2);
        } else if i == 14 {
            lemma_diverge_at(seq![seg_security(), seg_policy(), seg_allowed_paths()], pk, 2);
        } else if i == 15 {
            lemma_diverge_at(seq![seg_security(), seg_policy(), seg_allowed_hosts()], pk, 2);
        } else if i == 16 {
            lemma_diverge_at(seq![seg_workspace(), seg_auto_allow_read()], pk, 0);
        } else if i == 17 {
            lemma_diverge_at(seq![seg_workspace(), seg_auto_allow_write()], pk, 0);
        } else if i == 18 {
            lemma_diverge_at(seq![seg_model(), seg_api_key()], pk, 0);
        } else if i == 19 {
            lemma_diverge_at(seq![seg_model(), seg_api_url()], pk, 0);
        } else if i == 20 {
            lemma_diverge_at(seq![seg_hooks(), seg_allow_wasm_hooks()], pk, 0);
        } else if i == 21 {
            lemma_diverge_at(seq![seg_hooks(), seg_allow_agent_hooks()], pk, 0);
        } else if i == 22 {
            lemma_diverge_at(seq![seg_rate_limits(), seg_elicitation_per_server_per_min()], pk, 0);
        } else if i == 23 {
            lemma_diverge_at(seq![seg_rate_limits(), seg_max_pending_requests()], pk, 0);
        } else if i == 24 {
            lemma_diverge_at(seq![seg_budget(), seg_warn_at_percent()], pk, 0);
        } else if i == 25 {
            lemma_diverge_at(seq![seg_subagents(), seg_max_concurrent()], pk, 0);
        } else if i == 26 {
            lemma_diverge_at(seq![seg_subagents(), seg_max_depth()], pk, 0);
        } else if i == 27 {
            lemma_diverge_at(seq![seg_subagents(), seg_timeout_secs()], pk, 0);
        } else if i == 28 {
            lemma_diverge_at(seq![seg_retry(), seg_llm_max_attempts()], pk, 0);
        } else if i == 29 {
            lemma_diverge_at(seq![seg_retry(), seg_mcp_max_attempts()], pk, 0);
        } else if i == 30 {
            lemma_diverge_at(seq![seg_timeouts(), seg_approval_secs()], pk, 0);
        } else if i == 31 {
            lemma_diverge_at(seq![seg_timeouts(), seg_idle_secs()], pk, 0);
        } else if i == 32 {
            lemma_diverge_at(seq![seg_hooks(), seg_allow_http_hooks()], pk, 0);
        } else if i == 33 {
            lemma_diverge_at(seq![seg_hooks(), seg_allow_command_hooks()], pk, 0);
        }
    }
}

/// Restriction `security.policy.require_approval_for_delete` parts ways with the others, and lies outside `servers`.
proof fn lemma_apart_3()
    ensures
        apart_from_others(rules(), 3),
        rules()[3].1.len() > 0,
        rules()[3].1[0] != seg_servers(),
{
    lemma_rule_table();
    lemma_segments_differ();
    let pk = seq![seg_security(), seg_policy(), seg_require_approval_for_delete()];
    assert forall|i: int| 0 <= i < rules().len() && i != 3 implies diverge(#[trigger] rules()[i].1, rules()[3].1) by {
        if i == 0 {
            lemma_diverge_at(seq![seg_budget(), seg_session_max_usd()], pk, 0);
        } else if i == 1 {
            lemma_diverge_at(seq![seg_budget(), seg_per_action_max_usd()], pk, 0);
        } else if i == 2 {
            lemma_diverge_at(seq![seg_security(), seg_policy(), seg_max_argument_size()], pk, 2);
        } else if i == 4 {
            lemma_diverge_at(seq![seg_security(), seg_policy(), seg_require_approval_for_network()], pk, 2);
        } else if i == 5 {
            lemma_diverge_at(seq![seg_security(), seg_policy(), seg_blocked_tools()], pk, 2);
        } else if i == 6 {
            lemma_diverge_at(seq![seg_security(), seg_policy(), seg_denied_paths()], pk, 2);
        } else if i == 7 {
            lemma_diverge_at(seq![seg_security(), seg_policy(), seg_denied_hosts()], pk, 2);
        } else if i == 8 {
            lemma_diverge_at(seq![seg_workspace(), seg_mode()], pk, 0);
        } else if i == 9 {
            lemma_diverge_at(seq![seg_workspace(), seg_escape_policy()], pk, 0);
        } else if i == 10 {
            lemma_diverge_at(seq![seg_workspace(), seg_never_allow()], pk, 0);
        } else if i == 11 {
            lemma_diverge_at(seq![seg_security(), seg_require_signatures()], pk, 1);
        } else if i == 12 {
            lemma_diverge_at(seq![seg_security(), seg_approval_timeout_secs()], pk, 1);
        } else if i == 13 {
            lemma_diverge_at(seq![seg_security(), seg_policy(), seg_approval_required_tools()], pk, 2);
        } else if i == 14 {
            lemma_diverge_at(seq![seg_security(), seg_policy(), seg_allowed_paths()], pk, 2);
        } else if i == 15 {
            lemma_diverge_at(seq![seg_security(), seg_policy(), seg_allowed_hosts()], pk, 2);
        } else if i == 16 {
            lemma_diverge_at(seq![seg_workspace(), seg_auto_allow_read()], pk, 0);
        } else if i == 17 {
            lemma_diverge_at(seq![seg_workspace(), seg_auto_allow_write()], pk, 0);
        } else if i == 18 {
            lemma_diverge_at(seq![seg_model(), seg_api_key()], pk, 0);
        } else if i == 19 {
            lemma_diverge_at(seq![seg_model(), seg_api_url()], pk, 0);
        } else if i == 20 {
            lemma_diverge_at(seq![seg_hooks(), seg_allow_wasm_hooks()], pk, 0);
        } else if i == 21 {
            lemma_diverge_at(seq![seg_hooks(), seg_allow_agent_hooks()], pk, 0);
        } else if i == 22 {
            lemma_diverge_at(seq![seg_rate_limits(), seg_elicitation_per_server_per_min()], pk, 0);
        } else if i == 23 {
            lemma_diverge_at(seq![seg_rate_limits(), seg_max_pending_requests()], pk, 0);
        } else if i == 24 {
            lemma_diverge_at(seq![seg_budget(), seg_warn_at_percent()], pk, 0);
        } else if i == 25 {
            lemma_diverge_at(seq![seg_subagents(), seg_max_concurrent()], pk, 0);
        } else if i == 26 {
            lemma_diverge_at(seq![seg_subagents(), seg_max_depth()], pk, 0);
        } else if i == 27 {
            lemma_diverge_at(seq![seg_subagents(), seg_timeout_secs()], pk, 0);
        } else if i == 28 {
            lemma_diverge_at(seq![seg_retry(), seg_llm_max_attempts()], pk, 0);
        } else if i == 29 {
            lemma_diverge_at(seq![seg_retry(), seg_mcp_max_attempts()], pk, 0);
        } else if i == 30 {
            lemma_diverge_at(seq![seg_timeouts(), seg_approval_secs()], pk, 0);
        } else if i == 31 {
            lemma_diverge_at(seq![seg_timeouts(), seg_idle_secs()], pk, 0);
        } else if i == 32 {
            lemma_diverge_at(seq![seg_hooks(), seg_allow_http_hooks()], pk, 0);
        } else if i == 33 {
            lemma_diverge_at(seq![seg_hooks(), seg_allow_command_hooks()], pk, 0);
        }
    }
}

/// Restriction `security.policy.require_approval_for_network` parts ways with the others, and lies outside `servers`.
proof fn lemma_apart_4()
    ensures
        apart_from_others(rules(), 4),
        rules()[4].1.len() > 0,
        rules()[4].1[0] != seg_servers(),
{
    lemma_rule_table();
    lemma_segments_differ();
    let pk = seq![seg_security(), seg_policy(), seg_require_approval_for_network()];
    assert forall|i: int| 0 <= i < rules().len() && i != 4 implies diverge(#[trigger] rules()[i].1, rules()[4].1) by {
        if i == 0 {
            lemma_diverge_at(seq![seg_budget(), seg_session_max_usd()], pk, 0);
        } else if i == 1 {
            lemma_diverge_at(seq![seg_budget(), seg_per_action_max_usd()], pk, 0);
        } else if i == 2 {
            lemma_diverge_at(seq![seg_security(), seg_policy(), seg_max_argument_size()], pk, 2);
        } else if i == 3 {
            lemma_diverge_at(seq![seg_security(), seg_policy(), seg_require_approval_for_delete()], pk, 2);
        } else if i == 5 {
            lemma_diverge_at(seq![seg_security(), seg_policy(), seg_blocked_tools()], pk, 2);
        } else if i == 6 {
            lemma_diverge_at(seq![seg_security(), seg_policy(), seg_denied_paths()], pk, 2);
        } else if i == 7 {
            lemma_diverge_at(seq![seg_security(), seg_policy(), seg_denied_hosts()], pk, 2);
        } else if i == 8 {
            lemma_diverge_at(seq![seg_workspace(), seg_mode()], pk, 0);
        } else if i == 9 {
            lemma_diverge_at(seq![seg_workspace(), seg_escape_policy()], pk, 0);
        } else if i == 10 {
            lemma_diverge_at(seq![seg_workspace(), seg_never_allow()], pk, 0);
        } else if i == 11 {
            lemma_diverge_at(seq![seg_security(), seg_require_signatures()], pk, 1);
        } else if i == 12 {
            lemma_diverge_at(seq![seg_security(), seg_approval_timeout_secs()], pk, 1);
        } else if i == 13 {
            lemma_diverge_at(seq![seg_security(), seg_policy(), seg_approval_required_tools()], pk, 2);
        } else if i == 14 {
            lemma_diverge_at(seq![seg_security(), seg_policy(), seg_allowed_paths()], pk, 2);
        } else if i == 15 {
            lemma_diverge_at(seq![seg_security(), seg_policy(), seg_allowed_hosts()], pk, 2);
        } else if i == 16 {
            lemma_diverge_at(seq![seg_workspace(), seg_auto_allow_read()], pk, 0);
        } else if i == 17 {
            lemma_diverge_at(seq![seg_workspace(), seg_auto_allow_write()], pk, 0);
        } else if i == 18 {
            lemma_diverge_at(seq![seg_model(), seg_api_key()], pk, 0);
        } else if i == 19 {
            lemma_diverge_at(seq![seg_model(), seg_api_url()], pk, 0);
        } else if i == 20 {
            lemma_diverge_at(seq![seg_hooks(), seg_allow_wasm_hooks()], pk, 0);
        } else if i == 21 {
            lemma_diverge_at(seq![seg_hooks(), seg_allow_agent_hooks()], pk, 0);
        } else if i == 22 {
            lemma_diverge_at(seq![seg_rate_limits(), seg_elicitation_per_server_per_min()], pk, 0);
        } else if i == 23 {
            lemma_diverge_at(seq![seg_rate_limits(), seg_max_pending_requests()], pk, 0);
        } else if i == 24 {
            lemma_diverge_at(seq![seg_budget(), seg_warn_at_percent()], pk, 0);
        } else if i == 25 {
            lemma_diverge_at(seq![seg_subagents(), seg_max_concurrent()], pk, 0);
        } else if i == 26 {
            lemma_diverge_at(seq![seg_subagents(), seg_max_depth()], pk, 0);
        } else if i == 27 {
            lemma_diverge_at(seq![seg_subagents(), seg_timeout_secs()], pk, 0);
        } else if i == 28 {
            lemma_diverge_at(seq![seg_retry(), seg_llm_max_attempts()], pk, 0);
        } else if i == 29 {
            lemma_diverge_at(seq![seg_retry(), seg_mcp_max_attempts()], pk, 0);
        } else if i == 30 {
            lemma_diverge_at(seq![seg_timeouts(), seg_approval_secs()], pk, 0);
        } else if i == 31 {
            lemma_diverge_at(seq![seg_timeouts(), seg_idle_secs()], pk, 0);
        } else if i == 32 {
            lemma_diverge_at(seq![seg_hooks(), seg_allow_http_hooks()], pk, 0);
        } else if i == 33 {
            lemma_diverge_at(seq![seg_hooks(), seg_allow_command_hooks()], pk, 0);
        }
    }
}

/// Restriction `security.policy.blocked_tools` parts ways with the others, and lies outside `servers`.
proof fn lemma_apart_5()
    ensures
        apart_from_others(rules(), 5),
        rules()[5].1.len() > 0,
        rules()[5].1[0] != seg_servers(),
{
    lemma_rule_table();
    lemma_segments_differ();
    let pk = seq![seg_security(), seg_policy(), seg_blocked_tools()];
    assert forall|i: int| 0 <= i < rules().len() && i != 5 implies diverge(#[trigger] rules()[i].1, rules()[5].1) by {
        if i == 0 {
            lemma_diverge_at(seq![seg_budget(), seg_session_max_usd()], pk, 0);
        } else if i == 1 {
            lemma_diverge_at(seq![seg_budget(), seg_per_action_max_usd()], pk, 0);
        } else if i == 2 {
            lemma_diverge_at(seq![seg_security(), seg_policy(), seg_max_argument_size()], pk, 2);
        } else if i == 3 {
            lemma_diverge_at(seq![seg_security(), seg_policy(), seg_require_approval_for_delete()], pk, 2);
        } else if i == 4 {
            lemma_diverge_at(seq![seg_security(), seg_policy(), seg_require_approval_for_network()], pk, 2);
        } else if i == 6 {
            lemma_diverge_at(seq![seg_security(), seg_policy(), seg_denied_paths()], pk, 2);
        } else if i == 7 {
            lemma_diverge_at(seq![seg_security(), seg_policy(), seg_denied_hosts()], pk, 2);
        } else if i == 8 {
            lemma_diverge_at(seq![seg_workspace(), seg_mode()], pk, 0);
        } else if i == 9 {
            lemma_diverge_at(seq![seg_workspace(), seg_escape_policy()], pk, 0);
        } else if i == 10 {
            lemma_diverge_at(seq![seg_workspace(), seg_never_allow()], pk, 0);
        } else if i == 11 {
            lemma_diverge_at(seq![seg_security(), seg_require_signatures()], pk, 1);
        } else if i == 12 {
            lemma_diverge_at(seq![seg_security(), seg_approval_timeout_secs()], pk, 1);
        } else if i == 13 {
            lemma_diverge_at(seq![seg_security(), seg_policy(), seg_approval_required_tools()], pk, 2);
        } else if i == 14 {
            lemma_diverge_at(seq![seg_security(), seg_policy(), seg_allowed_paths()], pk, 2);
        } else if i == 15 {
            lemma_diverge_at(seq![seg_security(), seg_policy(), seg_allowed_hosts()], pk, 2);
        } else if i == 16 {
            lemma_diverge_at(seq![seg_workspace(), seg_auto_allow_read()], pk, 0);
        } else if i == 17 {
            lemma_diverge_at(seq![seg_workspace(), seg_auto_allow_write()], pk, 0);
        } else if i == 18 {
            lemma_diverge_at(seq![seg_model(), seg_api_key()], pk, 0);
        } else if i == 19 {
            lemma_diverge_at(seq![seg_model(), seg_api_url()], pk, 0);
        } else if i == 20 {
            lemma_diverge_at(seq![seg_hooks(), seg_allow_wasm_hooks()], pk, 0);
        } else if i == 21 {
            lemma_diverge_at(seq![seg_hooks(), seg_allow_agent_hooks()], pk, 0);
        } else if i == 22 {
            lemma_diverge_at(seq![seg_rate_limits(), seg_elicitation_per_server_per_min()], pk, 0);
        } else if i == 23 {
            lemma_diverge_at(seq![seg_rate_limits(), seg_max_pending_requests()], pk, 0);
        } else if i == 24 {
            lemma_diverge_at(seq![seg_budget(), seg_warn_at_percent()], pk, 0);
        } else if i == 25 {
            lemma_diverge_at(seq![seg_subagents(), seg_max_concurrent()], pk, 0);
        } else if i == 26 {
            lemma_diverge_at(seq![seg_subagents(), seg_max_depth()], pk, 0);
        } else if i == 27 {
            lemma_diverge_at(seq![seg_subagents(), seg_timeout_secs()], pk, 0);
        } else if i == 28 {
            lemma_diverge_at(seq![seg_retry(), seg_llm_max_attempts()], pk, 0);
        } else if i == 29 {
            lemma_diverge_at(seq![seg_retry(), seg_mcp_max_attempts()], pk, 0);
        } else if i == 30 {
            lemma_diverge_at(seq![seg_timeouts(), seg_approval_secs()], pk, 0);
        } else if i == 31 {
            lemma_diverge_at(seq![seg_timeouts(), seg_idle_secs()], pk, 0);
        } else if i == 32 {
            lemma_diverge_at(seq![seg_hooks(), seg_allow_http_hooks()], pk, 0);
        } else if i == 33 {
            lemma_diverge_at(seq![seg_hooks(), seg_allow_command_hooks()], pk, 0);
        }
    }
}

/// Restriction `security.policy.denied_paths` parts ways with the others, and lies outside `servers`.
proof fn lemma_apart_6()
    ensures
        apart_from_others(rules(), 6),
        rules()[6].1.len() > 0,
        rules()[6].1[0] != seg_servers(),
{
    lemma_rule_table();
    lemma_segments_differ();
    let pk = seq![seg_security(), seg_policy(), seg_denied_paths()];
    assert forall|i: int| 0 <= i < rules().len() && i != 6 implies diverge(#[trigger] rules()[i].1, rules()[6].1) by {
        if i == 0 {
            lemma_diverge_at(seq![seg_budget(), seg_session_max_usd()], pk, 0);
        } else if i == 1 {
            lemma_diverge_at(seq![seg_budget(), seg_per_action_max_usd()], pk, 0);
        } else if i == 2 {
            lemma_diverge_at(seq![seg_security(), seg_policy(), seg_max_argument_size()], pk, 2);
        } else if i == 3 {
            lemma_diverge_at(seq![seg_security(), seg_policy(), seg_require_approval_for_delete()], pk, 2);
        } else if i == 4 {
            lemma_diverge_at(seq![seg_security(), seg_policy(), seg_require_approval_for_network()], pk, 2);
        } else if i == 5 {
            lemma_diverge_at(seq![seg_security(), seg_policy(), seg_blocked_tools()], pk, 2);
        } else if i == 7 {
            lemma_diverge_at(seq![seg_security(), seg_policy(), seg_denied_hosts()], pk, 2);
        } else if i == 8 {
            lemma_diverge_at(seq![seg_workspace(), seg_mode()], pk, 0);
        } else if i == 9 {
            lemma_diverge_at(seq![seg_workspace(), seg_escape_policy()], pk, 0);
        } else if i == 10 {
            lemma_diverge_at(seq![seg_workspace(), seg_never_allow()], pk, 0);
        } else if i == 11 {
            lemma_diverge_at(seq![seg_security(), seg_require_signatures()], pk, 1);
        } else if i == 12 {
            lemma_diverge_at(seq![seg_security(), seg_approval_timeout_secs()], pk, 1);
        } else if i == 13 {
            lemma_diverge_at(seq![seg_security(), seg_policy(), seg_approval_required_tools()], pk, 2);
        } else if i == 14 {
            lemma_diverge_at(seq![seg_security(), seg_policy(), seg_allowed_paths()], pk, 2);
        } else if i == 15 {
            lemma_diverge_at(seq![seg_security(), seg_policy(), seg_allowed_hosts()], pk, 2);
        } else if i == 16 {
            lemma_diverge_at(seq![seg_workspace(), seg_auto_allow_read()], pk, 0);
        } else if i == 17 {
            lemma_diverge_at(seq![seg_workspace(), seg_auto_allow_write()], pk, 0);
        } else if i == 18 {
            lemma_diverge_at(seq![seg_model(), seg_api_key()], pk, 0);
        } else if i == 19 {
            lemma_diverge_at(seq![seg_model(), seg_api_url()], pk, 0);
        } else if i == 20 {
            lemma_diverge_at(seq![seg_hooks(), seg_allow_wasm_hooks()], pk, 0);
        } else if i == 21 {
            lemma_diverge_at(seq![seg_hooks(), seg_allow_agent_hooks()], pk, 0);
        } else if i == 22 {
            lemma_diverge_at(seq![seg_rate_limits(), seg_elicitation_per_server_per_min()], pk, 0);
        } else if i == 23 {
            lemma_diverge_at(seq![seg_rate_limits(), seg_max_pending_requests()], pk, 0);
        } else if i == 24 {
            lemma_diverge_at(seq![seg_budget(), seg_warn_at_percent()], pk, 0);
        } else if i == 25 {
            lemma_diverge_at(seq![seg_subagents(), seg_max_concurrent()], pk, 0);
        } else if i == 26 {
            lemma_diverge_at(seq![seg_subagents(), seg_max_depth()], pk, 0);
        } else if i == 27 {
            lemma_diverge_at(seq![seg_subagents(), seg_timeout_secs()], pk, 0);
        } else if i == 28 {
            lemma_diverge_at(seq![seg_retry(), seg_llm_max_attempts()], pk, 0);
        } else if i == 29 {
            lemma_diverge_at(seq![seg_retry(), seg_mcp_max_attempts()], pk, 0);
        } else if i == 30 {
            lemma_diverge_at(seq![seg_timeouts(), seg_approval_secs()], pk, 0);
        } else if i == 31 {
            lemma_diverge_at(seq![seg_timeouts(), seg_idle_secs()], pk, 0);
        } else if i == 32 {
            lemma_diverge_at(seq![seg_hooks(), seg_allow_http_hooks()], pk, 0);
        } else if i == 33 {
            lemma_diverge_at(seq![seg_hooks(), seg_allow_command_hooks()], pk, 0);
        }
    }
}

/// Restriction `security.policy.denied_hosts` parts ways with the others, and lies outside `servers`.
proof fn lemma_apart_7()
    ensures
        apart_from_others(rules(), 7),
        rules()[7].1.len() > 0,
        rules()[7].1[0] != seg_servers(),
{
    lemma_rule_table();
    lemma_segments_differ();
    let pk = seq![seg_security(), seg_policy(), seg_denied_hosts()];
    assert forall|i: int| 0 <= i < rules().len() && i != 7 implies diverge(#[trigger] rules()[i].1, rules()[7].1) by {
        if i == 0 {
            lemma_diverge_at(seq![seg_budget(), seg_session_max_usd()], pk, 0);
        } else if i == 1 {
            lemma_diverge_at(seq![seg_budget(), seg_per_action_max_usd()], pk, 0);
        } else if i == 2 {
            lemma_diverge_at(seq![seg_security(), seg_policy(), seg_max_argument_size()], pk, 2);
        } else if i == 3 {
            lemma_diverge_at(seq![seg_security(), seg_policy(), seg_require_approval_for_delete()], pk, 2);
        } else if i == 4 {
            lemma_diverge_at(seq![seg_security(), seg_policy(), seg_require_approval_for_network()], pk, 2);
        } else if i == 5 {
            lemma_diverge_at(seq![seg_security(), seg_policy(), seg_blocked_tools()], pk, 2);
        } else if i == 6 {
            lemma_diverge_at(seq![seg_security(), seg_policy(), seg_denied_paths()], pk, 2);
        } else if i == 8 {
            lemma_diverge_at(seq![seg_workspace(), seg_mode()], pk, 0);
        } else if i == 9 {
            lemma_diverge_at(seq![seg_workspace(), seg_escape_policy()], pk, 0);
        } else if i == 10 {
            lemma_diverge_at(seq![seg_workspace(), seg_never_allow()], pk, 0);
        } else if i == 11 {
            lemma_diverge_at(seq![seg_security(), seg_require_signatures()], pk, 1);
        } else if i == 12 {
            lemma_diverge_at(seq![seg_security(), seg_approval_timeout_secs()], pk, 1);
        } else if i == 13 {
            lemma_diverge_at(seq![seg_security(), seg_policy(), seg_approval_required_tools()], pk, 2);
        } else if i == 14 {
            lemma_diverge_at(seq![seg_security(), seg_policy(), seg_allowed_paths()], pk, 2);
        } else if i == 15 {
            lemma_diverge_at(seq![seg_security(), seg_policy(), seg_allowed_hosts()], pk, 2);
        } else if i == 16 {
            lemma_diverge_at(seq![seg_workspace(), seg_auto_allow_read()], pk, 0);
        } else if i == 17 {
            lemma_diverge_at(seq![seg_workspace(), seg_auto_allow_write()], pk, 0);
        } else if i == 18 {
            lemma_diverge_at(seq![seg_model(), seg_api_key()], pk, 0);
        } else if i == 19 {
            lemma_diverge_at(seq![seg_model(), seg_api_url()], pk, 0);
        } else if i == 20 {
            lemma_diverge_at(seq![seg_hooks(), seg_allow_wasm_hooks()], pk, 0);
        } else if i == 21 {
            lemma_diverge_at(seq![seg_hooks(), seg_allow_agent_hooks()], pk, 0);
        } else if i == 22 {
            lemma_diverge_at(seq![seg_rate_limits(), seg_elicitation_per_server_per_min()], pk, 0);
        } else if i == 23 {
            lemma_diverge_at(seq![seg_rate_limits(), seg_max_pending_requests()], pk, 0);
        } else if i == 24 {
            lemma_diverge_at(seq![seg_budget(), seg_warn_at_percent()], pk, 0);
        } else if i == 25 {
            lemma_diverge_at(seq![seg_subagents(), seg_max_concurrent()], pk, 0);
        } else if i == 26 {
            lemma_diverge_at(seq![seg_subagents(), seg_max_depth()], pk, 0);
        } else if i == 27 {
            lemma_diverge_at(seq![seg_subagents(), seg_timeout_secs()], pk, 0);
        } else if i == 28 {
            lemma_diverge_at(seq![seg_retry(), seg_llm_max_attempts()], pk, 0);
        } else if i == 29 {
            lemma_diverge_at(seq![seg_retry(), seg_mcp_max_attempts()], pk, 0);
        } else if i == 30 {
            lemma_diverge_at(seq![seg_timeouts(), seg_approval_secs()], pk, 0);
        } else if i == 31 {
            lemma_diverge_at(seq![seg_timeouts(), seg_idle_secs()], pk, 0);
        } else if i == 32 {
            lemma_diverge_at(seq![seg_hooks(), seg_allow_http_hooks()], pk, 0);
        } else if i == 33 {
            lemma_diverge_at(seq![seg_hooks(), seg_allow_command_hooks()], pk, 0);
        }
    }
}

/// Restriction `workspace.mode` parts ways with the others, and lies outside `servers`.
proof fn lemma_apart_8()
    ensures
        apart_from_others(rules(), 8),
        rules()[8].1.len() > 0,
        rules()[8].1[0] != seg_servers(),
{
    lemma_rule_table();
    lemma_segments_differ();
    let pk = seq![seg_workspace(), seg_mode()];
    assert forall|i: int| 0 <= i < rules().len() && i != 8 implies diverge(#[trigger] rules()[i].1, rules()[8].1) by {
        if i == 0 {
            lemma_diverge_at(seq![seg_budget(), seg_session_max_usd()], pk, 0);
        } else if i == 1 {
            lemma_diverge_at(seq![seg_budget(), seg_per_action_max_usd()], pk, 0);
        } else if i == 2 {
            lemma_diverge_at(seq![seg_security(), seg_policy(), seg_max_argument_size()], pk, 0);
        } else if i == 3 {
            lemma_diverge_at(seq![seg_security(), seg_policy(), seg_require_approval_for_delete()], pk, 0);
        } else if i == 4 {
            lemma_diverge_at(seq![seg_security(), seg_policy(), seg_require_approval_for_network()], pk, 0);
        } else if i == 5 {
            lemma_diverge_at(seq![seg_security(), seg_policy(), seg_blocked_tools()], pk, 0);
        } else if i == 6 {
            lemma_diverge_at(seq![seg_security(), seg_policy(), seg_denied_paths()], pk, 0);
        } else if i == 7 {
            lemma_diverge_at(seq![seg_security(), seg_policy(), seg_denied_hosts()], pk, 0);
        } else if i == 9 {
            lemma_diverge_at(seq![seg_workspace(), seg_escape_policy()], pk, 1);
        } else if i == 10 {
            lemma_diverge_at(seq![seg_workspace(), seg_never_allow()], pk, 1);
        } else if i == 11 {
            lemma_diverge_at(seq![seg_security(), seg_require_signatures()], pk, 0);
        } else if i == 12 {
            lemma_diverge_at(seq![seg_security(), seg_approval_timeout_secs()], pk, 0);
        } else if i == 13 {
            lemma_diverge_at(seq![seg_security(), seg_policy(), seg_approval_required_tools()], pk, 0);
        } else if i == 14 {
            lemma_diverge_at(seq![seg_security(), seg_policy(), seg_allowed_paths()], pk, 0);
        } else if i == 15 {
            lemma_diverge_at(seq![seg_security(), seg_policy(), seg_allowed_hosts()], pk, 0);
        } else if i == 16 {
            lemma_diverge_at(seq![seg_workspace(), seg_auto_allow_read()], pk, 1);
        } else if i == 17 {
            lemma_diverge_at(seq![seg_workspace(), seg_auto_allow_write()], pk, 1);
        } else if i == 18 {
            lemma_diverge_at(seq![seg_model(), seg_api_key()], pk, 0);
        } else if i == 19 {
            lemma_diverge_at(seq![seg_model(), seg_api_url()], pk, 0);
        } else if i == 20 {
            lemma_diverge_at(seq![seg_hooks(), seg_allow_wasm_hooks()], pk, 0);
        } else if i == 21 {
            lemma_diverge_at(seq![seg_hooks(), seg_allow_agent_hooks()], pk, 0);
        } else if i == 22 {
            lemma_diverge_at(seq![seg_rate_limits(), seg_elicitation_per_server_per_min()], pk, 0);
        } else if i == 23 {
            lemma_diverge_at(seq![seg_rate_limits(), seg_max_pending_requests()], pk, 0);
        } else if i == 24 {
            lemma_diverge_at(seq![seg_budget(), seg_warn_at_percent()], pk, 0);
        } else if i == 25 {
            lemma_diverge_at(seq![seg_subagents(), seg_max_concurrent()], pk, 0);
        } else if i == 26 {
            lemma_diverge_at(seq![seg_subagents(), seg_max_depth()], pk, 0);
        } else if i == 27 {
            lemma_diverge_at(seq![seg_subagents(), seg_timeout_secs()], pk, 0);
        } else if i == 28 {
            lemma_diverge_at(seq![seg_retry(), seg_llm_max_attempts()], pk, 0);
        } else if i == 29 {
            lemma_diverge_at(seq![seg_retry(), seg_mcp_max_attempts()], pk, 0);
        } else if i == 30 {
            lemma_diverge_at(seq![seg_timeouts(), seg_approval_secs()], pk, 0);
        } else if i == 31 {
            lemma_diverge_at(seq![seg_timeouts(), seg_idle_secs()], pk, 0);
        } else if i == 32 {
            lemma_diverge_at(seq![seg_hooks(), seg_allow_http_hooks()], pk, 0);
        } else if i == 33 {
            lemma_diverge_at(seq![seg_hooks(), seg_allow_command_hooks()], pk, 0);
        }
    }
}

/// Restriction `workspace.escape_policy` parts ways with the others, and lies outside `servers`.
proof fn lemma_apart_9()
    ensures
        apart_from_others(rules(), 9),
        rules()[9].1.len() > 0,
        rules()[9].1[0] != seg_servers(),
{
    lemma_rule_table();
    lemma_segments_differ();
    let pk = seq![seg_workspace(), seg_escape_policy()];
    assert forall|i: int| 0 <= i < rules().len() && i != 9 implies diverge(#[trigger] rules()[i].1, rules()[9].1) by {
        if i == 0 {
            lemma_diverge_at(seq![seg_budget(), seg_session_max_usd()], pk, 0);
        } else if i == 1 {
            lemma_diverge_at(seq![seg_budget(), seg_per_action_max_usd()], pk, 0);
        } else if i == 2 {
            lemma_diverge_at(seq![seg_security(), seg_policy(), seg_max_argument_size()], pk, 0);
        } else if i == 3 {
            lemma_diverge_at(seq![seg_security(), seg_policy(), seg_require_approval_for_delete()], pk, 0);
        } else if i == 4 {
            lemma_diverge_at(seq![seg_security(), seg_policy(), seg_require_approval_for_network()], pk, 0);
        } else if i == 5 {
            lemma_diverge_at(seq![seg_security(), seg_policy(), seg_blocked_tools()], pk, 0);
        } else if i == 6 {
            lemma_diverge_at(seq![seg_security(), seg_policy(), seg_denied_paths()], pk, 0);
        } else if i == 7 {
            lemma_diverge_at(seq![seg_security(), seg_policy(), seg_denied_hosts()], pk, 0);
        } else if i == 8 {
            lemma_diverge_at(seq![seg_workspace(), seg_mode()], pk, 1);
        } else if i == 10 {
            lemma_diverge_at(seq![seg_workspace(), seg_never_allow()], pk, 1);
        } else if i == 11 {
            lemma_diverge_at(seq![seg_security(), seg_require_signatures()], pk, 0);
        } else if i == 12 {
            lemma_diverge_at(seq![seg_security(), seg_approval_timeout_secs()], pk, 0);
        } else if i == 13 {
            lemma_diverge_at(seq![seg_security(), seg_policy(), seg_approval_required_tools()], pk, 0);
        } else if i == 14 {
            lemma_diverge_at(seq![seg_security(), seg_policy(), seg_allowed_paths()], pk, 0);
        } else if i == 15 {
            lemma_diverge_at(seq![seg_security(), seg_policy(), seg_allowed_hosts()], pk, 0);
        } else if i == 16 {
            lemma_diverge_at(seq![seg_workspace(), seg_auto_allow_read()], pk, 1);
        } else if i == 17 {
            lemma_diverge_at(seq![seg_workspace(), seg_auto_allow_write()], pk, 1);
        } else if i == 18 {
            lemma_diverge_at(seq![seg_model(), seg_api_key()], pk, 0);
        } else if i == 19 {
            lemma_diverge_at(seq![seg_model(), seg_api_url()], pk, 0);
        } else if i == 20 {
            lemma_diverge_at(seq![seg_hooks(), seg_allow_wasm_hooks()], pk, 0);
        } else if i == 21 {
            lemma_diverge_at(seq![seg_hooks(), seg_allow_agent_hooks()], pk, 0);
        } else if i == 22 {
            lemma_diverge_at(seq![seg_rate_limits(), seg_elicitation_per_server_per_min()], pk, 0);
        } else if i == 23 {
            lemma_diverge_at(seq![seg_rate_limits(), seg_max_pending_requests()], pk, 0);
        } else if i == 24 {
            lemma_diverge_at(seq![seg_budget(), seg_warn_at_percent()], pk, 0);
        } else if i == 25 {
            lemma_diverge_at(seq![seg_subagents(), seg_max_concurrent()], pk, 0);
        } else if i == 26 {
            lemma_diverge_at(seq![seg_subagents(), seg_max_depth()], pk, 0);
        } else if i == 27 {
            lemma_diverge_at(seq![seg_subagents(), seg_timeout_secs()], pk, 0);
        } else if i == 28 {
            lemma_diverge_at(seq![seg_retry(), seg_llm_max_attempts()], pk, 0);
        } else if i == 29 {
            lemma_diverge_at(seq![seg_retry(), seg_mcp_max_attempts()], pk, 0);
        } else if i == 30 {
            lemma_diverge_at(seq![seg_timeouts(), seg_approval_secs()], pk, 0);
        } else if i == 31 {
            lemma_diverge_at(seq![seg_timeouts(), seg_idle_secs()], pk, 0);
        } else if i == 32 {
            lemma_diverge_at(seq![seg_hooks(), seg_allow_http_hooks()], pk, 0);
        } else if i == 33 {
            lemma_diverge_at(seq![seg_hooks(), seg_allow_command_hooks()], pk, 0);
        }
    }
}

/// Restriction `workspace.never_allow` parts ways with the others, and lies outside `servers`.
proof fn lemma_apart_10()
    ensures
        apart_from_others(rules(), 10),
        rules()[10].1.len() > 0,
        rules()[10].1[0] != seg_servers(),
{
    lemma_rule_table();
    lemma_segments_differ();
    let pk = seq![seg_workspace(), seg_never_allow()];
    assert forall|i: int| 0 <= i < rules().len() && i != 10 implies diverge(#[trigger] rules()[i].1, rules()[10].1) by {
        if i == 0 {
            lemma_diverge_at(seq![seg_budget(), seg_session_max_usd()], pk, 0);
        } else if i == 1 {
            lemma_diverge_at(seq![seg_budget(), seg_per_action_max_usd()], pk, 0);
        } else if i == 2 {
            lemma_diverge_at(seq![seg_security(), seg_policy(), seg_max_argument_size()], pk, 0);
        } else if i == 3 {
            lemma_diverge_at(seq![seg_security(), seg_policy(), seg_require_approval_for_delete()], pk, 0);
        } else if i == 4 {
            lemma_diverge_at(seq![seg_security(), seg_policy(), seg_require_approval_for_network()], pk, 0);
        } else if i == 5 {
            lemma_diverge_at(seq![seg_security(), seg_policy(), seg_blocked_tools()], pk, 0);
        } else if i == 6 {
            lemma_diverge_at(seq![seg_security(), seg_policy(), seg_denied_paths()], pk, 0);
        } else if i == 7 {
            lemma_diverge_at(seq![seg_security(), seg_policy(), seg_denied_hosts()], pk, 0);
        } else if i == 8 {
            lemma_diverge_at(seq![seg_workspace(), seg_mode()], pk, 1);
        } else if i == 9 {
            lemma_diverge_at(seq![seg_workspace(), seg_escape_policy()], pk, 1);
        } else if i == 11 {
            lemma_diverge_at(seq![seg_security(), seg_require_signatures()], pk, 0);
        } else if i == 12 {
            lemma_diverge_at(seq![seg_security(), seg_approval_timeout_secs()], pk, 0);
        } else if i == 13 {
            lemma_diverge_at(seq![seg_security(), seg_policy(), seg_approval_required_tools()], pk, 0);
        } else if i == 14 {
            lemma_diverge_at(seq![seg_security(), seg_policy(), seg_allowed_paths()], pk, 0);
        } else if i == 15 {
            lemma_diverge_at(seq![seg_security(), seg_policy(), seg_allowed_hosts()], pk, 0);
        } else if i == 16 {
            lemma_diverge_at(seq![seg_workspace(), seg_auto_allow_read()], pk, 1);
        } else if i == 17 {
            lemma_diverge_at(seq![seg_workspace(), seg_auto_allow_write()], pk, 1);
        } else if i == 18 {
            lemma_diverge_at(seq![seg_model(), seg_api_key()], pk, 0);
        } else if i == 19 {
            lemma_diverge_at(seq![seg_model(), seg_api_url()], pk, 0);
        } else if i == 20 {
            lemma_diverge_at(seq![seg_hooks(), seg_allow_wasm_hooks()], pk, 0);
        } else if i == 21 {
            lemma_diverge_at(seq![seg_hooks(), seg_allow_agent_hooks()], pk, 0);
        } else if i == 22 {
            lemma_diverge_at(seq![seg_rate_limits(), seg_elicitation_per_server_per_min()], pk, 0);
        } else if i == 23 {
            lemma_diverge_at(seq![seg_rate_limits(), seg_max_pending_requests()], pk, 0);
        } else if i == 24 {
            lemma_diverge_at(seq![seg_budget(), seg_warn_at_percent()], pk, 0);
        } else if i == 25 {
            lemma_diverge_at(seq![seg_subagents(), seg_max_concurrent()], pk, 0);
        } else if i == 26 {
            lemma_diverge_at(seq![seg_subagents(), seg_max_depth()], pk, 0);
        } else if i == 27 {
            lemma_diverge_at(seq![seg_subagents(), seg_timeout_secs()], pk, 0);
        } else if i == 28 {
            lemma_diverge_at(seq![seg_retry(), seg_llm_max_attempts()], pk, 0);
        } else if i == 29 {
            lemma_diverge_at(seq![seg_retry(), seg_mcp_max_attempts()], pk, 0);
        } else if i == 30 {
            lemma_diverge_at(seq![seg_timeouts(), seg_approval_secs()], pk, 0);
        } else if i == 31 {
            lemma_diverge_at(seq![seg_timeouts(), seg_idle_secs()], pk, 0);
        } else if i == 32 {
            lemma_diverge_at(seq![seg_hooks(), seg_allow_http_hooks()], pk, 0);
        } else if i == 33 {
            lemma_diverge_at(seq![seg_hooks(), seg_allow_command_hooks()], pk, 0);
        }
    }
}

/// Restriction `security.require_signatures` parts ways with the others, and lies outside `servers`.
proof fn lemma_apart_11()
    ensures
        apart_from_others(rules(), 11),
        rules()[11].1.len() > 0,
        rules()[11].1[0] != seg_servers(),
{
    lemma_rule_table();
    lemma_segments_differ();
    let pk = seq![seg_security(), seg_require_signatures()];
    assert forall|i: int| 0 <= i < rules().len() && i != 11 implies diverge(#[trigger] rules()[i].1, rules()[11].1) by {
        if i == 0 {
            lemma_diverge_at(seq![seg_budget(), seg_session_max_usd()], pk, 0);
        } else if i == 1 {
            lemma_diverge_at(seq![seg_budget(), seg_per_action_max_usd()], pk, 0);
        } else if i == 2 {
            lemma_diverge_at(seq![seg_security(), seg_policy(), seg_max_argument_size()], pk, 1);
        } else if i == 3 {
            lemma_diverge_at(seq![seg_security(), seg_policy(), seg_require_approval_for_delete()], pk, 1);
        } else if i == 4 {
            lemma_diverge_at(seq![seg_security(), seg_policy(), seg_require_approval_for_network()], pk, 1);
        } else if i == 5 {
            lemma_diverge_at(seq![seg_security(), seg_policy(), seg_blocked_tools()], pk, 1);
        } else if i == 6 {
            lemma_diverge_at(seq![seg_security(), seg_policy(), seg_denied_paths()], pk, 1);
        } else if i == 7 {
            lemma_diverge_at(seq![seg_security(), seg_policy(), seg_denied_hosts()], pk, 1);
        } else if i == 8 {
            lemma_diverge_at(seq![seg_workspace(), seg_mode()], pk, 0);
        } else if i == 9 {
            lemma_diverge_at(seq![seg_workspace(), seg_escape_policy()], pk, 0);
        } else if i == 10 {
            lemma_diverge_at(seq![seg_workspace(), seg_never_allow()], pk, 0);
        } else if i == 12 {
            lemma_diverge_at(seq![seg_security(), seg_approval_timeout_secs()], pk, 1);
        } else if i == 13 {
            lemma_diverge_at(seq![seg_security(), seg_policy(), seg_approval_required_tools()], pk, 1);
        } else if i == 14 {
            lemma_diverge_at(seq![seg_security(), seg_policy(), seg_allowed_paths()], pk, 1);
        } else if i == 15 {
            lemma_diverge_at(seq![seg_security(), seg_policy(), seg_allowed_hosts()], pk, 1);
        } else if i == 16 {
            lemma_diverge_at(seq![seg_workspace(), seg_auto_allow_read()], pk, 0);
        } else if i == 17 {
            lemma_diverge_at(seq![seg_workspace(), seg_auto_allow_write()], pk, 0);
        } else if i == 18 {
            lemma_diverge_at(seq![seg_model(), seg_api_key()], pk, 0);
        } else if i == 19 {
            lemma_diverge_at(seq![seg_model(), seg_api_url()], pk, 0);
        } else if i == 20 {
            lemma_diverge_at(seq![seg_hooks(), seg_allow_wasm_hooks()], pk, 0);
        } else if i == 21 {
            lemma_diverge_at(seq![seg_hooks(), seg_allow_agent_hooks()], pk, 0);
        } else if i == 22 {
            lemma_diverge_at(seq![seg_rate_limits(), seg_elicitation_per_server_per_min()], pk, 0);
        } else if i == 23 {
            lemma_diverge_at(seq![seg_rate_limits(), seg_max_pending_requests()], pk, 0);
        } else if i == 24 {
            lemma_diverge_at(seq![seg_budget(), seg_warn_at_percent()], pk, 0);
        } else if i == 25 {
            lemma_diverge_at(seq![seg_subagents(), seg_max_concurrent()], pk, 0);
        } else if i == 26 {
            lemma_diverge_at(seq![seg_subagents(), seg_max_depth()], pk, 0);
        } else if i == 27 {
            lemma_diverge_at(seq![seg_subagents(), seg_timeout_secs()], pk, 0);
        } else if i == 28 {
            lemma_diverge_at(seq![seg_retry(), seg_llm_max_attempts()], pk, 0);
        } else if i == 29 {
            lemma_diverge_at(seq![seg_retry(), seg_mcp_max_attempts()], pk, 0);
        } else if i == 30 {
            lemma_diverge_at(seq![seg_timeouts(), seg_approval_secs()], pk, 0);
        } else if i == 31 {
            lemma_diverge_at(seq![seg_timeouts(), seg_idle_secs()], pk, 0);
        } else if i == 32 {
            lemma_diverge_at(seq![seg_hooks(), seg_allow_http_hooks()], pk, 0);
        } else if i == 33 {
            lemma_diverge_at(seq![seg_hooks(), seg_allow_command_hooks()], pk, 0);
        }
    }
}

/// Restriction `security.approval_timeout_secs` parts ways with the others, and lies outside `servers`.
proof fn lemma_apart_12()
    ensures
        apart_from_others(rules(), 12),
        rules()[12].1.len() > 0,
        rules()[12].1[0] != seg_servers(),
{
    lemma_rule_table();
    lemma_segments_differ();
    let pk = seq![seg_security(), seg_approval_timeout_secs()];
    assert forall|i: int| 0 <= i < rules().len() && i != 12 implies diverge(#[trigger] rules()[i].1, rules()[12].1) by {
        if i == 0 {
            lemma_diverge_at(seq![seg_budget(), seg_session_max_usd()], pk, 0);
        } else if i == 1 {
            lemma_diverge_at(seq![seg_budget(), seg_per_action_max_usd()], pk, 0);
        } else if i == 2 {
            lemma_diverge_at(seq![seg_security(), seg_policy(), seg_max_argument_size()], pk, 1);
        } else if i == 3 {
            lemma_diverge_at(seq![seg_security(), seg_policy(), seg_require_approval_for_delete()], pk, 1);
        } else if i == 4 {
            lemma_diverge_at(seq![seg_security(), seg_policy(), seg_require_approval_for_network()], pk, 1);
        } else if i == 5 {
            lemma_diverge_at(seq![seg_security(), seg_policy(), seg_blocked_tools()], pk, 1);
        } else if i == 6 {
            lemma_diverge_at(seq![seg_security(), seg_policy(), seg_denied_paths()], pk, 1);
        } else if i == 7 {
            lemma_diverge_at(seq![seg_security(), seg_policy(), seg_denied_hosts()], pk, 1);
        } else if i == 8 {
            lemma_diverge_at(seq![seg_workspace(), seg_mode()], pk, 0);
        } else if i == 9 {
            lemma_diverge_at(seq![seg_workspace(), seg_escape_policy()], pk, 0);
        } else if i == 10 {
            lemma_diverge_at(seq![seg_workspace(), seg_never_allow()], pk, 0);
        } else if i == 11 {
            lemma_diverge_at(seq![seg_security(), seg_require_signatures()], pk, 1);
        } else if i == 13 {
            lemma_diverge_at(seq![seg_security(), seg_policy(), seg_approval_required_tools()], pk, 1);
        } else if i == 14 {
            lemma_diverge_at(seq![seg_security(), seg_policy(), seg_allowed_paths()], pk, 1);
        } else if i == 15 {
            lemma_diverge_at(seq![seg_security(), seg_policy(), seg_allowed_hosts()], pk, 1);
        } else if i == 16 {
            lemma_diverge_at(seq![seg_workspace(), seg_auto_allow_read()], pk, 0);
        } else if i == 17 {
            lemma_diverge_at(seq![seg_workspace(), seg_auto_allow_write()], pk, 0);
        } else if i == 18 {
            lemma_diverge_at(seq![seg_model(), seg_api_key()], pk, 0);
        } else if i == 19 {
            lemma_diverge_at(seq![seg_model(), seg_api_url()], pk, 0);
        } else if i == 20 {
            lemma_diverge_at(seq![seg_hooks(), seg_allow_wasm_hooks()], pk, 0);
        } else if i == 21 {
            lemma_diverge_at(seq![seg_hooks(), seg_allow_agent_hooks()], pk, 0);
        } else if i == 22 {
            lemma_diverge_at(seq![seg_rate_limits(), seg_elicitation_per_server_per_min()], pk, 0);
        } else if i == 23 {
            lemma_diverge_at(seq![seg_rate_limits(), seg_max_pending_requests()], pk, 0);
        } else if i == 24 {
            lemma_diverge_at(seq![seg_budget(), seg_warn_at_percent()], pk, 0);
        } else if i == 25 {
            lemma_diverge_at(seq![seg_subagents(), seg_max_concurrent()], pk, 0);
        } else if i == 26 {
            lemma_diverge_at(seq![seg_subagents(), seg_max_depth()], pk, 0);
        } else if i == 27 {
            lemma_diverge_at(seq![seg_subagents(), seg_timeout_secs()], pk, 0);
        } else if i == 28 {
            lemma_diverge_at(seq![seg_retry(), seg_llm_max_attempts()], pk, 0);
        } else if i == 29 {
            lemma_diverge_at(seq![seg_retry(), seg_mcp_max_attempts()], pk, 0);
        } else if i == 30 {
            lemma_diverge_at(seq![seg_timeouts(), seg_approval_secs()], pk, 0);
        } else if i == 31 {
            lemma_diverge_at(seq![seg_timeouts(), seg_idle_secs()], pk, 0);
        } else if i == 32 {
            lemma_diverge_at(seq![seg_hooks(), seg_allow_http_hooks()], pk, 0);
        } else if i == 33 {
            lemma_diverge_at(seq![seg_hooks(), seg_allow_command_hooks()], pk, 0);
        }
    }
}

/// Restriction `security.policy.approval_required_tools` parts ways with the others, and lies outside `servers`.
proof fn lemma_apart_13()
    ensures
        apart_from_others(rules(), 13),
        rules()[13].1.len() > 0,
        rules()[13].1[0] != seg_servers(),
{
    lemma_rule_table();
    lemma_segments_differ();
    let pk = seq![seg_security(), seg_policy(), seg_approval_required_tools()];
    assert forall|i: int| 0 <= i < rules().len() && i != 13 implies diverge(#[trigger] rules()[i].1, rules()[13].1) by {
        if i == 0 {
            lemma_diverge_at(seq![seg_budget(), seg_session_max_usd()], pk, 0);
        } else if i == 1 {
            lemma_diverge_at(seq![seg_budget(), seg_per_action_max_usd()], pk, 0);
        } else if i == 2 {
            lemma_diverge_at(seq![seg_security(), seg_policy(), seg_max_argument_size()], pk, 2);
        } else if i == 3 {
            lemma_diverge_at(seq![seg_security(), seg_policy(), seg_require_approval_for_delete()], pk, 2);
        } else if i == 4 {
            lemma_diverge_at(seq![seg_security(), seg_policy(), seg_require_approval_for_network()], pk, 2);
        } else if i == 5 {
            lemma_diverge_at(seq![seg_security(), seg_policy(), seg_blocked_tools()], pk, 2);
        } else if i == 6 {
            lemma_diverge_at(seq![seg_security(), seg_policy(), seg_denied_paths()], pk, 2);
        } else if i == 7 {
            lemma_diverge_at(seq![seg_security(), seg_policy(), seg_denied_hosts()], pk, 2);
        } else if i == 8 {
            lemma_diverge_at(seq![seg_workspace(), seg_mode()], pk, 0);
        } else if i == 9 {
            lemma_diverge_at(seq![seg_workspace(), seg_escape_policy()], pk, 0);
        } else if i == 10 {
            lemma_diverge_at(seq![seg_workspace(), seg_never_allow()], pk, 0);
        } else if i == 11 {
            lemma_diverge_at(seq![seg_security(), seg_require_signatures()], pk, 1);
        } else if i == 12 {
            lemma_diverge_at(seq![seg_security(), seg_approval_timeout_secs()], pk, 1);
        } else if i == 14 {
            lemma_diverge_at(seq![seg_security(), seg_policy(), seg_allowed_paths()], pk, 2);
        } else if i == 15 {
            lemma_diverge_at(seq![seg_security(), seg_policy(), seg_allowed_hosts()], pk, 2);
        } else if i == 16 {
            lemma_diverge_at(seq![seg_workspace(), seg_auto_allow_read()], pk, 0);
        } else if i == 17 {
            lemma_diverge_at(seq![seg_workspace(), seg_auto_allow_write()], pk, 0);
        } else if i == 18 {
            lemma_diverge_at(seq![seg_model(), seg_api_key()], pk, 0);
        } else if i == 19 {
            lemma_diverge_at(seq![seg_model(), seg_api_url()], pk, 0);
        } else if i == 20 {
            lemma_diverge_at(seq![seg_hooks(), seg_allow_wasm_hooks()], pk, 0);
        } else if i == 21 {
            lemma_diverge_at(seq![seg_hooks(), seg_allow_agent_hooks()], pk, 0);
        } else if i == 22 {
            lemma_diverge_at(seq![seg_rate_limits(), seg_elicitation_per_server_per_min()], pk, 0);
        } else if i == 23 {
            lemma_diverge_at(seq![seg_rate_limits(), seg_max_pending_requests()], pk, 0);
        } else if i == 24 {
            lemma_diverge_at(seq![seg_budget(), seg_warn_at_percent()], pk, 0);
        } else if i == 25 {
            lemma_diverge_at(seq![seg_subagents(), seg_max_concurrent()], pk, 0);
        } else if i == 26 {
            lemma_diverge_at(seq![seg_subagents(), seg_max_depth()], pk, 0);
        } else if i == 27 {
            lemma_diverge_at(seq![seg_subagents(), seg_timeout_secs()], pk, 0);
        } else if i == 28 {
            lemma_diverge_at(seq![seg_retry(), seg_llm_max_attempts()], pk, 0);
        } else if i == 29 {
            lemma_diverge_at(seq![seg_retry(), seg_mcp_max_attempts()], pk, 0);
        } else if i == 30 {
            lemma_diverge_at(seq![seg_timeouts(), seg_approval_secs()], pk, 0);
        } else if i == 31 {
            lemma_diverge_at(seq![seg_timeouts(), seg_idle_secs()], pk, 0);
        } else if i == 32 {
            lemma_diverge_at(seq![seg_hooks(), seg_allow_http_hooks()], pk, 0);
        } else if i == 33 {
            lemma_diverge_at(seq![seg_hooks(), seg_allow_command_hooks()], pk, 0);
        }
    }
}

/// Restriction `security.policy.allowed_paths` parts ways with the others, and lies outside `servers`.
proof fn lemma_apart_14()
    ensures
        apart_from_others(rules(), 14),
        rules()[14].1.len() > 0,
        rules()[14].1[0] != seg_servers(),
{
    lemma_rule_table();
    lemma_segments_differ();
    let pk = seq![seg_security(), seg_policy(), seg_allowed_paths()];
    assert forall|i: int| 0 <= i < rules().len() && i != 14 implies diverge(#[trigger] rules()[i].1, rules()[14].1) by {
        if i == 0 {
            lemma_diverge_at(seq![seg_budget(), seg_session_max_usd()], pk, 0);
        } else if i == 1 {
            lemma_diverge_at(seq![seg_budget(), seg_per_action_max_usd()], pk, 0);
        } else if i == 2 {
            lemma_diverge_at(seq![seg_security(), seg_policy(), seg_max_argument_size()], pk, 2);
        } else if i == 3 {
            lemma_diverge_at(seq![seg_security(), seg_policy(), seg_require_approval_for_delete()], pk, 2);
        } else if i == 4 {
            lemma_diverge_at(seq![seg_security(), seg_policy(), seg_require_approval_for_network()], pk, 2);
        } else if i == 5 {
            lemma_diverge_at(seq![seg_security(), seg_policy(), seg_blocked_tools()], pk, 2);
        } else if i == 6 {
            lemma_diverge_at(seq![seg_security(), seg_policy(), seg_denied_paths()], pk, 2);
        } else if i == 7 {
            lemma_diverge_at(seq![seg_security(), seg_policy(), seg_denied_hosts()], pk, 2);
        } else if i == 8 {
            lemma_diverge_at(seq![seg_workspace(), seg_mode()], pk, 0);
        } else if i == 9 {
            lemma_diverge_at(seq![seg_workspace(), seg_escape_policy()], pk, 0);
        } else if i == 10 {
            lemma_diverge_at(seq![seg_workspace(), seg_never_allow()], pk, 0);
        } else if i == 11 {
            lemma_diverge_at(seq![seg_security(), seg_require_signatures()], pk, 1);
        } else if i == 12 {
            lemma_diverge_at(seq![seg_security(), seg_approval_timeout_secs()], pk, 1);
        } else if i == 13 {
            lemma_diverge_at(seq![seg_security(), seg_policy(), seg_approval_required_tools()], pk, 2);
        } else if i == 15 {
            lemma_diverge_at(seq![seg_security(), seg_policy(), seg_allowed_hosts()], pk, 2);
        } else if i == 16 {
            lemma_diverge_at(seq![seg_workspace(), seg_auto_allow_read()], pk, 0);
        } else if i == 17 {
            lemma_diverge_at(seq![seg_workspace(), seg_auto_allow_write()], pk, 0);
        } else if i == 18 {
            lemma_diverge_at(seq![seg_model(), seg_api_key()], pk, 0);
        } else if i == 19 {
            lemma_diverge_at(seq![seg_model(), seg_api_url()], pk, 0);
        } else if i == 20 {
            lemma_diverge_at(seq![seg_hooks(), seg_allow_wasm_hooks()], pk, 0);
        } else if i == 21 {
            lemma_diverge_at(seq![seg_hooks(), seg_allow_agent_hooks()], pk, 0);
        } else if i == 22 {
            lemma_diverge_at(seq![seg_rate_limits(), seg_elicitation_per_server_per_min()], pk, 0);
        } else if i == 23 {
            lemma_diverge_at(seq![seg_rate_limits(), seg_max_pending_requests()], pk, 0);
        } else if i == 24 {
            lemma_diverge_at(seq![seg_budget(), seg_warn_at_percent()], pk, 0);
        } else if i == 25 {
            lemma_diverge_at(seq![seg_subagents(), seg_max_concurrent()], pk, 0);
        } else if i == 26 {
            lemma_diverge_at(seq![seg_subagents(), seg_max_depth()], pk, 0);
        } else if i == 27 {
            lemma_diverge_at(seq![seg_subagents(), seg_timeout_secs()], pk, 0);
        } else if i == 28 {
            lemma_diverge_at(seq![seg_retry(), seg_llm_max_attempts()], pk, 0);
        } else if i == 29 {
            lemma_diverge_at(seq![seg_retry(), seg_mcp_max_attempts()], pk, 0);
        } else if i == 30 {
            lemma_diverge_at(seq![seg_timeouts(), seg_approval_secs()], pk, 0);
        } else if i == 31 {
            lemma_diverge_at(seq![seg_timeouts(), seg_idle_secs()], pk, 0);
        } else if i == 32 {
            lemma_diverge_at(seq![seg_hooks(), seg_allow_http_hooks()], pk, 0);
        } else if i == 33 {
            lemma_diverge_at(seq![seg_hooks(), seg_allow_command_hooks()], pk, 0);
        }
    }
}

/// Restriction `security.policy.allowed_hosts` parts ways with the others, and lies outside `servers`.
proof fn lemma_apart_15()
    ensures
        apart_from_others(rules(), 15),
        rules()[15].1.len() > 0,
        rules()[15].1[0] != seg_servers(),
{
    lemma_rule_table();
    lemma_segments_differ();
    let pk = seq![seg_security(), seg_policy(), seg_allowed_hosts()];
    assert forall|i: int| 0 <= i < rules().len() && i != 15 implies diverge(#[trigger] rules()[i].1, rules()[15].1) by {
        if i == 0 {
            lemma_diverge_at(seq![seg_budget(), seg_session_max_usd()], pk, 0);
        } else if i == 1 {
            lemma_diverge_at(seq![seg_budget(), seg_per_action_max_usd()], pk, 0);
        } else if i == 2 {
            lemma_diverge_at(seq![seg_security(), seg_policy(), seg_max_argument_size()], pk, 2);
        } else if i == 3 {
            lemma_diverge_at(seq![seg_security(), seg_policy(), seg_require_approval_for_delete()], pk, 2);
        } else if i == 4 {
            lemma_diverge_at(seq![seg_security(), seg_policy(), seg_require_approval_for_network()], pk, 2);
        } else if i == 5 {
            lemma_diverge_at(seq![seg_security(), seg_policy(), seg_blocked_tools()], pk, 2);
        } else if i == 6 {
            lemma_diverge_at(seq![seg_security(), seg_policy(), seg_denied_paths()], pk, 2);
        } else if i == 7 {
            lemma_diverge_at(seq![seg_security(), seg_policy(), seg_denied_hosts()], pk, 2);
        } else if i == 8 {
            lemma_diverge_at(seq![seg_workspace(), seg_mode()], pk, 0);
        } else if i == 9 {
            lemma_diverge_at(seq![seg_workspace(), seg_escape_policy()], pk, 0);
        } else if i == 10 {
            lemma_diverge_at(seq![seg_workspace(), seg_never_allow()], pk, 0);
        } else if i == 11 {
            lemma_diverge_at(seq![seg_security(), seg_require_signatures()], pk, 1);
        } else if i == 12 {
            lemma_diverge_at(seq![seg_security(), seg_approval_timeout_secs()], pk, 1);
        } else if i == 13 {
            lemma_diverge_at(seq![seg_security(), seg_policy(), seg_approval_required_tools()], pk, 2);
        } else if i == 14 {
            lemma_diverge_at(seq![seg_security(), seg_policy(), seg_allowed_paths()], pk, 2);
        } else if i == 16 {
            lemma_diverge_at(seq![seg_workspace(), seg_auto_allow_read()], pk, 0);
        } else if i == 17 {
            lemma_diverge_at(seq![seg_workspace(), seg_auto_allow_write()], pk, 0);
        } else if i == 18 {
            lemma_diverge_at(seq![seg_model(), seg_api_key()], pk, 0);
        } else if i == 19 {
            lemma_diverge_at(seq![seg_model(), seg_api_url()], pk, 0);
        } else if i == 20 {
            lemma_diverge_at(seq![seg_hooks(), seg_allow_wasm_hooks()], pk, 0);
        } else if i == 21 {
            lemma_diverge_at(seq![seg_hooks(), seg_allow_agent_hooks()], pk, 0);
        } else if i == 22 {
            lemma_diverge_at(seq![seg_rate_limits(), seg_elicitation_per_server_per_min()], pk, 0);
        } else if i == 23 {
            lemma_diverge_at(seq![seg_rate_limits(), seg_max_pending_requests()], pk, 0);
        } else if i == 24 {
            lemma_diverge_at(seq![seg_budget(), seg_warn_at_percent()], pk, 0);
        } else if i == 25 {
            lemma_diverge_at(seq![seg_subagents(), seg_max_concurrent()], pk, 0);
        } else if i == 26 {
            lemma_diverge_at(seq![seg_subagents(), seg_max_depth()], pk, 0);
        } else if i == 27 {
            lemma_diverge_at(seq![seg_subagents(), seg_timeout_secs()], pk, 0);
        } else if i == 28 {
            lemma_diverge_at(seq![seg_retry(), seg_llm_max_attempts()], pk, 0);
        } else if i == 29 {
            lemma_diverge_at(seq![seg_retry(), seg_mcp_max_attempts()], pk, 0);
        } else if i == 30 {
            lemma_diverge_at(seq![seg_timeouts(), seg_approval_secs()], pk, 0);
        } else if i == 31 {
            lemma_diverge_at(seq![seg_timeouts(), seg_idle_secs()], pk, 0);
        } else if i == 32 {
            lemma_diverge_at(seq![seg_hooks(), seg_allow_http_hooks()], pk, 0);
        } else if i == 33 {
            lemma_diverge_at(seq![seg_hooks(), seg_allow_command_hooks()], pk, 0);
        }
    }
}

/// Restriction `workspace.auto_allow_read` parts ways with the others, and lies outside `servers`.
proof fn lemma_apart_16()
    ensures
        apart_from_others(rules(), 16),
        rules()[16].1.len() > 0,
        rules()[16].1[0] != seg_servers(),
{
    lemma_rule_table();
    lemma_segments_differ();
    let pk = seq![seg_workspace(), seg_auto_allow_read()];
    assert forall|i: int| 0 <= i < rules().len() && i != 16 implies diverge(#[trigger] rules()[i].1, rules()[16].1) by {
        if i == 0 {
            lemma_diverge_at(seq![seg_budget(), seg_session_max_usd()], pk, 0);
        } else if i == 1 {
            lemma_diverge_at(seq![seg_budget(), seg_per_action_max_usd()], pk, 0);
        } else if i == 2 {
            lemma_diverge_at(seq![seg_security(), seg_policy(), seg_max_argument_size()], pk, 0);
        } else if i == 3 {
            lemma_diverge_at(seq![seg_security(), seg_policy(), seg_require_approval_for_delete()], pk, 0);
        } else if i == 4 {
            lemma_diverge_at(seq![seg_security(), seg_policy(), seg_require_approval_for_network()], pk, 0);
        } else if i == 5 {
            lemma_diverge_at(seq![seg_security(), seg_policy(), seg_blocked_tools()], pk, 0);
        } else if i == 6 {
            lemma_diverge_at(seq![seg_security(), seg_policy(), seg_denied_paths()], pk, 0);
        } else if i == 7 {
            lemma_diverge_at(seq![seg_security(), seg_policy(), seg_denied_hosts()], pk, 0);
        } else if i == 8 {
            lemma_diverge_at(seq![seg_workspace(), seg_mode()], pk, 1);
        } else if i == 9 {
            lemma_diverge_at(seq![seg_workspace(), seg_escape_policy()], pk, 1);
        } else if i == 10 {
            lemma_diverge_at(seq![seg_workspace(), seg_never_allow()], pk, 1);
        } else if i == 11 {
            lemma_diverge_at(seq![seg_security(), seg_require_signatures()], pk, 0);
        } else if i == 12 {
            lemma_diverge_at(seq![seg_security(), seg_approval_timeout_secs()], pk, 0);
        } else if i == 13 {
            lemma_diverge_at(seq![seg_security(), seg_policy(), seg_approval_required_tools()], pk, 0);
        } else if i == 14 {
            lemma_diverge_at(seq![seg_security(), seg_policy(), seg_allowed_paths()], pk, 0);
        } else if i == 15 {
            lemma_diverge_at(seq![seg_security(), seg_policy(), seg_allowed_hosts()], pk, 0);
        } else if i == 17 {
            lemma_diverge_at(seq![seg_workspace(), seg_auto_allow_write()], pk, 1);
        } else if i == 18 {
            lemma_diverge_at(seq![seg_model(), seg_api_key()], pk, 0);
        } else if i == 19 {
            lemma_diverge_at(seq![seg_model(), seg_api_url()], pk, 0);
        } else if i == 20 {
            lemma_diverge_at(seq![seg_hooks(), seg_allow_wasm_hooks()], pk, 0);
        } else if i == 21 {
            lemma_diverge_at(seq![seg_hooks(), seg_allow_agent_hooks()], pk, 0);
        } else if i == 22 {
            lemma_diverge_at(seq![seg_rate_limits(), seg_elicitation_per_server_per_min()], pk, 0);
        } else if i == 23 {
            lemma_diverge_at(seq![seg_rate_limits(), seg_max_pending_requests()], pk, 0);
        } else if i == 24 {
            lemma_diverge_at(seq![seg_budget(), seg_warn_at_percent()], pk, 0);
        } else if i == 25 {
            lemma_diverge_at(seq![seg_subagents(), seg_max_concurrent()], pk, 0);
        } else if i == 26 {
            lemma_diverge_at(seq![seg_subagents(), seg_max_depth()], pk, 0);
        } else if i == 27 {
            lemma_diverge_at(seq![seg_subagents(), seg_timeout_secs()], pk, 0);
        } else if i == 28 {
            lemma_diverge_at(seq![seg_retry(), seg_llm_max_attempts()], pk, 0);
        } else if i == 29 {
            lemma_diverge_at(seq![seg_retry(), seg_mcp_max_attempts()], pk, 0);
        } else if i == 30 {
            lemma_diverge_at(seq![seg_timeouts(), seg_approval_secs()], pk, 0);
        } else if i == 31 {
            lemma_diverge_at(seq![seg_timeouts(), seg_idle_secs()], pk, 0);
        } else if i == 32 {
            lemma_diverge_at(seq![seg_hooks(), seg_allow_http_hooks()], pk, 0);
        } else if i == 33 {
            lemma_diverge_at(seq![seg_hooks(), seg_allow_command_hooks()], pk, 0);
        }
    }
}

/// Restriction `workspace.auto_allow_write` parts ways with the others, and lies outside `servers`.
proof fn lemma_apart_17()
    ensures
        apart_from_others(rules(), 17),
        rules()[17].1.len() > 0,
        rules()[17].1[0] != seg_servers(),
{
    lemma_rule_table();
    lemma_segments_differ();
    let pk = seq![seg_workspace(), seg_auto_allow_write()];
    assert forall|i: int| 0 <= i < rules().len() && i != 17 implies diverge(#[trigger] rules()[i].1, rules()[17].1) by {
        if i == 0 {
            lemma_diverge_at(seq![seg_budget(), seg_session_max_usd()], pk, 0);
        } else if i == 1 {
            lemma_diverge_at(seq![seg_budget(), seg_per_action_max_usd()], pk, 0);
        } else if i == 2 {
            lemma_diverge_at(seq![seg_security(), seg_policy(), seg_max_argument_size()], pk, 0);
        } else if i == 3 {
            lemma_diverge_at(seq![seg_security(), seg_policy(), seg_require_approval_for_delete()], pk, 0);
        } else if i == 4 {
            lemma_diverge_at(seq![seg_security(), seg_policy(), seg_require_approval_for_network()], pk, 0);
        } else if i == 5 {
            lemma_diverge_at(seq![seg_security(), seg_policy(), seg_blocked_tools()], pk, 0);
        } else if i == 6 {
            lemma_diverge_at(seq![seg_security(), seg_policy(), seg_denied_paths()], pk, 0);
        } else if i == 7 {
            lemma_diverge_at(seq![seg_security(), seg_policy(), seg_denied_hosts()], pk, 0);
        } else if i == 8 {
            lemma_diverge_at(seq![seg_workspace(), seg_mode()], pk, 1);
        } else if i == 9 {
            lemma_diverge_at(seq![seg_workspace(), seg_escape_policy()], pk, 1);
        } else if i == 10 {
            lemma_diverge_at(seq![seg_workspace(), seg_never_allow()], pk, 1);
        } else if i == 11 {
            lemma_diverge_at(seq![seg_security(), seg_require_signatures()], pk, 0);
        } else if i == 12 {
            lemma_diverge_at(seq![seg_security(), seg_approval_timeout_secs()], pk, 0);
        } else if i == 13 {
            lemma_diverge_at(seq![seg_security(), seg_policy(), seg_approval_required_tools()], pk, 0);
        } else if i == 14 {
            lemma_diverge_at(seq![seg_security(), seg_policy(), seg_allowed_paths()], pk, 0);
        } else if i == 15 {
            lemma_diverge_at(seq![seg_security(), seg_policy(), seg_allowed_hosts()], pk, 0);
        } else if i == 16 {
            lemma_diverge_at(seq![seg_workspace(), seg_auto_allow_read()], pk, 1);
        } else if i == 18 {
            lemma_diverge_at(seq![seg_model(), seg_api_key()], pk, 0);
        } else if i == 19 {
            lemma_diverge_at(seq![seg_model(), seg_api_url()], pk, 0);
        } else if i == 20 {
            lemma_diverge_at(seq![seg_hooks(), seg_allow_wasm_hooks()], pk, 0);
        } else if i == 21 {
            lemma_diverge_at(seq![seg_hooks(), seg_allow_agent_hooks()], pk, 0);
        } else if i == 22 {
            lemma_diverge_at(seq![seg_rate_limits(), seg_elicitation_per_server_per_min()], pk, 0);
        } else if i == 23 {
            lemma_diverge_at(seq![seg_rate_limits(), seg_max_pending_requests()], pk, 0);
        } else if i == 24 {
            lemma_diverge_at(seq![seg_budget(), seg_warn_at_percent()], pk, 0);
        } else if i == 25 {
            lemma_diverge_at(seq![seg_subagents(), seg_max_concurrent()], pk, 0);
        } else if i == 26 {
            lemma_diverge_at(seq![seg_subagents(), seg_max_depth()], pk, 0);
        } else if i == 27 {
            lemma_diverge_at(seq![seg_subagents(), seg_timeout_secs()], pk, 0);
        } else if i == 28 {
            lemma_diverge_at(seq![seg_retry(), seg_llm_max_attempts()], pk, 0);
        } else if i == 29 {
            lemma_diverge_at(seq![seg_retry(), seg_mcp_max_attempts()], pk, 0);
        } else if i == 30 {
            lemma_diverge_at(seq![seg_timeouts(), seg_approval_secs()], pk, 0);
        } else if i == 31 {
            lemma_diverge_at(seq![seg_timeouts(), seg_idle_secs()], pk, 0);
        } else if i == 32 {
            lemma_diverge_at(seq![seg_hooks(), seg_allow_http_hooks()], pk, 0);
        } else if i == 33 {
            lemma_diverge_at(seq![seg_hooks(), seg_allow_command_hooks()], pk, 0);
        }
    }
}

/// Restriction `model.api_key` parts ways with the others, and lies outside `servers`.
proof fn lemma_apart_18()
    ensures
        apart_from_others(rules(), 18),
        rules()[18].1.len() > 0,
        rules()[18].1[0] != seg_servers(),
{
    lemma_rule_table();
    lemma_segments_differ();
    let pk = seq![seg_model(), seg_api_key()];
    assert forall|i: int| 0 <= i < rules().len() && i != 18 implies diverge(#[trigger] rules()[i].1, rules()[18].1) by {
        if i == 0 {
            lemma_diverge_at(seq![seg_budget(), seg_session_max_usd()], pk, 0);
        } else if i == 1 {
            lemma_diverge_at(seq![seg_budget(), seg_per_action_max_usd()], pk, 0);
        } else if i == 2 {
            lemma_diverge_at(seq![seg_security(), seg_policy(), seg_max_argument_size()], pk, 0);
        } else if i == 3 {
            lemma_diverge_at(seq![seg_security(), seg_policy(), seg_require_approval_for_delete()], pk, 0);
        } else if i == 4 {
            lemma_diverge_at(seq![seg_security(), seg_policy(), seg_require_approval_for_network()], pk, 0);
        } else if i == 5 {
            lemma_diverge_at(seq![seg_security(), seg_policy(), seg_blocked_tools()], pk, 0);
        } else if i == 6 {
            lemma_diverge_at(seq![seg_security(), seg_policy(), seg_denied_paths()], pk, 0);
        } else if i == 7 {
            lemma_diverge_at(seq![seg_security(), seg_policy(), seg_denied_hosts()], pk, 0);
        } else if i == 8 {
            lemma_diverge_at(seq![seg_workspace(), seg_mode()], pk, 0);
        } else if i == 9 {
            lemma_diverge_at(seq![seg_workspace(), seg_escape_policy()], pk, 0);
        } else if i == 10 {
            lemma_diverge_at(seq![seg_workspace(), seg_never_allow()], pk, 0);
        } else if i == 11 {
            lemma_diverge_at(seq![seg_security(), seg_require_signatures()], pk, 0);
        } else if i == 12 {
            lemma_diverge_at(seq![seg_security(), seg_approval_timeout_secs()], pk, 0);
        } else if i == 13 {
            lemma_diverge_at(seq![seg_security(), seg_policy(), seg_approval_required_tools()], pk, 0);
        } else if i == 14 {
            lemma_diverge_at(seq![seg_security(), seg_policy(), seg_allowed_paths()], pk, 0);
        } else if i == 15 {
            lemma_diverge_at(seq![seg_security(), seg_policy(), seg_allowed_hosts()], pk, 0);
        } else if i == 16 {
            lemma_diverge_at(seq![seg_workspace(), seg_auto_allow_read()], pk, 0);
        } else if i == 17 {
            lemma_diverge_at(seq![seg_workspace(), seg_auto_allow_write()], pk, 0);
        } else if i == 19 {
            lemma_diverge_at(seq![seg_model(), seg_api_url()], pk, 1);
        } else if i == 20 {
            lemma_diverge_at(seq![seg_hooks(), seg_allow_wasm_hooks()], pk, 0);
        } else if i == 21 {
            lemma_diverge_at(seq![seg_hooks(), seg_allow_agent_hooks()], pk, 0);
        } else if i == 22 {
            lemma_diverge_at(seq![seg_rate_limits(), seg_elicitation_per_server_per_min()], pk, 0);
        } else if i == 23 {
            lemma_diverge_at(seq![seg_rate_limits(), seg_max_pending_requests()], pk, 0);
        } else if i == 24 {
            lemma_diverge_at(seq![seg_budget(), seg_warn_at_percent()], pk, 0);
        } else if i == 25 {
            lemma_diverge_at(seq![seg_subagents(), seg_max_concurrent()], pk, 0);
        } else if i == 26 {
            lemma_diverge_at(seq![seg_subagents(), seg_max_depth()], pk, 0);
        } else if i == 27 {
            lemma_diverge_at(seq![seg_subagents(), seg_timeout_secs()], pk, 0);
        } else if i == 28 {
            lemma_diverge_at(seq![seg_retry(), seg_llm_max_attempts()], pk, 0);
        } else if i == 29 {
            lemma_diverge_at(seq![seg_retry(), seg_mcp_max_attempts()], pk, 0);
        } else if i == 30 {
            lemma_diverge_at(seq![seg_timeouts(), seg_approval_secs()], pk, 0);
        } else if i == 31 {
            lemma_diverge_at(seq![seg_timeouts(), seg_idle_secs()], pk, 0);
        } else if i == 32 {
            lemma_diverge_at(seq![seg_hooks(), seg_allow_http_hooks()], pk, 0);
        } else if i == 33 {
            lemma_diverge_at(seq![seg_hooks(), seg_allow_command_hooks()], pk, 0);
        }
    }
}

/// Restriction `model.api_url` parts ways with the others, and lies outside `servers`.
proof fn lemma_apart_19()
    ensures
        apart_from_others(rules(), 19),
        rules()[19].1.len() > 0,
        rules()[19].1[0] != seg_servers(),
{
    lemma_rule_table();
    lemma_segments_differ();
    let pk = seq![seg_model(), seg_api_url()];
    assert forall|i: int| 0 <= i < rules().len() && i != 19 implies diverge(#[trigger] rules()[i].1, rules()[19].1) by {
        if i == 0 {
            lemma_diverge_at(seq![seg_budget(), seg_session_max_usd()], pk, 0);
        } else if i == 1 {
            lemma_diverge_at(seq![seg_budget(), seg_per_action_max_usd()], pk, 0);
        } else if i == 2 {
            lemma_diverge_at(seq![seg_security(), seg_policy(), seg_max_argument_size()], pk, 0);
        } else if i == 3 {
            lemma_diverge_at(seq![seg_security(), seg_policy(), seg_require_approval_for_delete()], pk, 0);
        } else if i == 4 {
            lemma_diverge_at(seq![seg_security(), seg_policy(), seg_require_approval_for_network()], pk, 0);
        } else if i == 5 {
            lemma_diverge_at(seq![seg_security(), seg_policy(), seg_blocked_tools()], pk, 0);
        } else if i == 6 {
            lemma_diverge_at(seq![seg_security(), seg_policy(), seg_denied_paths()], pk, 0);
        } else if i == 7 {
            lemma_diverge_at(seq![seg_security(), seg_policy(), seg_denied_hosts()], pk, 0);
        } else if i == 8 {
            lemma_diverge_at(seq![seg_workspace(), seg_mode()], pk, 0);
        } else if i == 9 {
            lemma_diverge_at(seq![seg_workspace(), seg_escape_policy()], pk, 0);
        } else if i == 10 {
            lemma_diverge_at(seq![seg_workspace(), seg_never_allow()], pk, 0);
        } else if i == 11 {
            lemma_diverge_at(seq![seg_security(), seg_require_signatures()], pk, 0);
        } else if i == 12 {
            lemma_diverge_at(seq![seg_security(), seg_approval_timeout_secs()], pk, 0);
        } else if i == 13 {
            lemma_diverge_at(seq![seg_security(), seg_policy(), seg_approval_required_tools()], pk, 0);
        } else if i == 14 {
            lemma_diverge_at(seq![seg_security(), seg_policy(), seg_allowed_paths()], pk, 0);
        } else if i == 15 {
            lemma_diverge_at(seq![seg_security(), seg_policy(), seg_allowed_hosts()], pk, 0);
        } else if i == 16 {
            lemma_diverge_at(seq![seg_workspace(), seg_auto_allow_read()], pk, 0);
        } else if i == 17 {
            lemma_diverge_at(seq![seg_workspace(), seg_auto_allow_write()], pk, 0);
        } else if i == 18 {
            lemma_diverge_at(seq![seg_model(), seg_api_key()], pk, 1);
        } else if i == 20 {
            lemma_diverge_at(seq![seg_hooks(), seg_allow_wasm_hooks()], pk, 0);
        } else if i == 21 {
            lemma_diverge_at(seq![seg_hooks(), seg_allow_agent_hooks()], pk, 0);
        } else if i == 22 {
            lemma_diverge_at(seq![seg_rate_limits(), seg_elicitation_per_server_per_min()], pk, 0);
        } else if i == 23 {
            lemma_diverge_at(seq![seg_rate_limits(), seg_max_pending_requests()], pk, 0);
        } else if i == 24 {
            lemma_diverge_at(seq![seg_budget(), seg_warn_at_percent()], pk, 0);
        } else if i == 25 {
            lemma_diverge_at(seq![seg_subagents(), seg_max_concurrent()], pk, 0);
        } else if i == 26 {
            lemma_diverge_at(seq![seg_subagents(), seg_max_depth()], pk, 0);
        } else if i == 27 {
            lemma_diverge_at(seq![seg_subagents(), seg_timeout_secs()], pk, 0);
        } else if i == 28 {
            lemma_diverge_at(seq![seg_retry(), seg_llm_max_attempts()], pk, 0);
        } else if i == 29 {
            lemma_diverge_at(seq![seg_retry(), seg_mcp_max_attempts()], pk, 0);
        } else if i == 30 {
            lemma_diverge_at(seq![seg_timeouts(), seg_approval_secs()], pk, 0);
        } else if i == 31 {
            lemma_diverge_at(seq![seg_timeouts(), seg_idle_secs()], pk, 0);
        } else if i == 32 {
            lemma_diverge_at(seq![seg_hooks(), seg_allow_http_hooks()], pk, 0);
        } else if i == 33 {
            lemma_diverge_at(seq![seg_hooks(), seg_allow_command_hooks()], pk, 0);
        }
    }
}

/// Restriction `hooks.allow_wasm_hooks` parts ways with the others, and lies outside `servers`.
proof fn lemma_apart_20()
    ensures
        apart_from_others(rules(), 20),
        rules()[20].1.len() > 0,
        rules()[20].1[0] != seg_servers(),
{
    lemma_rule_table();
    lemma_segments_differ();
    let pk = seq![seg_hooks(), seg_allow_wasm_hooks()];
    assert forall|i: int| 0 <= i < rules().len() && i != 20 implies diverge(#[trigger] rules()[i].1, rules()[20].1) by {
        if i == 0 {
            lemma_diverge_at(seq![seg_budget(), seg_session_max_usd()], pk, 0);
        } else if i == 1 {
            lemma_diverge_at(seq![seg_budget(), seg_per_action_max_usd()], pk, 0);
        } else if i == 2 {
            lemma_diverge_at(seq![seg_security(), seg_policy(), seg_max_argument_size()], pk, 0);
        } else if i == 3 {
            lemma_diverge_at(seq![seg_security(), seg_policy(), seg_require_approval_for_delete()], pk, 0);
        } else if i == 4 {
            lemma_diverge_at(seq![seg_security(), seg_policy(), seg_require_approval_for_network()], pk, 0);
        } else if i == 5 {
            lemma_diverge_at(seq![seg_security(), seg_policy(), seg_blocked_tools()], pk, 0);
        } else if i == 6 {
            lemma_diverge_at(seq![seg_security(), seg_policy(), seg_denied_paths()], pk, 0);
        } else if i == 7 {
            lemma_diverge_at(seq![seg_security(), seg_policy(), seg_denied_hosts()], pk, 0);
        } else if i == 8 {
            lemma_diverge_at(seq![seg_workspace(), seg_mode()], pk, 0);
        } else if i == 9 {
            lemma_diverge_at(seq![seg_workspace(), seg_escape_policy()], pk, 0);
        } else if i == 10 {
            lemma_diverge_at(seq![seg_workspace(), seg_never_allow()], pk, 0);
        } else if i == 11 {
            lemma_diverge_at(seq![seg_security(), seg_require_signatures()], pk, 0);
        } else if i == 12 {
            lemma_diverge_at(seq![seg_security(), seg_approval_timeout_secs()], pk, 0);
        } else if i == 13 {
            lemma_diverge_at(seq![seg_security(), seg_policy(), seg_approval_required_tools()], pk, 0);
        } else if i == 14 {
            lemma_diverge_at(seq![seg_security(), seg_policy(), seg_allowed_paths()], pk, 0);
        } else if i == 15 {
            lemma_diverge_at(seq![seg_security(), seg_policy(), seg_allowed_hosts()], pk, 0);
        } else if i == 16 {
            lemma_diverge_at(seq![seg_workspace(), seg_auto_allow_read()], pk, 0);
        } else if i == 17 {
            lemma_diverge_at(seq![seg_workspace(), seg_auto_allow_write()], pk, 0);
        } else if i == 18 {
            lemma_diverge_at(seq![seg_model(), seg_api_key()], pk, 0);
        } else if i == 19 {
            lemma_diverge_at(seq![seg_model(), seg_api_url()], pk, 0);
        } else if i == 21 {
            lemma_diverge_at(seq![seg_hooks(), seg_allow_agent_hooks()], pk, 1);
        } else if i == 22 {
            lemma_diverge_at(seq![seg_rate_limits(), seg_elicitation_per_server_per_min()], pk, 0);
        } else if i == 23 {
            lemma_diverge_at(seq![seg_rate_limits(), seg_max_pending_requests()], pk, 0);
        } else if i == 24 {
            lemma_diverge_at(seq![seg_budget(), seg_warn_at_percent()], pk, 0);
        } else if i == 25 {
            lemma_diverge_at(seq![seg_subagents(), seg_max_concurrent()], pk, 0);
        } else if i == 26 {
            lemma_diverge_at(seq![seg_subagents(), seg_max_depth()], pk, 0);
        } else if i == 27 {
            lemma_diverge_at(seq![seg_subagents(), seg_timeout_secs()], pk, 0);
        } else if i == 28 {
            lemma_diverge_at(seq![seg_retry(), seg_llm_max_attempts()], pk, 0);
        } else if i == 29 {
            lemma_diverge_at(seq![seg_retry(), seg_mcp_max_attempts()], pk, 0);
        } else if i == 30 {
            lemma_diverge_at(seq![seg_timeouts(), seg_approval_secs()], pk, 0);
        } else if i == 31 {
            lemma_diverge_at(seq![seg_timeouts(), seg_idle_secs()], pk, 0);
        } else if i == 32 {
            lemma_diverge_at(seq![seg_hooks(), seg_allow_http_hooks()], pk, 1);
        } else if i == 33 {
            lemma_diverge_at(seq![seg_hooks(), seg_allow_command_hooks()], pk, 1);
        }
    }
}

/// Restriction `hooks.allow_agent_hooks` parts ways with the others, and lies outside `servers`.
proof fn lemma_apart_21()
    ensures
        apart_from_others(rules(), 21),
        rules()[21].1.len() > 0,
        rules()[21].1[0] != seg_servers(),
{
    lemma_rule_table();
    lemma_segments_differ();
    let pk = seq![seg_hooks(), seg_allow_agent_hooks()];
    assert forall|i: int| 0 <= i < rules().len() && i != 21 implies diverge(#[trigger] rules()[i].1, rules()[21].1) by {
        if i == 0 {
            lemma_diverge_at(seq![seg_budget(), seg_session_max_usd()], pk, 0);
        } else if i == 1 {
            lemma_diverge_at(seq![seg_budget(), seg_per_action_max_usd()], pk, 0);
        } else if i == 2 {
            lemma_diverge_at(seq![seg_security(), seg_policy(), seg_max_argument_size()], pk, 0);
        } else if i == 3 {
            lemma_diverge_at(seq![seg_security(), seg_policy(), seg_require_approval_for_delete()], pk, 0);
        } else if i == 4 {
            lemma_diverge_at(seq![seg_security(), seg_policy(), seg_require_approval_for_network()], pk, 0);
        } else if i == 5 {
            lemma_diverge_at(seq![seg_security(), seg_policy(), seg_blocked_tools()], pk, 0);
        } else if i == 6 {
            lemma_diverge_at(seq![seg_security(), seg_policy(), seg_denied_paths()], pk, 0);
        } else if i == 7 {
            lemma_diverge_at(seq![seg_security(), seg_policy(), seg_denied_hosts()], pk, 0);
        } else if i == 8 {
            lemma_diverge_at(seq![seg_workspace(), seg_mode()], pk, 0);
        } else if i == 9 {
            lemma_diverge_at(seq![seg_workspace(), seg_escape_policy()], pk, 0);
        } else if i == 10 {
            lemma_diverge_at(seq![seg_workspace(), seg_never_allow()], pk, 0);
        } else if i == 11 {
            lemma_diverge_at(seq![seg_security(), seg_require_signatures()], pk, 0);
        } else if i == 12 {
            lemma_diverge_at(seq![seg_security(), seg_approval_timeout_secs()], pk, 0);
        } else if i == 13 {
            lemma_diverge_at(seq![seg_security(), seg_policy(), seg_approval_required_tools()], pk, 0);
        } else if i == 14 {
            lemma_diverge_at(seq![seg_security(), seg_policy(), seg_allowed_paths()], pk, 0);
        } else if i == 15 {
            lemma_diverge_at(seq![seg_security(), seg_policy(), seg_allowed_hosts()], pk, 0);
        } else if i == 16 {
            lemma_diverge_at(seq![seg_workspace(), seg_auto_allow_read()], pk, 0);
        } else if i == 17 {
            lemma_diverge_at(seq![seg_workspace(), seg_auto_allow_write()], pk, 0);
        } else if i == 18 {
            lemma_diverge_at(seq![seg_model(), seg_api_key()], pk, 0);
        } else if i == 19 {
            lemma_diverge_at(seq![seg_model(), seg_api_url()], pk, 0);
        } else if i == 20 {
            lemma_diverge_at(seq![seg_hooks(), seg_allow_wasm_hooks()], pk, 1);
        } else if i == 22 {
            lemma_diverge_at(seq![seg_rate_limits(), seg_elicitation_per_server_per_min()], pk, 0);
        } else if i == 23 {
            lemma_diverge_at(seq![seg_rate_limits(), seg_max_pending_requests()], pk, 0);
        } else if i == 24 {
            lemma_diverge_at(seq![seg_budget(), seg_warn_at_percent()], pk, 0);
        } else if i == 25 {
            lemma_diverge_at(seq![seg_subagents(), seg_max_concurrent()], pk, 0);
        } else if i == 26 {
            lemma_diverge_at(seq![seg_subagents(), seg_max_depth()], pk, 0);
        } else if i == 27 {
            lemma_diverge_at(seq![seg_subagents(), seg_timeout_secs()], pk, 0);
        } else if i == 28 {
            lemma_diverge_at(seq![seg_retry(), seg_llm_max_attempts()], pk, 0);
        } else if i == 29 {
            lemma_diverge_at(seq![seg_retry(), seg_mcp_max_attempts()], pk, 0);
        } else if i == 30 {
            lemma_diverge_at(seq![seg_timeouts(), seg_approval_secs()], pk, 0);
        } else if i == 31 {
            lemma_diverge_at(seq![seg_timeouts(), seg_idle_secs()], pk, 0);
        } else if i == 32 {
            lemma_diverge_at(seq![seg_hooks(), seg_allow_http_hooks()], pk, 1);
        } else if i == 33 {
            lemma_diverge_at(seq![seg_hooks(), seg_allow_command_hooks()], pk, 1);
        }
    }
}

/// Restriction `rate_limits.elicitation_per_server_per_min` parts ways with the others, and lies outside `servers`.
proof fn lemma_apart_22()
    ensures
        apart_from_others(rules(), 22),
        rules()[22].1.len() > 0,
        rules()[22].1[0] != seg_servers(),
{
    lemma_rule_table();
    lemma_segments_differ();
    let pk = seq![seg_rate_limits(), seg_elicitation_per_server_per_min()];
    assert forall|i: int| 0 <= i < rules().len() && i != 22 implies diverge(#[trigger] rules()[i].1, rules()[22].1) by {
        if i == 0 {
            lemma_diverge_at(seq![seg_budget(), seg_session_max_usd()], pk, 0);
        } else if i == 1 {
            lemma_diverge_at(seq![seg_budget(), seg_per_action_max_usd()], pk, 0);
        } else if i == 2 {
            lemma_diverge_at(seq![seg_security(), seg_policy(), seg_max_argument_size()], pk, 0);
        } else if i == 3 {
            lemma_diverge_at(seq![seg_security(), seg_policy(), seg_require_approval_for_delete()], pk, 0);
        } else if i == 4 {
            lemma_diverge_at(seq![seg_security(), seg_policy(), seg_require_approval_for_network()], pk, 0);
        } else if i == 5 {
            lemma_diverge_at(seq![seg_security(), seg_policy(), seg_blocked_tools()], pk, 0);
        } else if i == 6 {
            lemma_diverge_at(seq![seg_security(), seg_policy(), seg_denied_paths()], pk, 0);
        } else if i == 7 {
            lemma_diverge_at(seq![seg_security(), seg_policy(), seg_denied_hosts()], pk, 0);
        } else if i == 8 {
            lemma_diverge_at(seq![seg_workspace(), seg_mode()], pk, 0);
        } else if i == 9 {
            lemma_diverge_at(seq![seg_workspace(), seg_escape_policy()], pk, 0);
        } else if i == 10 {
            lemma_diverge_at(seq![seg_workspace(), seg_never_allow()], pk, 0);
        } else if i == 11 {
            lemma_diverge_at(seq![seg_security(), seg_require_signatures()], pk, 0);
        } else if i == 12 {
            lemma_diverge_at(seq![seg_security(), seg_approval_timeout_secs()], pk, 0);
        } else if i == 13 {
            lemma_diverge_at(seq![seg_security(), seg_policy(), seg_approval_required_tools()], pk, 0);
        } else if i == 14 {
            lemma_diverge_at(seq![seg_security(), seg_policy(), seg_allowed_paths()], pk, 0);
        } else if i == 15 {
            lemma_diverge_at(seq![seg_security(), seg_policy(), seg_allowed_hosts()], pk, 0);
        } else if i == 16 {
            lemma_diverge_at(seq![seg_workspace(), seg_auto_allow_read()], pk, 0);
        } else if i == 17 {
            lemma_diverge_at(seq![seg_workspace(), seg_auto_allow_write()], pk, 0);
        } else if i == 18 {
            lemma_diverge_at(seq![seg_model(), seg_api_key()], pk, 0);
        } else if i == 19 {
            lemma_diverge_at(seq![seg_model(), seg_api_url()], pk, 0);
        } else if i == 20 {
            lemma_diverge_at(seq![seg_hooks(), seg_allow_wasm_hooks()], pk, 0);
        } else if i == 21 {
            lemma_diverge_at(seq![seg_hooks(), seg_allow_agent_hooks()], pk, 0);
        } else if i == 23 {
            lemma_diverge_at(seq![seg_rate_limits(), seg_max_pending_requests()], pk, 1);
        } else if i == 24 {
            lemma_diverge_at(seq![seg_budget(), seg_warn_at_percent()], pk, 0);
        } else if i == 25 {
            lemma_diverge_at(seq![seg_subagents(), seg_max_concurrent()], pk, 0);
        } else if i == 26 {
            lemma_diverge_at(seq![seg_subagents(), seg_max_depth()], pk, 0);
        } else if i == 27 {
            lemma_diverge_at(seq![seg_subagents(), seg_timeout_secs()], pk, 0);
        } else if i == 28 {
            lemma_diverge_at(seq![seg_retry(), seg_llm_max_attempts()], pk, 0);
        } else if i == 29 {
            lemma_diverge_at(seq![seg_retry(), seg_mcp_max_attempts()], pk, 0);
        } else if i == 30 {
            lemma_diverge_at(seq![seg_timeouts(), seg_approval_secs()], pk, 0);
        } else if i == 31 {
            lemma_diverge_at(seq![seg_timeouts(), seg_idle_secs()], pk, 0);
        } else if i == 32 {
            lemma_diverge_at(seq![seg_hooks(), seg_allow_http_hooks()], pk, 0);
        } else if i == 33 {
            lemma_diverge_at(seq![seg_hooks(), seg_allow_command_hooks()], pk, 0);
        }
    }
}

/// Restriction `rate_limits.max_pending_requests` parts ways with the others, and lies outside `servers`.
proof fn lemma_apart_23()
    ensures
        apart_from_others(rules(), 23),
        rules()[23].1.len() > 0,
        rules()[23].1[0] != seg_servers(),
{
    lemma_rule_table();
    lemma_segments_differ();
    let pk = seq![seg_rate_limits(), seg_max_pending_requests()];
    assert forall|i: int| 0 <= i < rules().len() && i != 23 implies diverge(#[trigger] rules()[i].1, rules()[23].1) by {
        if i == 0 {
            lemma_diverge_at(seq![seg_budget(), seg_session_max_usd()], pk, 0);
        } else if i == 1 {
            lemma_diverge_at(seq![seg_budget(), seg_per_action_max_usd()], pk, 0);
        } else if i == 2 {
            lemma_diverge_at(seq![seg_security(), seg_policy(), seg_max_argument_size()], pk, 0);
        } else if i == 3 {
            lemma_diverge_at(seq![seg_security(), seg_policy(), seg_require_approval_for_delete()], pk, 0);
        } else if i == 4 {
            lemma_diverge_at(seq![seg_security(), seg_policy(), seg_require_approval_for_network()], pk, 0);
        } else if i == 5 {
            lemma_diverge_at(seq![seg_security(), seg_policy(), seg_blocked_tools()], pk, 0);
        } else if i == 6 {
            lemma_diverge_at(seq![seg_security(), seg_policy(), seg_denied_paths()], pk, 0);
        } else if i == 7 {
            lemma_diverge_at(seq![seg_security(), seg_policy(), seg_denied_hosts()], pk, 0);
        } else if i == 8 {
            lemma_diverge_at(seq![seg_workspace(), seg_mode()], pk, 0);
        } else if i == 9 {
            lemma_diverge_at(seq![seg_workspace(), seg_escape_policy()], pk, 0);
        } else if i == 10 {
            lemma_diverge_at(seq![seg_workspace(), seg_never_allow()], pk, 0);
        } else if i == 11 {
            lemma_diverge_at(seq![seg_security(), seg_require_signatures()], pk, 0);
        } else if i == 12 {
            lemma_diverge_at(seq![seg_security(), seg_approval_timeout_secs()], pk, 0);
        } else if i == 13 {
            lemma_diverge_at(seq![seg_security(), seg_policy(), seg_approval_required_tools()], pk, 0);
        } else if i == 14 {
            lemma_diverge_at(seq![seg_security(), seg_policy(), seg_allowed_paths()], pk, 0);
        } else if i == 15 {
            lemma_diverge_at(seq![seg_security(), seg_policy(), seg_allowed_hosts()], pk, 0);
        } else if i == 16 {
            lemma_diverge_at(seq![seg_workspace(), seg_auto_allow_read()], pk, 0);
        } else if i == 17 {
            lemma_diverge_at(seq![seg_workspace(), seg_auto_allow_write()], pk, 0);
        } else if i == 18 {
            lemma_diverge_at(seq![seg_model(), seg_api_key()], pk, 0);
        } else if i == 19 {
            lemma_diverge_at(seq![seg_model(), seg_api_url()], pk, 0);
        } else if i == 20 {
            lemma_diverge_at(seq![seg_hooks(), seg_allow_wasm_hooks()], pk, 0);
        } else if i == 21 {
            lemma_diverge_at(seq![seg_hooks(), seg_allow_agent_hooks()], pk, 0);
        } else if i == 22 {
            lemma_diverge_at(seq![seg_rate_limits(), seg_elicitation_per_server_per_min()], pk, 1);
        } else if i == 24 {
            lemma_diverge_at(seq![seg_budget(), seg_warn_at_percent()], pk, 0);
        } else if i == 25 {
            lemma_diverge_at(seq![seg_subagents(), seg_max_concurrent()], pk, 0);
        } else if i == 26 {
            lemma_diverge_at(seq![seg_subagents(), seg_max_depth()], pk, 0);
        } else if i == 27 {
            lemma_diverge_at(seq![seg_subagents(), seg_timeout_secs()], pk, 0);
        } else if i == 28 {
            lemma_diverge_at(seq![seg_retry(), seg_llm_max_attempts()], pk, 0);
        } else if i == 29 {
            lemma_diverge_at(seq![seg_retry(), seg_mcp_max_attempts()], pk, 0);
        } else if i == 30 {
            lemma_diverge_at(seq![seg_timeouts(), seg_approval_secs()], pk, 0);
        } else if i == 31 {
            lemma_diverge_at(seq![seg_timeouts(), seg_idle_secs()], pk, 0);
        } else if i == 32 {
            lemma_diverge_at(seq![seg_hooks(), seg_allow_http_hooks()], pk, 0);
        } else if i == 33 {
            lemma_diverge_at(seq![seg_hooks(), seg_allow_command_hooks()], pk, 0);
        }
    }
}

/// Restriction `budget.warn_at_percent` parts ways with the others, and lies outside `servers`.
proof fn lemma_apart_24()
    ensures
        apart_from_others(rules(), 24),
        rules()[24].1.len() > 0,
        rules()[24].1[0] != seg_servers(),
{
    lemma_rule_table();
    lemma_segments_differ();
    let pk = seq![seg_budget(), seg_warn_at_percent()];
    assert forall|i: int| 0 <= i < rules().len() && i != 24 implies diverge(#[trigger] rules()[i].1, rules()[24].1) by {
        if i == 0 {
            lemma_diverge_at(seq![seg_budget(), seg_session_max_usd()], pk, 1);
        } else if i == 1 {
            lemma_diverge_at(seq![seg_budget(), seg_per_action_max_usd()], pk, 1);
        } else if i == 2 {
            lemma_diverge_at(seq![seg_security(), seg_policy(), seg_max_argument_size()], pk, 0);
        } else if i == 3 {
            lemma_diverge_at(seq![seg_security(), seg_policy(), seg_require_approval_for_delete()], pk, 0);
        } else if i == 4 {
            lemma_diverge_at(seq![seg_security(), seg_policy(), seg_require_approval_for_network()], pk, 0);
        } else if i == 5 {
            lemma_diverge_at(seq![seg_security(), seg_policy(), seg_blocked_tools()], pk, 0);
        } else if i == 6 {
            lemma_diverge_at(seq![seg_security(), seg_policy(), seg_denied_paths()], pk, 0);
        } else if i == 7 {
            lemma_diverge_at(seq![seg_security(), seg_policy(), seg_denied_hosts()], pk, 0);
        } else if i == 8 {
            lemma_diverge_at(seq![seg_workspace(), seg_mode()], pk, 0);
        } else if i == 9 {
            lemma_diverge_at(seq![seg_workspace(), seg_escape_policy()], pk, 0);
        } else if i == 10 {
            lemma_diverge_at(seq![seg_workspace(), seg_never_allow()], pk, 0);
        } else if i == 11 {
            lemma_diverge_at(seq![seg_security(), seg_require_signatures()], pk, 0);
        } else if i == 12 {
            lemma_diverge_at(seq![seg_security(), seg_approval_timeout_secs()], pk, 0);
        } else if i == 13 {
            lemma_diverge_at(seq![seg_security(), seg_policy(), seg_approval_required_tools()], pk, 0);
        } else if i == 14 {
            lemma_diverge_at(seq![seg_security(), seg_policy(), seg_allowed_paths()], pk, 0);
        } else if i == 15 {
            lemma_diverge_at(seq![seg_security(), seg_policy(), seg_allowed_hosts()], pk, 0);
        } else if i == 16 {
            lemma_diverge_at(seq![seg_workspace(), seg_auto_allow_read()], pk, 0);
        } else if i == 17 {
            lemma_diverge_at(seq![seg_workspace(), seg_auto_allow_write()], pk, 0);
        } else if i == 18 {
            lemma_diverge_at(seq![seg_model(), seg_api_key()], pk, 0);
        } else if i == 19 {
            lemma_diverge_at(seq![seg_model(), seg_api_url()], pk, 0);
        } else if i == 20 {
            lemma_diverge_at(seq![seg_hooks(), seg_allow_wasm_hooks()], pk, 0);
        } else if i == 21 {
            lemma_diverge_at(seq![seg_hooks(), seg_allow_agent_hooks()], pk, 0);
        } else if i == 22 {
            lemma_diverge_at(seq![seg_rate_limits(), seg_elicitation_per_server_per_min()], pk, 0);
        } else if i == 23 {
            lemma_diverge_at(seq![seg_rate_limits(), seg_max_pending_requests()], pk, 0);
        } else if i == 25 {
            lemma_diverge_at(seq![seg_subagents(), seg_max_concurrent()], pk, 0);
        } else if i == 26 {
            lemma_diverge_at(seq![seg_subagents(), seg_max_depth()], pk, 0);
        } else if i == 27 {
            lemma_diverge_at(seq![seg_subagents(), seg_timeout_secs()], pk, 0);
        } else if i == 28 {
            lemma_diverge_at(seq![seg_retry(), seg_llm_max_attempts()], pk, 0);
        } else if i == 29 {
            lemma_diverge_at(seq![seg_retry(), seg_mcp_max_attempts()], pk, 0);
        } else if i == 30 {
            lemma_diverge_at(seq![seg_timeouts(), seg_approval_secs()], pk, 0);
        } else if i == 31 {
            lemma_diverge_at(seq![seg_timeouts(), seg_idle_secs()], pk, 0);
        } else if i == 32 {
            lemma_diverge_at(seq![seg_hooks(), seg_allow_http_hooks()], pk, 0);
        } else if i == 33 {
            lemma_diverge_at(seq![seg_hooks(), seg_allow_command_hooks()], pk, 0);
        }
    }
}

/// Restriction `subagents.max_concurrent` parts ways with the others, and lies outside `servers`.
proof fn lemma_apart_25()
    ensures
        apart_from_others(rules(), 25),
        rules()[25].1.len() > 0,
        rules()[25].1[0] != seg_servers(),
{
    lemma_rule_table();
    lemma_segments_differ();
    let pk = seq![seg_subagents(), seg_max_concurrent()];
    assert forall|i: int| 0 <= i < rules().len() && i != 25 implies diverge(#[trigger] rules()[i].1, rules()[25].1) by {
        if i == 0 {
            lemma_diverge_at(seq![seg_budget(), seg_session_max_usd()], pk, 0);
        } else if i == 1 {
            lemma_diverge_at(seq![seg_budget(), seg_per_action_max_usd()], pk, 0);
        } else if i == 2 {
            lemma_diverge_at(seq![seg_security(), seg_policy(), seg_max_argument_size()], pk, 0);
        } else if i == 3 {
            lemma_diverge_at(seq![seg_security(), seg_policy(), seg_require_approval_for_delete()], pk, 0);
        } else if i == 4 {
            lemma_diverge_at(seq![seg_security(), seg_policy(), seg_require_approval_for_network()], pk, 0);
        } else if i == 5 {
            lemma_diverge_at(seq![seg_security(), seg_policy(), seg_blocked_tools()], pk, 0);
        } else if i == 6 {
            lemma_diverge_at(seq![seg_security(), seg_policy(), seg_denied_paths()], pk, 0);
        } else if i == 7 {
            lemma_diverge_at(seq![seg_security(), seg_policy(), seg_denied_hosts()], pk, 0);
        } else if i == 8 {
            lemma_diverge_at(seq![seg_workspace(), seg_mode()], pk, 0);
        } else if i == 9 {
            lemma_diverge_at(seq![seg_workspace(), seg_escape_policy()], pk, 0);
        } else if i == 10 {
            lemma_diverge_at(seq![seg_workspace(), seg_never_allow()], pk, 0);
        } else if i == 11 {
            lemma_diverge_at(seq![seg_security(), seg_require_signatures()], pk, 0);
        } else if i == 12 {
            lemma_diverge_at(seq![seg_security(), seg_approval_timeout_secs()], pk, 0);
        } else if i == 13 {
            lemma_diverge_at(seq![seg_security(), seg_policy(), seg_approval_required_tools()], pk, 0);
        } else if i == 14 {
            lemma_diverge_at(seq![seg_security(), seg_policy(), seg_allowed_paths()], pk, 0);
        } else if i == 15 {
            lemma_diverge_at(seq![seg_security(), seg_policy(), seg_allowed_hosts()], pk, 0);
        } else if i == 16 {
            lemma_diverge_at(seq![seg_workspace(), seg_auto_allow_read()], pk, 0);
        } else if i == 17 {
            lemma_diverge_at(seq![seg_workspace(), seg_auto_allow_write()], pk, 0);
        } else if i == 18 {
            lemma_diverge_at(seq![seg_model(), seg_api_key()], pk, 0);
        } else if i == 19 {
            lemma_diverge_at(seq![seg_model(), seg_api_url()], pk, 0);
        } else if i == 20 {
            lemma_diverge_at(seq![seg_hooks(), seg_allow_wasm_hooks()], pk, 0);
        } else if i == 21 {
            lemma_diverge_at(seq![seg_hooks(), seg_allow_agent_hooks()], pk, 0);
        } else if i == 22 {
            lemma_diverge_at(seq![seg_rate_limits(), seg_elicitation_per_server_per_min()], pk, 0);
        } else if i == 23 {
            lemma_diverge_at(seq![seg_rate_limits(), seg_max_pending_requests()], pk, 0);
        } else if i == 24 {
            lemma_diverge_at(seq![seg_budget(), seg_warn_at_percent()], pk, 0);
        } else if i == 26 {
            lemma_diverge_at(seq![seg_subagents(), seg_max_depth()], pk, 1);
        } else if i == 27 {
            lemma_diverge_at(seq![seg_subagents(), seg_timeout_secs()], pk, 1);
        } else if i == 28 {
            lemma_diverge_at(seq![seg_retry(), seg_llm_max_attempts()], pk, 0);
        } else if i == 29 {
            lemma_diverge_at(seq![seg_retry(), seg_mcp_max_attempts()], pk, 0);
        } else if i == 30 {
            lemma_diverge_at(seq![seg_timeouts(), seg_approval_secs()], pk, 0);
        } else if i == 31 {
            lemma_diverge_at(seq![seg_timeouts(), seg_idle_secs()], pk, 0);
        } else if i == 32 {
            lemma_diverge_at(seq![seg_hooks(), seg_allow_http_hooks()], pk, 0);
        } else if i == 33 {
            lemma_diverge_at(seq![seg_hooks(), seg_allow_command_hooks()], pk, 0);
        }
    }
}

/// Restriction `subagents.max_depth` parts ways with the others, and lies outside `servers`.
proof fn lemma_apart_26()
    ensures
        apart_from_others(rules(), 26),
        rules()[26].1.len() > 0,
        rules()[26].1[0] != seg_servers(),
{
    lemma_rule_table();
    lemma_segments_differ();
    let pk = seq![seg_subagents(), seg_max_depth()];
    assert forall|i: int| 0 <= i < rules().len() && i != 26 implies diverge(#[trigger] rules()[i].1, rules()[26].1) by {
        if i == 0 {
            lemma_diverge_at(seq![seg_budget(), seg_session_max_usd()], pk, 0);
        } else if i == 1 {
            lemma_diverge_at(seq![seg_budget(), seg_per_action_max_usd()], pk, 0);
        } else if i == 2 {
            lemma_diverge_at(seq![seg_security(), seg_policy(), seg_max_argument_size()], pk, 0);
        } else if i == 3 {
            lemma_diverge_at(seq![seg_security(), seg_policy(), seg_require_approval_for_delete()], pk, 0);
        } else if i == 4 {
            lemma_diverge_at(seq![seg_security(), seg_policy(), seg_require_approval_for_network()], pk, 0);
        } else if i == 5 {
            lemma_diverge_at(seq![seg_security(), seg_policy(), seg_blocked_tools()], pk, 0);
        } else if i == 6 {
            lemma_diverge_at(seq![seg_security(), seg_policy(), seg_denied_paths()], pk, 0);
        } else if i == 7 {
            lemma_diverge_at(seq![seg_security(), seg_policy(), seg_denied_hosts()], pk, 0);
        } else if i == 8 {
            lemma_diverge_at(seq![seg_workspace(), seg_mode()], pk, 0);
        } else if i == 9 {
            lemma_diverge_at(seq![seg_workspace(), seg_escape_policy()], pk, 0);
        } else if i == 10 {
            lemma_diverge_at(seq![seg_workspace(), seg_never_allow()], pk, 0);
        } else if i == 11 {
            lemma_diverge_at(seq![seg_security(), seg_require_signatures()], pk, 0);
        } else if i == 12 {
            lemma_diverge_at(seq![seg_security(), seg_approval_timeout_secs()], pk, 0);
        } else if i == 13 {
            lemma_diverge_at(seq![seg_security(), seg_policy(), seg_approval_required_tools()], pk, 0);
        } else if i == 14 {
            lemma_diverge_at(seq![seg_security(), seg_policy(), seg_allowed_paths()], pk, 0);
        } else if i == 15 {
            lemma_diverge_at(seq![seg_security(), seg_policy(), seg_allowed_hosts()], pk, 0);
        } else if i == 16 {
            lemma_diverge_at(seq![seg_workspace(), seg_auto_allow_read()], pk, 0);
        } else if i == 17 {
            lemma_diverge_at(seq![seg_workspace(), seg_auto_allow_write()], pk, 0);
        } else if i == 18 {
            lemma_diverge_at(seq![seg_model(), seg_api_key()], pk, 0);
        } else if i == 19 {
            lemma_diverge_at(seq![seg_model(), seg_api_url()], pk, 0);
        } else if i == 20 {
            lemma_diverge_at(seq![seg_hooks(), seg_allow_wasm_hooks()], pk, 0);
        } else if i == 21 {
            lemma_diverge_at(seq![seg_hooks(), seg_allow_agent_hooks()], pk, 0);
        } else if i == 22 {
            lemma_diverge_at(seq![seg_rate_limits(), seg_elicitation_per_server_per_min()], pk, 0);
        } else if i == 23 {
            lemma_diverge_at(seq![seg_rate_limits(), seg_max_pending_requests()], pk, 0);
        } else if i == 24 {
            lemma_diverge_at(seq![seg_budget(), seg_warn_at_percent()], pk, 0);
        } else if i == 25 {
            lemma_diverge_at(seq![seg_subagents(), seg_max_concurrent()], pk, 1);
        } else if i == 27 {
            lemma_diverge_at(seq![seg_subagents(), seg_timeout_secs()], pk, 1);
        } else if i == 28 {
            lemma_diverge_at(seq![seg_retry(), seg_llm_max_attempts()], pk, 0);
        } else if i == 29 {
            lemma_diverge_at(seq![seg_retry(), seg_mcp_max_attempts()], pk, 0);
        } else if i == 30 {
            lemma_diverge_at(seq![seg_timeouts(), seg_approval_secs()], pk, 0);
        } else if i == 31 {
            lemma_diverge_at(seq![seg_timeouts(), seg_idle_secs()], pk, 0);
        } else if i == 32 {
            lemma_diverge_at(seq![seg_hooks(), seg_allow_http_hooks()], pk, 0);
        } else if i == 33 {
            lemma_diverge_at(seq![seg_hooks(), seg_allow_command_hooks()], pk, 0);
        }
    }
}

/// Restriction `subagents.timeout_secs` parts ways with the others, and lies outside `servers`.
proof fn lemma_apart_27()
    ensures
        apart_from_others(rules(), 27),
        rules()[27].1.len() > 0,
        rules()[27].1[0] != seg_servers(),
{
    lemma_rule_table();
    lemma_segments_differ();
    let pk = seq![seg_subagents(), seg_timeout_secs()];
    assert forall|i: int| 0 <= i < rules().len() && i != 27 implies diverge(#[trigger] rules()[i].1, rules()[27].1) by {
        if i == 0 {
            lemma_diverge_at(seq![seg_budget(), seg_session_max_usd()], pk, 0);
        } else if i == 1 {
            lemma_diverge_at(seq![seg_budget(), seg_per_action_max_usd()], pk, 0);
        } else if i == 2 {
            lemma_diverge_at(seq![seg_security(), seg_policy(), seg_max_argument_size()], pk, 0);
        } else if i == 3 {
            lemma_diverge_at(seq![seg_security(), seg_policy(), seg_require_approval_for_delete()], pk, 0);
        } else if i == 4 {
            lemma_diverge_at(seq![seg_security(), seg_policy(), seg_require_approval_for_network()], pk, 0);
        } else if i == 5 {
            lemma_diverge_at(seq![seg_security(), seg_policy(), seg_blocked_tools()], pk, 0);
        } else if i == 6 {
            lemma_diverge_at(seq![seg_security(), seg_policy(), seg_denied_paths()], pk, 0);
        } else if i == 7 {
            lemma_diverge_at(seq![seg_security(), seg_policy(), seg_denied_hosts()], pk, 0);
        } else if i == 8 {
            lemma_diverge_at(seq![seg_workspace(), seg_mode()], pk, 0);
        } else if i == 9 {
            lemma_diverge_at(seq![seg_workspace(), seg_escape_policy()], pk, 0);
        } else if i == 10 {
            lemma_diverge_at(seq![seg_workspace(), seg_never_allow()], pk, 0);
        } else if i == 11 {
            lemma_diverge_at(seq![seg_security(), seg_require_signatures()], pk, 0);
        } else if i == 12 {
            lemma_diverge_at(seq![seg_security(), seg_approval_timeout_secs()], pk, 0);
        } else if i == 13 {
            lemma_diverge_at(seq![seg_security(), seg_policy(), seg_approval_required_tools()], pk, 0);
        } else if i == 14 {
            lemma_diverge_at(seq![seg_security(), seg_policy(), seg_allowed_paths()], pk, 0);
        } else if i == 15 {
            lemma_diverge_at(seq![seg_security(), seg_policy(), seg_allowed_hosts()], pk, 0);
        } else if i == 16 {
            lemma_diverge_at(seq![seg_workspace(), seg_auto_allow_read()], pk, 0);
        } else if i == 17 {
            lemma_diverge_at(seq![seg_workspace(), seg_auto_allow_write()], pk, 0);
        } else if i == 18 {
            lemma_diverge_at(seq![seg_model(), seg_api_key()], pk, 0);
        } else if i == 19 {
            lemma_diverge_at(seq![seg_model(), seg_api_url()], pk, 0);
        } else if i == 20 {
            lemma_diverge_at(seq![seg_hooks(), seg_allow_wasm_hooks()], pk, 0);
        } else if i == 21 {
            lemma_diverge_at(seq![seg_hooks(), seg_allow_agent_hooks()], pk, 0);
        } else if i == 22 {
            lemma_diverge_at(seq![seg_rate_limits(), seg_elicitation_per_server_per_min()], pk, 0);
        } else if i == 23 {
            lemma_diverge_at(seq![seg_rate_limits(), seg_max_pending_requests()], pk, 0);
        } else if i == 24 {
            lemma_diverge_at(seq![seg_budget(), seg_warn_at_percent()], pk, 0);
        } else if i == 25 {
            lemma_diverge_at(seq![seg_subagents(), seg_max_concurrent()], pk, 1);
        } else if i == 26 {
            lemma_diverge_at(seq![seg_subagents(), seg_max_depth()], pk, 1);
        } else if i == 28 {
            lemma_diverge_at(seq![seg_retry(), seg_llm_max_attempts()], pk, 0);
        } else if i == 29 {
            lemma_diverge_at(seq![seg_retry(), seg_mcp_max_attempts()], pk, 0);
        } else if i == 30 {
            lemma_diverge_at(seq![seg_timeouts(), seg_approval_secs()], pk, 0);
        } else if i == 31 {
            lemma_diverge_at(seq![seg_timeouts(), seg_idle_secs()], pk, 0);
        } else if i == 32 {
            lemma_diverge_at(seq![seg_hooks(), seg_allow_http_hooks()], pk, 0);
        } else if i == 33 {
            lemma_diverge_at(seq![seg_hooks(), seg_allow_command_hooks()], pk, 0);
        }
    }
}

/// Restriction `retry.llm_max_attempts` parts ways with the others, and lies outside `servers`.
proof fn lemma_apart_28()
    ensures
        apart_from_others(rules(), 28),
        rules()[28].1.len() > 0,
        rules()[28].1[0] != seg_servers(),
{
    lemma_rule_table();
    lemma_segments_differ();
    let pk = seq![seg_retry(), seg_llm_max_attempts()];
    assert forall|i: int| 0 <= i < rules().len() && i != 28 implies diverge(#[trigger] rules()[i].1, rules()[28].1) by {
        if i == 0 {
            lemma_diverge_at(seq![seg_budget(), seg_session_max_usd()], pk, 0);
        } else if i == 1 {
            lemma_diverge_at(seq![seg_budget(), seg_per_action_max_usd()], pk, 0);
        } else if i == 2 {
            lemma_diverge_at(seq![seg_security(), seg_policy(), seg_max_argument_size()], pk, 0);
        } else if i == 3 {
            lemma_diverge_at(seq![seg_security(), seg_policy(), seg_require_approval_for_delete()], pk, 0);
        } else if i == 4 {
            lemma_diverge_at(seq![seg_security(), seg_policy(), seg_require_approval_for_network()], pk, 0);
        } else if i == 5 {
            lemma_diverge_at(seq![seg_security(), seg_policy(), seg_blocked_tools()], pk, 0);
        } else if i == 6 {
            lemma_diverge_at(seq![seg_security(), seg_policy(), seg_denied_paths()], pk, 0);
        } else if i == 7 {
            lemma_diverge_at(seq![seg_security(), seg_policy(), seg_denied_hosts()], pk, 0);
        } else if i == 8 {
            lemma_diverge_at(seq![seg_workspace(), seg_mode()], pk, 0);
        } else if i == 9 {
            lemma_diverge_at(seq![seg_workspace(), seg_escape_policy()], pk, 0);
        } else if i == 10 {
            lemma_diverge_at(seq![seg_workspace(), seg_never_allow()], pk, 0);
        } else if i == 11 {
            lemma_diverge_at(seq![seg_security(), seg_require_signatures()], pk, 0);
        } else if i == 12 {
            lemma_diverge_at(seq![seg_security(), seg_approval_timeout_secs()], pk, 0);
        } else if i == 13 {
            lemma_diverge_at(seq![seg_security(), seg_policy(), seg_approval_required_tools()], pk, 0);
        } else if i == 14 {
            lemma_diverge_at(seq![seg_security(), seg_policy(), seg_allowed_paths()], pk, 0);
        } else if i == 15 {
            lemma_diverge_at(seq![seg_security(), seg_policy(), seg_allowed_hosts()], pk, 0);
        } else if i == 16 {
            lemma_diverge_at(seq![seg_workspace(), seg_auto_allow_read()], pk, 0);
        } else if i == 17 {
            lemma_diverge_at(seq![seg_workspace(), seg_auto_allow_write()], pk, 0);
        } else if i == 18 {
            lemma_diverge_at(seq![seg_model(), seg_api_key()], pk, 0);
        } else if i == 19 {
            lemma_diverge_at(seq![seg_model(), seg_api_url()], pk, 0);
        } else if i == 20 {
            lemma_diverge_at(seq![seg_hooks(), seg_allow_wasm_hooks()], pk, 0);
        } else if i == 21 {
            lemma_diverge_at(seq![seg_hooks(), seg_allow_agent_hooks()], pk, 0);
        } else if i == 22 {
            lemma_diverge_at(seq![seg_rate_limits(), seg_elicitation_per_server_per_min()], pk, 0);
        } else if i == 23 {
            lemma_diverge_at(seq![seg_rate_limits(), seg_max_pending_requests()], pk, 0);
        } else if i == 24 {
            lemma_diverge_at(seq![seg_budget(), seg_warn_at_percent()], pk, 0);
        } else if i == 25 {
            lemma_diverge_at(seq![seg_subagents(), seg_max_concurrent()], pk, 0);
        } else if i == 26 {
            lemma_diverge_at(seq![seg_subagents(), seg_max_depth()], pk, 0);
        } else if i == 27 {
            lemma_diverge_at(seq![seg_subagents(), seg_timeout_secs()], pk, 0);
        } else if i == 29 {
            lemma_diverge_at(seq![seg_retry(), seg_mcp_max_attempts()], pk, 1);
        } else if i == 30 {
            lemma_diverge_at(seq![seg_timeouts(), seg_approval_secs()], pk, 0);
        } else if i == 31 {
            lemma_diverge_at(seq![seg_timeouts(), seg_idle_secs()], pk, 0);
        } else if i == 32 {
            lemma_diverge_at(seq![seg_hooks(), seg_allow_http_hooks()], pk, 0);
        } else if i == 33 {
            lemma_diverge_at(seq![seg_hooks(), seg_allow_command_hooks()], pk, 0);
        }
    }
}

/// Restriction `retry.mcp_max_attempts` parts ways with the others, and lies outside `servers`.
proof fn lemma_apart_29()
    ensures
        apart_from_others(rules(), 29),
        rules()[29].1.len() > 0,
        rules()[29].1[0] != seg_servers(),
{
    lemma_rule_table();
    lemma_segments_differ();
    let pk = seq![seg_retry(), seg_mcp_max_attempts()];
    assert forall|i: int| 0 <= i < rules().len() && i != 29 implies diverge(#[trigger] rules()[i].1, rules()[29].1) by {
        if i == 0 {
            lemma_diverge_at(seq![seg_budget(), seg_session_max_usd()], pk, 0);
        } else if i == 1 {
            lemma_diverge_at(seq![seg_budget(), seg_per_action_max_usd()], pk, 0);
        } else if i == 2 {
            lemma_diverge_at(seq![seg_security(), seg_policy(), seg_max_argument_size()], pk, 0);
        } else if i == 3 {
            lemma_diverge_at(seq![seg_security(), seg_policy(), seg_require_approval_for_delete()], pk, 0);
        } else if i == 4 {
            lemma_diverge_at(seq![seg_security(), seg_policy(), seg_require_approval_for_network()], pk, 0);
        } else if i == 5 {
            lemma_diverge_at(seq![seg_security(), seg_policy(), seg_blocked_tools()], pk, 0);
        } else if i == 6 {
            lemma_diverge_at(seq![seg_security(), seg_policy(), seg_denied_paths()], pk, 0);
        } else if i == 7 {
            lemma_diverge_at(seq![seg_security(), seg_policy(), seg_denied_hosts()], pk, 0);
        } else if i == 8 {
            lemma_diverge_at(seq![seg_workspace(), seg_mode()], pk, 0);
        } else if i == 9 {
            lemma_diverge_at(seq![seg_workspace(), seg_escape_policy()], pk, 0);
        } else if i == 10 {
            lemma_diverge_at(seq![seg_workspace(), seg_never_allow()], pk, 0);
        } else if i == 11 {
            lemma_diverge_at(seq![seg_security(), seg_require_signatures()], pk, 0);
        } else if i == 12 {
            lemma_diverge_at(seq![seg_security(), seg_approval_timeout_secs()], pk, 0);
        } else if i == 13 {
            lemma_diverge_at(seq![seg_security(), seg_policy(), seg_approval_required_tools()], pk, 0);
        } else if i == 14 {
            lemma_diverge_at(seq![seg_security(), seg_policy(), seg_allowed_paths()], pk, 0);
        } else if i == 15 {
            lemma_diverge_at(seq![seg_security(), seg_policy(), seg_allowed_hosts()], pk, 0);
        } else if i == 16 {
            lemma_diverge_at(seq![seg_workspace(), seg_auto_allow_read()], pk, 0);
        } else if i == 17 {
            lemma_diverge_at(seq![seg_workspace(), seg_auto_allow_write()], pk, 0);
        } else if i == 18 {
            lemma_diverge_at(seq![seg_model(), seg_api_key()], pk, 0);
        } else if i == 19 {
            lemma_diverge_at(seq![seg_model(), seg_api_url()], pk, 0);
        } else if i == 20 {
            lemma_diverge_at(seq![seg_hooks(), seg_allow_wasm_hooks()], pk, 0);
        } else if i == 21 {
            lemma_diverge_at(seq![seg_hooks(), seg_allow_agent_hooks()], pk, 0);
        } else if i == 22 {
            lemma_diverge_at(seq![seg_rate_limits(), seg_elicitation_per_server_per_min()], pk, 0);
        } else if i == 23 {
            lemma_diverge_at(seq![seg_rate_limits(), seg_max_pending_requests()], pk, 0);
        } else if i == 24 {
            lemma_diverge_at(seq![seg_budget(), seg_warn_at_percent()], pk, 0);
        } else if i == 25 {
            lemma_diverge_at(seq![seg_subagents(), seg_max_concurrent()], pk, 0);
        } else if i == 26 {
            lemma_diverge_at(seq![seg_subagents(), seg_max_depth()], pk, 0);
        } else if i == 27 {
            lemma_diverge_at(seq![seg_subagents(), seg_timeout_secs()], pk, 0);
        } else if i == 28 {
            lemma_diverge_at(seq![seg_retry(), seg_llm_max_attempts()], pk, 1);
        } else if i == 30 {
            lemma_diverge_at(seq![seg_timeouts(), seg_approval_secs()], pk, 0);
        } else if i == 31 {
            lemma_diverge_at(seq![seg_timeouts(), seg_idle_secs()], pk, 0);
        } else if i == 32 {
            lemma_diverge_at(seq![seg_hooks(), seg_allow_http_hooks()], pk, 0);
        } else if i == 33 {
            lemma_diverge_at(seq![seg_hooks(), seg_allow_command_hooks()], pk, 0);
        }
    }
}

/// Restriction `timeouts.approval_secs` parts ways with the others, and lies outside `servers`.
proof fn lemma_apart_30()
    ensures
        apart_from_others(rules(), 30),
        rules()[30].1.len() > 0,
        rules()[30].1[0] != seg_servers(),
{
    lemma_rule_table();
    lemma_segments_differ();
    let pk = seq![seg_timeouts(), seg_approval_secs()];
    assert forall|i: int| 0 <= i < rules().len() && i != 30 implies diverge(#[trigger] rules()[i].1, rules()[30].1) by {
        if i == 0 {
            lemma_diverge_at(seq![seg_budget(), seg_session_max_usd()], pk, 0);
        } else if i == 1 {
            lemma_diverge_at(seq![seg_budget(), seg_per_action_max_usd()], pk, 0);
        } else if i == 2 {
            lemma_diverge_at(seq![seg_security(), seg_policy(), seg_max_argument_size()], pk, 0);
        } else if i == 3 {
            lemma_diverge_at(seq![seg_security(), seg_policy(), seg_require_approval_for_delete()], pk, 0);
        } else if i == 4 {
            lemma_diverge_at(seq![seg_security(), seg_policy(), seg_require_approval_for_network()], pk, 0);
        } else if i == 5 {
            lemma_diverge_at(seq![seg_security(), seg_policy(), seg_blocked_tools()], pk, 0);
        } else if i == 6 {
            lemma_diverge_at(seq![seg_security(), seg_policy(), seg_denied_paths()], pk, 0);
        } else if i == 7 {
            lemma_diverge_at(seq![seg_security(), seg_policy(), seg_denied_hosts()], pk, 0);
        } else if i == 8 {
            lemma_diverge_at(seq![seg_workspace(), seg_mode()], pk, 0);
        } else if i == 9 {
            lemma_diverge_at(seq![seg_workspace(), seg_escape_policy()], pk, 0);
        } else if i == 10 {
            lemma_diverge_at(seq![seg_workspace(), seg_never_allow()], pk, 0);
        } else if i == 11 {
            lemma_diverge_at(seq![seg_security(), seg_require_signatures()], pk, 0);
        } else if i == 12 {
            lemma_diverge_at(seq![seg_security(), seg_approval_timeout_secs()], pk, 0);
        } else if i == 13 {
            lemma_diverge_at(seq![seg_security(), seg_policy(), seg_approval_required_tools()], pk, 0);
        } else if i == 14 {
            lemma_diverge_at(seq![seg_security(), seg_policy(), seg_allowed_paths()], pk, 0);
        } else if i == 15 {
            lemma_diverge_at(seq![seg_security(), seg_policy(), seg_allowed_hosts()], pk, 0);
        } else if i == 16 {
            lemma_diverge_at(seq![seg_workspace(), seg_auto_allow_read()], pk, 0);
        } else if i == 17 {
            lemma_diverge_at(seq![seg_workspace(), seg_auto_allow_write()], pk, 0);
        } else if i == 18 {
            lemma_diverge_at(seq![seg_model(), seg_api_key()], pk, 0);
        } else if i == 19 {
            lemma_diverge_at(seq![seg_model(), seg_api_url()], pk, 0);
        } else if i == 20 {
            lemma_diverge_at(seq![seg_hooks(), seg_allow_wasm_hooks()], pk, 0);
        } else if i == 21 {
            lemma_diverge_at(seq![seg_hooks(), seg_allow_agent_hooks()], pk, 0);
        } else if i == 22 {
            lemma_diverge_at(seq![seg_rate_limits(), seg_elicitation_per_server_per_min()], pk, 0);
        } else if i == 23 {
            lemma_diverge_at(seq![seg_rate_limits(), seg_max_pending_requests()], pk, 0);
        } else if i == 24 {
            lemma_diverge_at(seq![seg_budget(), seg_warn_at_percent()], pk, 0);
        } else if i == 25 {
            lemma_diverge_at(seq![seg_subagents(), seg_max_concurrent()], pk, 0);
        } else if i == 26 {
            lemma_diverge_at(seq![seg_subagents(), seg_max_depth()], pk, 0);
        } else if i == 27 {
            lemma_diverge_at(seq![seg_subagents(), seg_timeout_secs()], pk, 0);
        } else if i == 28 {
            lemma_diverge_at(seq![seg_retry(), seg_llm_max_attempts()], pk, 0);
        } else if i == 29 {
            lemma_diverge_at(seq![seg_retry(), seg_mcp_max_attempts()], pk, 0);
        } else if i == 31 {
            lemma_diverge_at(seq![seg_timeouts(), seg_idle_secs()], pk, 1);
        } else if i == 32 {
            lemma_diverge_at(seq![seg_hooks(), seg_allow_http_hooks()], pk, 0);
        } else if i == 33 {
            lemma_diverge_at(seq![seg_hooks(), seg_allow_command_hooks()], pk, 0);
        }
    }
}

/// Restriction `timeouts.idle_secs` parts ways with the others, and lies outside `servers`.
proof fn lemma_apart_31()
    ensures
        apart_from_others(rules(), 31),
        rules()[31].1.len() > 0,
        rules()[31].1[0] != seg_servers(),
{
    lemma_rule_table();
    lemma_segments_differ();
    let pk = seq![seg_timeouts(), seg_idle_secs()];
    assert forall|i: int| 0 <= i < rules().len() && i != 31 implies diverge(#[trigger] rules()[i].1, rules()[31].1) by {
        if i == 0 {
            lemma_diverge_at(seq![seg_budget(), seg_session_max_usd()], pk, 0);
        } else if i == 1 {
            lemma_diverge_at(seq![seg_budget(), seg_per_action_max_usd()], pk, 0);
        } else if i == 2 {
            lemma_diverge_at(seq![seg_security(), seg_policy(), seg_max_argument_size()], pk, 0);
        } else if i == 3 {
            lemma_diverge_at(seq![seg_security(), seg_policy(), seg_require_approval_for_delete()], pk, 0);
        } else if i == 4 {
            lemma_diverge_at(seq![seg_security(), seg_policy(), seg_require_approval_for_network()], pk, 0);
        } else if i == 5 {
            lemma_diverge_at(seq![seg_security(), seg_policy(), seg_blocked_tools()], pk, 0);
        } else if i == 6 {
            lemma_diverge_at(seq![seg_security(), seg_policy(), seg_denied_paths()], pk, 0);
        } else if i == 7 {
            lemma_diverge_at(seq![seg_security(), seg_policy(), seg_denied_hosts()], pk, 0);
        } else if i == 8 {
            lemma_diverge_at(seq![seg_workspace(), seg_mode()], pk, 0);
        } else if i == 9 {
            lemma_diverge_at(seq![seg_workspace(), seg_escape_policy()], pk, 0);
        } else if i == 10 {
            lemma_diverge_at(seq![seg_workspace(), seg_never_allow()], pk, 0);
        } else if i == 11 {
            lemma_diverge_at(seq![seg_security(), seg_require_signatures()], pk, 0);
        } else if i == 12 {
            lemma_diverge_at(seq![seg_security(), seg_approval_timeout_secs()], pk, 0);
        } else if i == 13 {
            lemma_diverge_at(seq![seg_security(), seg_policy(), seg_approval_required_tools()], pk, 0);
        } else if i == 14 {
            lemma_diverge_at(seq![seg_security(), seg_policy(), seg_allowed_paths()], pk, 0);
        } else if i == 15 {
            lemma_diverge_at(seq![seg_security(), seg_policy(), seg_allowed_hosts()], pk, 0);
        } else if i == 16 {
            lemma_diverge_at(seq![seg_workspace(), seg_auto_allow_read()], pk, 0);
        } else if i == 17 {
            lemma_diverge_at(seq![seg_workspace(), seg_auto_allow_write()], pk, 0);
        } else if i == 18 {
            lemma_diverge_at(seq![seg_model(), seg_api_key()], pk, 0);
        } else if i == 19 {
            lemma_diverge_at(seq![seg_model(), seg_api_url()], pk, 0);
        } else if i == 20 {
            lemma_diverge_at(seq![seg_hooks(), seg_allow_wasm_hooks()], pk, 0);
        } else if i == 21 {
            lemma_diverge_at(seq![seg_hooks(), seg_allow_agent_hooks()], pk, 0);
        } else if i == 22 {
            lemma_diverge_at(seq![seg_rate_limits(), seg_elicitation_per_server_per_min()], pk, 0);
        } else if i == 23 {
            lemma_diverge_at(seq![seg_rate_limits(), seg_max_pending_requests()], pk, 0);
        } else if i == 24 {
            lemma_diverge_at(seq![seg_budget(), seg_warn_at_percent()], pk, 0);
        } else if i == 25 {
            lemma_diverge_at(seq![seg_subagents(), seg_max_concurrent()], pk, 0);
        } else if i == 26 {
            lemma_diverge_at(seq![seg_subagents(), seg_max_depth()], pk, 0);
        } else if i == 27 {
            lemma_diverge_at(seq![seg_subagents(), seg_timeout_secs()], pk, 0);
        } else if i == 28 {
            lemma_diverge_at(seq![seg_retry(), seg_llm_max_attempts()], pk, 0);
        } else if i == 29 {
            lemma_diverge_at(seq![seg_retry(), seg_mcp_max_attempts()], pk, 0);
        } else if i == 30 {
            lemma_diverge_at(seq![seg_timeouts(), seg_approval_secs()], pk, 1);
        } else if i == 32 {
            lemma_diverge_at(seq![seg_hooks(), seg_allow_http_hooks()], pk, 0);
        } else if i == 33 {
            lemma_diverge_at(seq![seg_hooks(), seg_allow_command_hooks()], pk, 0);
        }
    }
}

/// Restriction `hooks.allow_http_hooks` parts ways with the others, and lies outside `servers`.
proof fn lemma_apart_32()
    ensures
        apart_from_others(rules(), 32),
        rules()[32].1.len() > 0,
        rules()[32].1[0] != seg_servers(),
{
    lemma_rule_table();
    lemma_segments_differ();
    let pk = seq![seg_hooks(), seg_allow_http_hooks()];
    assert forall|i: int| 0 <= i < rules().len() && i != 32 implies diverge(#[trigger] rules()[i].1, rules()[32].1) by {
        if i == 0 {
            lemma_diverge_at(seq![seg_budget(), seg_session_max_usd()], pk, 0);
        } else if i == 1 {
            lemma_diverge_at(seq![seg_budget(), seg_per_action_max_usd()], pk, 0);
        } else if i == 2 {
            lemma_diverge_at(seq![seg_security(), seg_policy(), seg_max_argument_size()], pk, 0);
        } else if i == 3 {
            lemma_diverge_at(seq![seg_security(), seg_policy(), seg_require_approval_for_delete()], pk, 0);
        } else if i == 4 {
            lemma_diverge_at(seq![seg_security(), seg_policy(), seg_require_approval_for_network()], pk, 0);
        } else if i == 5 {
            lemma_diverge_at(seq![seg_security(), seg_policy(), seg_blocked_tools()], pk, 0);
        } else if i == 6 {
            lemma_diverge_at(seq![seg_security(), seg_policy(), seg_denied_paths()], pk, 0);
        } else if i == 7 {
            lemma_diverge_at(seq![seg_security(), seg_policy(), seg_denied_hosts()], pk, 0);
        } else if i == 8 {
            lemma_diverge_at(seq![seg_workspace(), seg_mode()], pk, 0);
        } else if i == 9 {
            lemma_diverge_at(seq![seg_workspace(), seg_escape_policy()], pk, 0);
        } else if i == 10 {
            lemma_diverge_at(seq![seg_workspace(), seg_never_allow()], pk, 0);
        } else if i == 11 {
            lemma_diverge_at(seq![seg_security(), seg_require_signatures()], pk, 0);
        } else if i == 12 {
            lemma_diverge_at(seq![seg_security(), seg_approval_timeout_secs()], pk, 0);
        } else if i == 13 {
            lemma_diverge_at(seq![seg_security(), seg_policy(), seg_approval_required_tools()], pk, 0);
        } else if i == 14 {
            lemma_diverge_at(seq![seg_security(), seg_policy(), seg_allowed_paths()], pk, 0);
        } else if i == 15 {
            lemma_diverge_at(seq![seg_security(), seg_policy(), seg_allowed_hosts()], pk, 0);
        } else if i == 16 {
            lemma_diverge_at(seq![seg_workspace(), seg_auto_allow_read()], pk, 0);
        } else if i == 17 {
            lemma_diverge_at(seq![seg_workspace(), seg_auto_allow_write()], pk, 0);
        } else if i == 18 {
            lemma_diverge_at(seq![seg_model(), seg_api_key()], pk, 0);
        } else if i == 19 {
            lemma_diverge_at(seq![seg_model(), seg_api_url()], pk, 0);
        } else if i == 20 {
            lemma_diverge_at(seq![seg_hooks(), seg_allow_wasm_hooks()], pk, 1);
        } else if i == 21 {
            lemma_diverge_at(seq![seg_hooks(), seg_allow_agent_hooks()], pk, 1);
        } else if i == 22 {
            lemma_diverge_at(seq![seg_rate_limits(), seg_elicitation_per_server_per_min()], pk, 0);
        } else if i == 23 {
            lemma_diverge_at(seq![seg_rate_limits(), seg_max_pending_requests()], pk, 0);
        } else if i == 24 {
            lemma_diverge_at(seq![seg_budget(), seg_warn_at_percent()], pk, 0);
        } else if i == 25 {
            lemma_diverge_at(seq![seg_subagents(), seg_max_concurrent()], pk, 0);
        } else if i == 26 {
            lemma_diverge_at(seq![seg_subagents(), seg_max_depth()], pk, 0);
        } else if i == 27 {
            lemma_diverge_at(seq![seg_subagents(), seg_timeout_secs()], pk, 0);
        } else if i == 28 {
            lemma_diverge_at(seq![seg_retry(), seg_llm_max_attempts()], pk, 0);
        } else if i == 29 {
            lemma_diverge_at(seq![seg_retry(), seg_mcp_max_attempts()], pk, 0);
        } else if i == 30 {
            lemma_diverge_at(seq![seg_timeouts(), seg_approval_secs()], pk, 0);
        } else if i == 31 {
            lemma_diverge_at(seq![seg_timeouts(), seg_idle_secs()], pk, 0);
        } else if i == 33 {
            lemma_diverge_at(seq![seg_hooks(), seg_allow_command_hooks()], pk, 1);
        }
    }
}

/// Restriction `hooks.allow_command_hooks` parts ways with the others, and lies outside `servers`.
proof fn lemma_apart_33()
    ensures
        apart_from_others(rules(), 33),
        rules()[33].1.len() > 0,
        rules()[33].1[0] != seg_servers(),
{
    lemma_rule_table();
    lemma_segments_differ();
    let pk = seq![seg_hooks(), seg_allow_command_hooks()];
    assert forall|i: int| 0 <= i < rules().len() && i != 33 implies diverge(#[trigger] rules()[i].1, rules()[33].1) by {
        if i == 0 {
            lemma_diverge_at(seq![seg_budget(), seg_session_max_usd()], pk, 0);
        } else if i == 1 {
            lemma_diverge_at(seq![seg_budget(), seg_per_action_max_usd()], pk, 0);
        } else if i == 2 {
            lemma_diverge_at(seq![seg_security(), seg_policy(), seg_max_argument_size()], pk, 0);
        } else if i == 3 {
            lemma_diverge_at(seq![seg_security(), seg_policy(), seg_require_approval_for_delete()], pk, 0);
        } else if i == 4 {
            lemma_diverge_at(seq![seg_security(), seg_policy(), seg_require_approval_for_network()], pk, 0);
        } else if i == 5 {
            lemma_diverge_at(seq![seg_security(), seg_policy(), seg_blocked_tools()], pk, 0);
        } else if i == 6 {
            lemma_diverge_at(seq![seg_security(), seg_policy(), seg_denied_paths()], pk, 0);
        } else if i == 7 {
            lemma_diverge_at(seq![seg_security(), seg_policy(), seg_denied_hosts()], pk, 0);
        } else if i == 8 {
            lemma_diverge_at(seq![seg_workspace(), seg_mode()], pk, 0);
        } else if i == 9 {
            lemma_diverge_at(seq![seg_workspace(), seg_escape_policy()], pk, 0);
        } else if i == 10 {
            lemma_diverge_at(seq![seg_workspace(), seg_never_allow()], pk, 0);
        } else if i == 11 {
            lemma_diverge_at(seq![seg_security(), seg_require_signatures()], pk, 0);
        } else if i == 12 {
            lemma_diverge_at(seq![seg_security(), seg_approval_timeout_secs()], pk, 0);
        } else if i == 13 {
            lemma_diverge_at(seq![seg_security(), seg_policy(), seg_approval_required_tools()], pk, 0);
        } else if i == 14 {
            lemma_diverge_at(seq![seg_security(), seg_policy(), seg_allowed_paths()], pk, 0);
        } else if i == 15 {
            lemma_diverge_at(seq![seg_security(), seg_policy(), seg_allowed_hosts()], pk, 0);
        } else if i == 16 {
            lemma_diverge_at(seq![seg_workspace(), seg_auto_allow_read()], pk, 0);
        } else if i == 17 {
            lemma_diverge_at(seq![seg_workspace(), seg_auto_allow_write()], pk, 0);
        } else if i == 18 {
            lemma_diverge_at(seq![seg_model(), seg_api_key()], pk, 0);
        } else if i == 19 {
            lemma_diverge_at(seq![seg_model(), seg_api_url()], pk, 0);
        } else if i == 20 {
            lemma_diverge_at(seq![seg_hooks(), seg_allow_wasm_hooks()], pk, 1);
        } else if i == 21 {
            lemma_diverge_at(seq![seg_hooks(), seg_allow_agent_hooks()], pk, 1);
        } else if i == 22 {
            lemma_diverge_at(seq![seg_rate_limits(), seg_elicitation_per_server_per_min()], pk, 0);
        } else if i == 23 {
            lemma_diverge_at(seq![seg_rate_limits(), seg_max_pending_requests()], pk, 0);
        } else if i == 24 {
            lemma_diverge_at(seq![seg_budget(), seg_warn_at_percent()], pk, 0);
        } else if i == 25 {
            lemma_diverge_at(seq![seg_subagents(), seg_max_concurrent()], pk, 0);
        } else if i == 26 {
            lemma_diverge_at(seq![seg_subagents(), seg_max_depth()], pk, 0);
        } else if i == 27 {
            lemma_diverge_at(seq![seg_subagents(), seg_timeout_secs()], pk, 0);
        } else if i == 28 {
            lemma_diverge_at(seq![seg_retry(), seg_llm_max_attempts()], pk, 0);
        } else if i == 29 {
            lemma_diverge_at(seq![seg_retry(), seg_mcp_max_attempts()], pk, 0);
        } else if i == 30 {
            lemma_diverge_at(seq![seg_timeouts(), seg_approval_secs()], pk, 0);
        } else if i == 31 {
            lemma_diverge_at(seq![seg_timeouts(), seg_idle_secs()], pk, 0);
        } else if i == 32 {
            lemma_diverge_at(seq![seg_hooks(), seg_allow_http_hooks()], pk, 1);
        }
    }
}

/// The workspace layer can only tighten security: once every restriction
/// and the server checks have run, each restriction's guarantee holds of
/// the result. A float or integer the workspace raised above the baseline
/// is the baseline's; a flag it turned off (or on, for dangerous hooks) is
/// back on (off); every baseline entry of a block list is still there; an
/// allow list it widened is the baseline's; the model key and endpoint are
/// the baseline's; a mode it loosened is the baseline's. The guarantee
/// needs the table holding the field to exist in the merged value, as it
/// does when the workspace layer set the field.
pub proof fn law_enforce_restrictions(m: TomlView, b: TomlView, w: TomlView, k: int)
    requires
        0 <= k < rules().len(),
        parent_is_table(m, rules()[k].1),
    ensures
        rule_guarantee(rules()[k].0, rules()[k].1, enforce_spec(m, b, w), b, w),
{
    lemma_rule_table();
    if k == 0 {
        lemma_apart_0();
    } else if k == 1 {
        lemma_apart_1();
    } else if k == 2 {
        lemma_apart_2();
    } else if k == 3 {
        lemma_apart_3();
    } else if k == 4 {
        lemma_apart_4();
    } else if k == 5 {
        lemma_apart_5();
    } else if k == 6 {
        lemma_apart_6();
    } else if k == 7 {
        lemma_apart_7();
    } else if k == 8 {
        lemma_apart_8();
    } else if k == 9 {
        lemma_apart_9();
    } else if k == 10 {
        lemma_apart_10();
    } else if k == 11 {
        lemma_apart_11();
    } else if k == 12 {
        lemma_apart_12();
    } else if k == 13 {
        lemma_apart_13();
    } else if k == 14 {
        lemma_apart_14();
    } else if k == 15 {
        lemma_apart_15();
    } else if k == 16 {
        lemma_apart_16();
    } else if k == 17 {
        lemma_apart_17();
    } else if k == 18 {
        lemma_apart_18();
    } else if k == 19 {
        lemma_apart_19();
    } else if k == 20 {
        lemma_apart_20();
    } else if k == 21 {
        lemma_apart_21();
    } else if k == 22 {
        lemma_apart_22();
    } else if k == 23 {
        lemma_apart_23();
    } else if k == 24 {
        lemma_apart_24();
    } else if k == 25 {
        lemma_apart_25();
    } else if k == 26 {
        lemma_apart_26();
    } else if k == 27 {
        lemma_apart_27();
    } else if k == 28 {
        lemma_apart_28();
    } else if k == 29 {
        lemma_apart_29();
    } else if k == 30 {
        lemma_apart_30();
    } else if k == 31 {
        lemma_apart_31();
    } else if k == 32 {
        lemma_apart_32();
    } else if k == 33 {
        lemma_apart_33();
    }
    lemma_rules_guarantee(m, b, w, rules(), k);
    lemma_sanitize_frame(apply_rules(m, b, w, rules()), b, w, rules()[k].1);
}

} // verus!
