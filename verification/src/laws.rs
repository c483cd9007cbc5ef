//! Properties that hold across the operations of the library.

use vstd::prelude::*;
use crate::commands::{other_than, AuthorizedApp};
use crate::error_reporter::{add_count, component_key, count_total, count_where, counts_by, is_resolved, is_unresolved,
    keyed, kind_of, ErrorReport, ErrorReporter, ErrorStatistics, HISTORY_LIMIT};
use crate::seq_facts::{lemma_filter_len_all, lemma_filter_len_none, lemma_filter_len_split};
use crate::json::{lookup, with_entry, Json};
use crate::managers::auth_manager::{base64_len, callback_outcome, expiry, lifetime_secs, AuthCallbackQuery,
    AuthManager, AuthTokens, RefreshTokenResponse};
use crate::managers::config_manager::{config_violation, ConfigSchema, CONFIG_VERSION};
use crate::managers::server_manager::{tokens_of, Message};
use crate::managers::tunnel_manager::{quick_url_at, stderr_outcome};
use crate::managers::server_manager::{request_with_ids, ChatCompletionRequest, ChatGptRequest};
use crate::managers::auth_manager::exchange_form;
use crate::managers::config_manager::{FeatureConfig, TunnelConfig};
use crate::text::views;
use crate::error_reporter::{dialog_worthy, ErrorContext, ErrorReportingConfig, NotificationPlan};
use crate::error::MindLinkError;
use crate::text::occurs_in;
use crate::process_monitor::ProcessMonitor;
use crate::text::first_present;

verus! {

/// The default configuration passes validation.
pub proof fn law_default_config_valid(c: ConfigSchema)
    requires
        c.is_default(),
    ensures
        config_violation(c) is None,
{
    reveal_strlit("127.0.0.1");
    assert(c.server.host@.len() > 0);
    assert(c.bifrost.host@.len() > 0);
}

/// A configuration that start-up keeps (one that passes validation, at the
/// current schema version or later, as a migration leaves it) is complete:
/// both hosts are set, both ports and the health-check interval are
/// positive, the tunnel type and reasoning effort are set, and the version
/// is positive.
pub proof fn law_loaded_config_complete(c: ConfigSchema)
    requires
        config_violation(c) is None,
        c.version >= CONFIG_VERSION,
    ensures
        c.server.host@.len() > 0,
        c.server.port > 0,
        c.bifrost.host@.len() > 0,
        c.bifrost.port > 0,
        c.tunnel.tunnel_type@.len() > 0,
        c.features.reasoning_effort@.len() > 0,
        c.monitoring.health_check_interval > 0,
        c.version > 0,
{
    reveal_strlit("quick");
    reveal_strlit("named");
    reveal_strlit("low");
    reveal_strlit("medium");
    reveal_strlit("high");
}

/// Migrating a valid configuration to the current schema keeps it valid.
pub proof fn law_migration_keeps_validity(c: ConfigSchema)
    requires
        config_violation(c) is None,
    ensures
        config_violation(ConfigSchema { version: CONFIG_VERSION, ..c }) is None,
{
}

/// The error history never holds more than its limit: recording a report in
/// a history within the limit keeps it within the limit, and the report is
/// the newest entry.
pub proof fn law_history_bounded(history: Seq<ErrorReport>, report: ErrorReport)
    requires
        history.len() <= HISTORY_LIMIT,
    ensures
        ErrorReporter::stored(history, report).len() <= HISTORY_LIMIT,
        ErrorReporter::stored(history, report).last() == report,
{
}

/// Clearing the resolved reports keeps exactly the unresolved ones: none of
/// what remains is resolved, and as many remain as were unresolved.
pub proof fn law_cleared_history_unresolved(history: Seq<ErrorReport>)
    ensures
        forall|i: int| 0 <= i < history.filter(is_unresolved()).len()
            ==> !(#[trigger] history.filter(is_unresolved())[i]).resolved,
        history.filter(is_unresolved()).len() == count_where(history, is_unresolved()),
{
    assert forall|i: int| 0 <= i < history.filter(is_unresolved()).len()
        implies !(#[trigger] history.filter(is_unresolved())[i]).resolved by {
        history.lemma_filter_pred(is_unresolved(), i);
    }
}

/// Tokens valid at some time were valid at every earlier time.
pub proof fn law_token_validity_earlier(m: AuthManager, earlier: int, later: int)
    requires
        earlier <= later,
        m.valid_at(later),
    ensures
        m.valid_at(earlier),
{
}

/// Tokens whose answer gives no lifetime last one hour; those with a
/// lifetime of `e` seconds last `e` seconds.
pub proof fn law_token_lifetime(now_ms: int, e: u64)
    ensures
        expiry(now_ms, None) == now_ms + 3600000,
        e <= i64::MAX ==> expiry(now_ms, Some(e)) == now_ms + e * 1000,
{
}

/// A refresh keeps the id token and the account, and the refresh token when
/// no new one comes.
pub proof fn law_refresh_keeps_identity(t: AuthTokens, response: RefreshTokenResponse, now_ms: int, n: AuthTokens)
    requires
        t.refreshed_by(response, now_ms, n),
    ensures
        n.id_token@ == t.id_token@,
        n.account_id@ == t.account_id@,
        response.refresh_token is None ==> n.refresh_token@ == t.refresh_token@,
{
}

/// The PKCE verifier (32 bytes) encodes to 43 characters and the state (16
/// bytes) to 22.
pub proof fn law_pkce_lengths()
    ensures
        base64_len(32) == 43,
        base64_len(16) == 22,
{
}

/// The sign-in callback yields a code only when it carries the state that was
/// sent and no error.
pub proof fn law_callback_requires_state(query: AuthCallbackQuery, expected_state: Seq<char>)
    requires
        callback_outcome(query, expected_state) is Ok,
    ensures
        query.state matches Some(s) && s@ == expected_state,
        query.error is None,
        query.code matches Some(c) && callback_outcome(query, expected_state) == Ok::<Seq<char>, Seq<char>>(c@),
{
}

/// The token estimate of two runs of messages is the sum of their estimates.
pub proof fn law_token_estimate_additive(a: Seq<Message>, b: Seq<Message>)
    ensures
        tokens_of(a + b) == tokens_of(a) + tokens_of(b),
    decreases b.len(),
{
    if b.len() == 0 {
        assert(a + b =~= a);
    } else {
        law_token_estimate_additive(a, b.drop_last());
        assert((a + b).drop_last() =~= a + b.drop_last());
        assert((a + b).last() == b.last());
    }
}

/// Setting a member of an object and then looking it up gives the value set.
pub proof fn law_json_set_then_get(members: Seq<(Seq<char>, Json)>, key: Seq<char>, value: Json)
    ensures
        lookup(with_entry(members, key, value), key) == Some(value),
    decreases members.len(),
{
    if members.len() > 0 && members[0].0 != key {
        law_json_set_then_get(members.drop_first(), key, value);
        assert(with_entry(members, key, value).drop_first() =~= with_entry(members.drop_first(), key, value));
    }
}

/// Setting a member of an object leaves the other members as they were.
pub proof fn law_json_set_keeps_others(members: Seq<(Seq<char>, Json)>, key: Seq<char>, value: Json, other: Seq<char>)
    requires
        other != key,
    ensures
        lookup(with_entry(members, key, value), other) == lookup(members, other),
    decreases members.len(),
{
    let w = with_entry(members, key, value);
    if members.len() == 0 {
        assert(w =~= seq![(key, value)]);
        assert(w.drop_first() =~= Seq::<(Seq<char>, Json)>::empty());
        assert(lookup(w.drop_first(), other) is None);
        assert(lookup(w, other) is None);
    } else if members[0].0 == key {
        assert(w.drop_first() =~= members.drop_first());
        assert(w[0].0 == key);
        assert(lookup(w, other) == lookup(w.drop_first(), other));
    } else {
        law_json_set_keeps_others(members.drop_first(), key, value, other);
        assert(w.drop_first() =~= with_entry(members.drop_first(), key, value));
        assert(w[0] == members[0]);
    }
}

/// A quick tunnel address found in cloudflared's output starts with
/// `https://` and ends with `.trycloudflare.com`.
pub proof fn law_quick_url_shape(line: Seq<char>, i: int, k: int)
    requires
        quick_url_at(line, i, k),
    ensures
        line.subrange(i, i + k + 26).subrange(0, 8) == "https://"@,
        line.subrange(i, i + k + 26).subrange(k + 8, k + 26) == ".trycloudflare.com"@,
{
    assert(line.subrange(i, i + k + 26).subrange(0, 8) =~= line.subrange(i, i + 8));
    assert(line.subrange(i, i + k + 26).subrange(k + 8, k + 26) =~= line.subrange(i + 8 + k, i + k + 26));
}

/// In a well-formed process monitor no process has been restarted more often
/// than its configuration allows.
pub proof fn law_restarts_bounded(monitor: ProcessMonitor, id: Seq<char>)
    requires
        monitor.wf(),
        monitor.processes().dom().contains(id),
    ensures
        monitor.processes()[id].restart_count <= monitor.configs()[id].max_restart_attempts,
{
}

/// Removing the applications with an id leaves none with that id.
pub proof fn law_removed_app_absent(apps: Seq<AuthorizedApp>, id: Seq<char>)
    ensures
        forall|i: int| 0 <= i < apps.filter(other_than(id)).len() ==> (#[trigger] apps.filter(other_than(id))[i]).id@ != id,
{
    assert forall|i: int| 0 <= i < apps.filter(other_than(id)).len()
        implies (#[trigger] apps.filter(other_than(id))[i]).id@ != id by {
        apps.lemma_filter_pred(other_than(id), i);
    }
}

/// The binary found by a search is the first place, in search order, where a
/// binary exists.
pub proof fn law_first_present_is_first(cands: Seq<Seq<char>>, exists: Seq<bool>, found: Seq<char>)
    requires
        first_present(cands, exists) == Some(found),
    ensures
        exists|i: int| 0 <= i < cands.len() && i < exists.len() && exists[i] && cands[i] == found
            && forall|j: int| 0 <= j < i ==> !exists[j],
    decreases cands.len(),
{
    if exists[0] {
        assert(0 < cands.len() && 0 < exists.len() && exists[0] && cands[0] == found);
    } else {
        law_first_present_is_first(cands.drop_first(), exists.drop_first(), found);
        let i = choose|i: int| 0 <= i < cands.drop_first().len() && i < exists.drop_first().len()
            && exists.drop_first()[i] && cands.drop_first()[i] == found
            && forall|j: int| 0 <= j < i ==> !exists.drop_first()[j];
        assert forall|j: int| 0 <= j < i + 1 implies !exists[j] by {
            if j > 0 {
                assert(exists[j] == exists.drop_first()[j - 1]);
            }
        }
        assert(exists[i + 1] && cands[i + 1] == found);
    }
}

/// Counting over a sequence with one element replaced: the count of the rest
/// plus whether the new element counts.
proof fn lemma_count_update(s: Seq<ErrorReport>, i: int, r: ErrorReport, pred: spec_fn(ErrorReport) -> bool)
    requires
        0 <= i < s.len(),
    ensures
        count_where(s.update(i, r), pred) + (if pred(s[i]) { 1int } else { 0int })
            == count_where(s, pred) + (if pred(r) { 1int } else { 0int }),
{
    let a = s.take(i);
    let c = s.skip(i + 1);
    assert(s =~= a + seq![s[i]] + c);
    assert(s.update(i, r) =~= a + seq![r] + c);
    Seq::filter_distributes_over_add(a + seq![s[i]], c, pred);
    Seq::filter_distributes_over_add(a, seq![s[i]], pred);
    Seq::filter_distributes_over_add(a + seq![r], c, pred);
    Seq::filter_distributes_over_add(a, seq![r], pred);
    reveal(Seq::filter);
    assert(seq![s[i]].drop_last() =~= Seq::<ErrorReport>::empty());
    assert(seq![r].drop_last() =~= Seq::<ErrorReport>::empty());
}

/// Resolving an unresolved report moves it from the unresolved count to the
/// resolved count: one more resolved, one fewer unresolved.
pub proof fn law_resolving_moves_one(history: Seq<ErrorReport>, i: int, r: ErrorReport)
    requires
        0 <= i < history.len(),
        !history[i].resolved,
        r.resolved,
    ensures
        count_where(history.update(i, r), is_resolved()) == count_where(history, is_resolved()) + 1,
        count_where(history.update(i, r), is_unresolved()) + 1 == count_where(history, is_unresolved()),
{
    lemma_count_update(history, i, r, is_resolved());
    lemma_count_update(history, i, r, is_unresolved());
}

/// A refresh that grants more than the five-minute margin leaves the user
/// signed in at the time of the refresh.
pub proof fn law_refresh_signs_in(m: AuthManager, response: RefreshTokenResponse, now_ms: int, after: AuthManager)
    requires
        m.held() matches Some(t) && (after.held() matches Some(n) && t.refreshed_by(response, now_ms, n)),
        lifetime_secs(response.expires_in) > 300,
    ensures
        after.valid_at(now_ms),
{
}

/// Reports whose key under `f` is one of `keys`.
spec fn keyed_in(f: spec_fn(ErrorReport) -> Seq<char>, keys: Set<Seq<char>>) -> spec_fn(ErrorReport) -> bool {
    |r: ErrorReport| keys.contains(f(r))
}

/// Adding up the counts of the keys in `keys` counts the reports with one of
/// those keys.
proof fn lemma_fold_counts(m: Map<Seq<char>, usize>, s: Seq<ErrorReport>, f: spec_fn(ErrorReport) -> Seq<char>, keys: Set<Seq<char>>)
    requires
        keys.finite(),
        forall|c: Seq<char>| keys.contains(c) ==> m[c] == count_where(s, keyed(f, c)),
    ensures
        keys.fold(0int, add_count(m)) == count_where(s, keyed_in(f, keys)),
    decreases keys.len(),
{
    if keys.len() == 0 {
        assert(keys =~= Set::<Seq<char>>::empty());
        vstd::set::fold::lemma_fold_empty(0int, add_count(m));
        lemma_filter_len_none(s, keyed_in(f, keys));
    } else {
        let a = keys.choose();
        let rest = keys.remove(a);
        lemma_fold_counts(m, s, f, rest);
        assert(rest.insert(a) =~= keys);
        assert(vstd::set::fold::is_fun_commutative(add_count(m)));
        vstd::set::fold::lemma_fold_insert(rest, 0int, add_count(m), a);
        lemma_filter_len_split(s, keyed_in(f, rest), keyed(f, a), keyed_in(f, keys));
    }
}

/// Counts of reports by key add up to the number of reports counted: a map
/// that counts the reports of `s` by their key under `f` has finitely many
/// keys, and its counts sum to the length of `s`.
pub proof fn law_counts_add_up(m: Map<Seq<char>, usize>, s: Seq<ErrorReport>, f: spec_fn(ErrorReport) -> Seq<char>)
    requires
        counts_by(m, s, f),
    ensures
        m.dom().finite(),
        count_total(m) == s.len(),
{
    let keys = s.map_values(f).to_set();
    assert forall|c: Seq<char>| m.dom().contains(c) implies keys.contains(c) by {
        let fl = s.filter(keyed(f, c));
        assert(fl.len() > 0);
        s.lemma_filter_pred(keyed(f, c), 0);
        assert(fl.contains(fl[0]));
        s.lemma_filter_contains_rev(keyed(f, c), fl[0]);
        let i = choose|i: int| 0 <= i < s.len() && s[i] == fl[0];
        assert(s.map_values(f)[i] == c);
        assert(s.map_values(f).contains(c));
    }
    assert(m.dom().subset_of(keys));
    vstd::seq_lib::seq_to_set_is_finite(s.map_values(f));
    vstd::set_lib::lemma_set_subset_finite(keys, m.dom());
    lemma_fold_counts(m, s, f, m.dom());
    assert forall|i: int| 0 <= i < s.len() implies #[trigger] keyed_in(f, m.dom())(s[i]) by {
        let c = f(s[i]);
        s.lemma_filter_contains(keyed(f, c), i);
        assert(count_where(s, keyed(f, c)) > 0);
        assert(m.dom().contains(c));
    }
    lemma_filter_len_all(s, keyed_in(f, m.dom()));
}

/// The error statistics add up: the counts by kind, and those by component,
/// each sum to the total number of reports.
pub proof fn law_statistics_add_up(stats: ErrorStatistics, history: Seq<ErrorReport>)
    requires
        stats.total_errors == history.len(),
        counts_by(stats.by_type@, history, kind_of()),
        counts_by(stats.by_component@, history, component_key()),
    ensures
        count_total(stats.by_type@) == stats.total_errors,
        count_total(stats.by_component@) == stats.total_errors,
{
    law_counts_add_up(stats.by_type@, history, kind_of());
    law_counts_add_up(stats.by_component@, history, component_key());
}

/// cloudflared's standard error aborts the opening as a failed tunnel only on
/// a line that mentions both "failed" and "tunnel"; a line with none of the
/// error markers (a refused connection, an unknown host, authentication,
/// login, failure) lets the opening read on.
pub proof fn law_stderr_tunnel_failure_needs_both_words(line: Seq<char>)
    ensures
        stderr_outcome(line) == Some("Tunnel creation failed: "@ + line)
            ==> occurs_in("failed"@, line) && occurs_in("tunnel"@, line),
        !occurs_in("connection refused"@, line) && !occurs_in("no such host"@, line)
            && !occurs_in("authentication"@, line) && !occurs_in("login"@, line)
            && !occurs_in("failed"@, line) ==> stderr_outcome(line) is None,
{
    reveal_strlit("Tunnel creation failed: ");
    reveal_strlit("Local server not accessible: ");
    reveal_strlit("Cloudflare authentication required: ");
    assert(("Tunnel creation failed: "@ + line)[0] == 'T');
    assert(("Local server not accessible: "@ + line)[0] == 'L');
    assert(("Cloudflare authentication required: "@ + line)[0] == 'C');
}

/// The code-exchange form sends the authorization code as `code` and the PKCE
/// verifier as `code_verifier`: both names are present, and every pair with
/// one of those names carries the matching argument.
pub proof fn law_exchange_form_sends_code_and_verifier(code: Seq<char>, verifier: Seq<char>, redirect_uri: Seq<char>)
    ensures
        exists|i: int| 0 <= i < exchange_form(code, verifier, redirect_uri).len()
            && (#[trigger] exchange_form(code, verifier, redirect_uri)[i]).0 == "code"@,
        exists|i: int| 0 <= i < exchange_form(code, verifier, redirect_uri).len()
            && (#[trigger] exchange_form(code, verifier, redirect_uri)[i]).0 == "code_verifier"@,
        forall|i: int| 0 <= i < exchange_form(code, verifier, redirect_uri).len()
            && (#[trigger] exchange_form(code, verifier, redirect_uri)[i]).0 == "code"@
            ==> exchange_form(code, verifier, redirect_uri)[i].1 == code,
        forall|i: int| 0 <= i < exchange_form(code, verifier, redirect_uri).len()
            && (#[trigger] exchange_form(code, verifier, redirect_uri)[i]).0 == "code_verifier"@
            ==> exchange_form(code, verifier, redirect_uri)[i].1 == verifier,
{
    reveal_strlit("grant_type");
    reveal_strlit("client_id");
    reveal_strlit("code");
    reveal_strlit("redirect_uri");
    reveal_strlit("code_verifier");
    let f = exchange_form(code, verifier, redirect_uri);
    assert(f[2].0 == "code"@);
    assert(f[4].0 == "code_verifier"@);
    assert forall|i: int| 0 <= i < f.len() && (#[trigger] f[i]).0 == "code"@ implies f[i].1 == code by {
        if i != 2 {
            assert(f[i].0.len() != 4 || f[i].0[0] != 'c' || f[i].0[1] != 'o' || f[i].0[2] != 'd' || f[i].0[3] != 'e');
        }
    }
    assert forall|i: int| 0 <= i < f.len() && (#[trigger] f[i]).0 == "code_verifier"@ implies f[i].1 == verifier by {
        if i != 4 {
            assert(f[i].0.len() != 13);
        }
    }
}

/// Both tunnel types are accepted: in a configuration that passes
/// validation, setting the tunnel type to "quick" or to "named" keeps it
/// valid, and any other tunnel type makes it invalid.
pub proof fn law_both_tunnel_types_validate(c: ConfigSchema, tunnel_type: String)
    requires
        config_violation(c) is None,
    ensures
        (tunnel_type@ == "quick"@ || tunnel_type@ == "named"@) <==> config_violation(ConfigSchema {
            tunnel: TunnelConfig { tunnel_type, ..c.tunnel },
            ..c
        }) is None,
{
}

/// An authentication error always deserves a dialog, whatever the context,
/// so with dialogs enabled the user is shown one.
pub proof fn law_auth_errors_get_a_dialog(error: MindLinkError, context: ErrorContext, config: ErrorReportingConfig)
    requires
        error is Authentication,
    ensures
        dialog_worthy(error, context),
        config.show_user_dialogs ==> ErrorReporter::plan_for(config, error, context) == NotificationPlan::ShowDialog,
{
}

/// For a request of two or more messages, the parent of the ChatGPT request
/// is the id of its second-to-last message.
pub proof fn law_parent_is_second_to_last(request: ChatCompletionRequest, ids: Seq<Seq<char>>, parent: Seq<char>, r: ChatGptRequest)
    requires
        request_with_ids(request, ids, parent, r),
        ids.len() >= 2,
    ensures
        r.parent_message_id@ == r.messages@[r.messages@.len() - 2].id@,
{
}

/// What cloudflared's standard error stops the opening for: a refused
/// connection or unknown host is reported as an unreachable local server,
/// and no line stops it unless it carries one of the error markers.
pub proof fn law_stderr_markers(line: Seq<char>)
    ensures
        occurs_in("connection refused"@, line) || occurs_in("no such host"@, line)
            ==> stderr_outcome(line) == Some("Local server not accessible: "@ + line),
        !occurs_in("connection refused"@, line) && !occurs_in("no such host"@, line)
            && (occurs_in("authentication"@, line) || occurs_in("login"@, line))
            ==> stderr_outcome(line) == Some("Cloudflare authentication required: "@ + line),
        stderr_outcome(line) is Some ==> occurs_in("connection refused"@, line) || occurs_in("no such host"@, line)
            || occurs_in("authentication"@, line) || occurs_in("login"@, line) || occurs_in("failed"@, line),
{
}

/// The three reasoning efforts are accepted: in a configuration that passes
/// validation, setting the effort to "low", "medium" or "high" keeps it
/// valid, and any other effort makes it invalid.
pub proof fn law_reasoning_efforts_validate(c: ConfigSchema, effort: String)
    requires
        config_violation(c) is None,
    ensures
        (effort@ == "low"@ || effort@ == "medium"@ || effort@ == "high"@) <==> config_violation(ConfigSchema {
            features: FeatureConfig { reasoning_effort: effort, ..c.features },
            ..c
        }) is None,
{
}

/// Which errors interrupt the user with a dialog: the ones the user must act
/// on (sign-in, a program that will not start, configuration, tunnel, system
/// resources) always; a health-check failure never; network, file and
/// internal errors exactly when they arose from something the user did.
pub proof fn law_dialog_worthiness(error: MindLinkError, context: ErrorContext)
    ensures
        (error is Authentication || error is BinaryExecution || error is Configuration || error is Tunnel
            || error is SystemResource) ==> dialog_worthy(error, context),
        error is HealthCheck ==> !dialog_worthy(error, context),
        (error is Network || error is FileSystem || error is Internal)
            ==> (dialog_worthy(error, context) <==> context.user_action is Some),
{
}

/// The ChatGPT request keeps the messages of the request, one for one and in
/// order, each under the id given for it, with its role and its content as
/// the one text part.
pub proof fn law_request_keeps_messages(request: ChatCompletionRequest, ids: Seq<Seq<char>>, parent: Seq<char>,
    r: ChatGptRequest, i: int)
    requires
        request_with_ids(request, ids, parent, r),
        0 <= i < ids.len(),
    ensures
        r.messages@.len() == ids.len(),
        r.messages@[i].id@ == ids[i],
        r.messages@[i].author.role@ == request.messages@[i].role@,
        r.messages@[i].content.parts@.len() == 1,
        r.messages@[i].content.parts@[0]@ == request.messages@[i].content@,
{
    let m = r.messages@[i];
    assert(crate::managers::server_manager::converted(request.messages@[i], m, ids[i]));
    assert(views(m.content.parts@) == seq![request.messages@[i].content@]);
    assert(views(m.content.parts@).len() == m.content.parts@.len());
    assert(views(m.content.parts@)[0] == m.content.parts@[0]@);
}

} // verus!
