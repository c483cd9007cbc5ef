//! Central error reporting: the bounded history of reported errors, the choice
//! of how to tell the user, and the retry policy.

use vstd::prelude::*;
use crate::error::MindLinkError;
use crate::string_map::StringMap;
use crate::text::{cat2, cat3, cat4, contains, decimal, decimal_string, occurs_in, owned, str_eq};
use crate::seq_facts::lemma_filter_take_step;
use crate::logging::{in_utc_range, new_uuid, now_millis, uuid_text};

verus! {

/// Most reports the history keeps; older ones are dropped first.
pub const HISTORY_LIMIT: usize = 1000;

/// Where and why an error happened.
pub struct ErrorContext {
    pub component: String,
    pub operation: String,
    pub user_action: Option<String>,
    pub correlation_id: Option<String>,
    pub additional_info: StringMap<String>,
}

/// One reported error.
pub struct ErrorReport {
    pub id: String,
    /// Milliseconds since the Unix epoch, UTC.
    pub timestamp_ms: i64,
    pub error: MindLinkError,
    pub context: ErrorContext,
    pub user_notified: bool,
    pub resolved: bool,
    pub resolution_notes: Option<String>,
}

/// How errors are reported and retried.
pub struct ErrorReportingConfig {
    pub show_user_dialogs: bool,
    pub send_notifications: bool,
    pub auto_retry_recoverable: bool,
    pub max_retry_attempts: u32,
    pub retry_delay_seconds: u64,
}

impl Default for ErrorReportingConfig {
    fn default() -> (res: Self)
        ensures
            res.show_user_dialogs,
            res.send_notifications,
            !res.auto_retry_recoverable,
            res.max_retry_attempts == 3,
            res.retry_delay_seconds == 5,
    {
        ErrorReportingConfig {
            show_user_dialogs: true,
            send_notifications: true,
            auto_retry_recoverable: false,
            max_retry_attempts: 3,
            retry_delay_seconds: 5,
        }
    }
}

impl ErrorContext {
    /// `other` holds the same context as `self`.
    pub open spec fn same_as(self, other: ErrorContext) -> bool {
        &&& other.component == self.component
        &&& other.operation == self.operation
        &&& other.user_action == self.user_action
        &&& other.correlation_id == self.correlation_id
        &&& other.additional_info.entry_seq() == self.additional_info.entry_seq()
    }

    /// A copy of the context.
    pub fn duplicate(&self) -> (res: Self)
        ensures
            self.same_as(res),
    {
        ErrorContext {
            component: self.component.clone(),
            operation: self.operation.clone(),
            user_action: self.user_action.clone(),
            correlation_id: self.correlation_id.clone(),
            additional_info: self.additional_info.duplicate(),
        }
    }

    /// A context with no additional information.
    pub fn new(component: &str, operation: &str, user_action: Option<String>, correlation_id: Option<String>) -> (res: Self)
        ensures
            res.component@ == component@,
            res.operation@ == operation@,
            res.user_action == user_action,
            res.correlation_id == correlation_id,
            res.additional_info@ == Map::<Seq<char>, String>::empty(),
    {
        ErrorContext {
            component: owned(component),
            operation: owned(operation),
            user_action,
            correlation_id,
            additional_info: StringMap::new(),
        }
    }
}

impl ErrorReport {
    /// `other` is a stored copy of `self`: the same report whose error has lost
    /// its underlying cause.
    pub open spec fn copied_as(self, other: ErrorReport) -> bool {
        &&& other.id == self.id
        &&& other.timestamp_ms == self.timestamp_ms
        &&& other.error == self.error.without_source()
        &&& self.context.same_as(other.context)
        &&& other.user_notified == self.user_notified
        &&& other.resolved == self.resolved
        &&& other.resolution_notes == self.resolution_notes
    }

    /// A copy of the report (the error's underlying cause is not copied).
    pub fn duplicate(&self) -> (res: Self)
        ensures
            self.copied_as(res),
    {
        ErrorReport {
            id: self.id.clone(),
            timestamp_ms: self.timestamp_ms,
            error: self.error.clone(),
            context: self.context.duplicate(),
            user_notified: self.user_notified,
            resolved: self.resolved,
            resolution_notes: self.resolution_notes.clone(),
        }
    }
}

/// How the user is told about a reported error.
#[derive(PartialEq, Eq, Structural)]
pub enum NotificationPlan {
    /// A blocking dialog.
    ShowDialog,
    /// A non-blocking notification.
    SendNotification,
    /// Nothing is shown.
    Silent,
}

/// Whether an error of this kind, in this context, deserves a dialog.
pub open spec fn dialog_worthy(error: MindLinkError, context: ErrorContext) -> bool {
    match error {
        MindLinkError::Authentication { .. } => true,
        MindLinkError::BinaryExecution { .. } => true,
        MindLinkError::Configuration { .. } => true,
        MindLinkError::Network { .. } => context.user_action is Some,
        MindLinkError::HealthCheck { .. } => false,
        MindLinkError::ProcessMonitoring { .. } => !occurs_in("health_check"@, context.operation@),
        MindLinkError::FileSystem { .. } => context.user_action is Some,
        MindLinkError::Tunnel { .. } => true,
        MindLinkError::SystemResource { .. } => true,
        MindLinkError::Internal { .. } => context.user_action is Some,
    }
}

/// The position of an error's variant in the declaration of `MindLinkError`.
pub open spec fn variant_index(error: MindLinkError) -> nat {
    match error {
        MindLinkError::Authentication { .. } => 0,
        MindLinkError::Network { .. } => 1,
        MindLinkError::BinaryExecution { .. } => 2,
        MindLinkError::Configuration { .. } => 3,
        MindLinkError::FileSystem { .. } => 4,
        MindLinkError::ProcessMonitoring { .. } => 5,
        MindLinkError::HealthCheck { .. } => 6,
        MindLinkError::Tunnel { .. } => 7,
        MindLinkError::SystemResource { .. } => 8,
        MindLinkError::Internal { .. } => 9,
    }
}

/// The key under which statistics count an error's kind: the `Debug` text of
/// the variant's discriminant.
pub open spec fn kind_key(error: MindLinkError) -> Seq<char> {
    "Discriminant("@ + decimal(variant_index(error)) + ")"@
}

/// The key under which statistics count an error's kind.
pub fn error_kind_key(error: &MindLinkError) -> (res: String)
    ensures
        res@ == kind_key(*error),
{
    let index: u64 = match error {
        MindLinkError::Authentication { .. } => 0,
        MindLinkError::Network { .. } => 1,
        MindLinkError::BinaryExecution { .. } => 2,
        MindLinkError::Configuration { .. } => 3,
        MindLinkError::FileSystem { .. } => 4,
        MindLinkError::ProcessMonitoring { .. } => 5,
        MindLinkError::HealthCheck { .. } => 6,
        MindLinkError::Tunnel { .. } => 7,
        MindLinkError::SystemResource { .. } => 8,
        MindLinkError::Internal { .. } => 9,
    };
    let digits = decimal_string(index);
    cat3("Discriminant(", digits.as_str(), ")")
}

/// Counts of the reports in the history.
pub struct ErrorStatistics {
    pub total_errors: usize,
    pub resolved_errors: usize,
    pub unresolved_errors: usize,
    pub by_type: StringMap<usize>,
    pub by_component: StringMap<usize>,
}

/// Whether a report is still unresolved.
pub open spec fn is_unresolved() -> spec_fn(ErrorReport) -> bool {
    |r: ErrorReport| !r.resolved
}

/// Whether a report is resolved.
pub open spec fn is_resolved() -> spec_fn(ErrorReport) -> bool {
    |r: ErrorReport| r.resolved
}

/// How many reports in `s` satisfy `pred`.
pub open spec fn count_where(s: Seq<ErrorReport>, pred: spec_fn(ErrorReport) -> bool) -> nat {
    s.filter(pred).len()
}

/// The component a report is counted under.
pub open spec fn component_key() -> spec_fn(ErrorReport) -> Seq<char> {
    |r: ErrorReport| r.context.component@
}

/// The kind key a report is counted under.
pub open spec fn kind_of() -> spec_fn(ErrorReport) -> Seq<char> {
    |r: ErrorReport| kind_key(r.error)
}

/// Reports whose key under `f` is `c`.
pub open spec fn keyed(f: spec_fn(ErrorReport) -> Seq<char>, c: Seq<char>) -> spec_fn(ErrorReport) -> bool {
    |r: ErrorReport| f(r) == c
}

/// `m` counts the reports of `s` by their key under `f`: its keys are the keys
/// that occur, each with the number of reports that carry it.
pub open spec fn counts_by(m: Map<Seq<char>, usize>, s: Seq<ErrorReport>, f: spec_fn(ErrorReport) -> Seq<char>) -> bool {
    &&& forall|c: Seq<char>| #[trigger] m.dom().contains(c) <==> count_where(s, keyed(f, c)) > 0
    &&& forall|c: Seq<char>| m.dom().contains(c) ==> #[trigger] m[c] == count_where(s, keyed(f, c))
}

/// Adds the count of a key to a running sum.
pub open spec fn add_count(m: Map<Seq<char>, usize>) -> spec_fn(int, Seq<char>) -> int {
    |acc: int, k: Seq<char>| acc + m[k]
}

/// The counts of a map of counts, added up.
pub open spec fn count_total(m: Map<Seq<char>, usize>) -> int {
    m.dom().fold(0int, add_count(m))
}

/// Counting one more report adds one to its key and leaves the other keys.
proof fn lemma_counts_step(
    m: Map<Seq<char>, usize>,
    s: Seq<ErrorReport>,
    f: spec_fn(ErrorReport) -> Seq<char>,
    i: int,
    v: usize,
)
    requires
        0 <= i < s.len(),
        counts_by(m, s.take(i), f),
        m.dom().contains(f(s[i])) ==> v == m[f(s[i])] + 1,
        !m.dom().contains(f(s[i])) ==> v == 1,
    ensures
        counts_by(m.insert(f(s[i]), v), s.take(i + 1), f),
{
    let k = f(s[i]);
    let m2 = m.insert(k, v);
    assert forall|c: Seq<char>| #[trigger] m2.dom().contains(c) <==> count_where(s.take(i + 1), keyed(f, c)) > 0 by {
        lemma_filter_take_step(s, keyed(f, c), i);
    }
    assert forall|c: Seq<char>| m2.dom().contains(c) implies #[trigger] m2[c] == count_where(s.take(i + 1), keyed(f, c)) by {
        lemma_filter_take_step(s, keyed(f, c), i);
        if c != k {
            assert(m.dom().contains(c));
        }
    }
}

/// The error history and reporting policy.
pub struct ErrorReporter {
    config: ErrorReportingConfig,
    history: Vec<ErrorReport>,
}

impl ErrorReporter {
    /// The reports kept, oldest first.
    pub closed spec fn reports(&self) -> Seq<ErrorReport> {
        self.history@
    }

    /// The reporting policy.
    pub closed spec fn policy(&self) -> ErrorReportingConfig {
        self.config
    }

    #[verifier::type_invariant]
    spec fn bounded(self) -> bool {
        self.history@.len() <= HISTORY_LIMIT
    }

    /// The history never holds more than the limit.
    pub fn history_len(&self) -> (res: usize)
        ensures
            res == self.reports().len(),
            res <= HISTORY_LIMIT,
    {
        proof {
            use_type_invariant(self);
        }
        self.history.len()
    }

    /// A reporter with an empty history.
    pub fn new(config: ErrorReportingConfig) -> (res: Self)
        ensures
            res.reports().len() == 0,
            res.policy() == config,
    {
        ErrorReporter { config, history: Vec::new() }
    }

    /// Whether an error deserves a blocking dialog rather than a notification.
    pub fn should_show_dialog(error: &MindLinkError, context: &ErrorContext) -> (res: bool)
        ensures
            res == dialog_worthy(*error, *context),
    {
        match error {
            MindLinkError::Authentication { .. } => true,
            MindLinkError::BinaryExecution { .. } => true,
            MindLinkError::Configuration { .. } => true,
            MindLinkError::Network { .. } => context.user_action.is_some(),
            MindLinkError::HealthCheck { .. } => false,
            MindLinkError::ProcessMonitoring { .. } => !contains(context.operation.as_str(), "health_check"),
            MindLinkError::FileSystem { .. } => context.user_action.is_some(),
            MindLinkError::Tunnel { .. } => true,
            MindLinkError::SystemResource { .. } => true,
            MindLinkError::Internal { .. } => context.user_action.is_some(),
        }
    }

    /// The plan for telling the user about an error.
    pub open spec fn plan_for(config: ErrorReportingConfig, error: MindLinkError, context: ErrorContext) -> NotificationPlan {
        if config.show_user_dialogs && dialog_worthy(error, context) {
            NotificationPlan::ShowDialog
        } else if config.send_notifications {
            NotificationPlan::SendNotification
        } else {
            NotificationPlan::Silent
        }
    }

    /// How the user is told about an error: a dialog when dialogs are enabled and
    /// the error deserves one, else a notification when those are enabled.
    pub fn notification_plan(&self, error: &MindLinkError, context: &ErrorContext) -> (res: NotificationPlan)
        ensures
            res == Self::plan_for(self.policy(), *error, *context),
    {
        if self.config.show_user_dialogs && Self::should_show_dialog(error, context) {
            NotificationPlan::ShowDialog
        } else if self.config.send_notifications {
            NotificationPlan::SendNotification
        } else {
            NotificationPlan::Silent
        }
    }

    /// The history after storing one more report.
    pub open spec fn stored(history: Seq<ErrorReport>, report: ErrorReport) -> Seq<ErrorReport> {
        if history.len() + 1 > HISTORY_LIMIT {
            history.push(report).drop_first()
        } else {
            history.push(report)
        }
    }

    /// Record a report with identifier `id` and time `timestamp_ms`.  A copy of
    /// the report, as created and not yet notified, joins the history (dropping
    /// the oldest report past the limit); the returned report is marked
    /// notified when the plan shows the user something.
    pub fn record_report(
        &mut self,
        id: String,
        timestamp_ms: i64,
        error: MindLinkError,
        context: ErrorContext,
    ) -> (res: (ErrorReport, NotificationPlan))
        ensures
            res.0.id == id,
            res.0.timestamp_ms == timestamp_ms,
            res.0.error == error,
            context.same_as(res.0.context),
            !res.0.resolved,
            res.0.resolution_notes is None,
            res.1 == Self::plan_for(old(self).policy(), error, context),
            res.0.user_notified == (res.1 != NotificationPlan::Silent),
            final(self).policy() == old(self).policy(),
            final(self).reports().len() == Self::stored(old(self).reports(), final(self).reports().last()).len(),
            final(self).reports() == Self::stored(old(self).reports(), final(self).reports().last()),
            (ErrorReport { user_notified: false, ..res.0 }).copied_as(final(self).reports().last()),
    {
        proof {
            use_type_invariant(&*self);
        }
        let report = ErrorReport {
            id,
            timestamp_ms,
            error,
            context,
            user_notified: false,
            resolved: false,
            resolution_notes: None,
        };
        let copy = report.duplicate();
        let mut history: Vec<ErrorReport> = Vec::new();
        std::mem::swap(&mut history, &mut self.history);
        let ghost before = history@;
        history.push(copy);
        if history.len() > HISTORY_LIMIT {
            history.remove(0);
            assert(history@ =~= before.push(copy).drop_first());
        }
        self.history = history;
        let plan = self.notification_plan(&report.error, &report.context);
        let notified = match plan {
            NotificationPlan::Silent => false,
            _ => true,
        };
        (ErrorReport { user_notified: notified, ..report }, plan)
    }

    /// Mark the first report with identifier `error_id` as resolved, with the
    /// given notes; nothing changes when there is none.
    pub fn mark_resolved(&mut self, error_id: &str, resolution_notes: &str)
        ensures
            final(self).policy() == old(self).policy(),
            final(self).reports().len() == old(self).reports().len(),
            (forall|j: int| 0 <= j < old(self).reports().len() ==> old(self).reports()[j].id@ != error_id@)
                ==> final(self).reports() == old(self).reports(),
            forall|i: int| 0 <= i < old(self).reports().len() && old(self).reports()[i].id@ == error_id@
                && (forall|j: int| 0 <= j < i ==> old(self).reports()[j].id@ != error_id@)
                ==> {
                    &&& final(self).reports()[i].resolved
                    &&& final(self).reports()[i].resolution_notes matches Some(n) && n@ == resolution_notes@
                    &&& final(self).reports() == old(self).reports().update(i, ErrorReport {
                        resolved: true,
                        resolution_notes: final(self).reports()[i].resolution_notes,
                        ..old(self).reports()[i]
                    })
                },
    {
        proof {
            use_type_invariant(&*self);
        }
        let n = self.history.len();
        let mut i: usize = 0;
        while i < n
            invariant
                n == self.history@.len(),
                self.history@ == old(self).history@,
                self.history@.len() <= HISTORY_LIMIT,
                self.config == old(self).config,
                i <= n,
                forall|j: int| 0 <= j < i ==> self.history@[j].id@ != error_id@,
            decreases n - i,
        {
            if str_eq(self.history[i].id.as_str(), error_id) {
                let mut history: Vec<ErrorReport> = Vec::new();
                std::mem::swap(&mut history, &mut self.history);
                let r = history.remove(i);
                let notes = owned(resolution_notes);
                let updated = ErrorReport { resolved: true, resolution_notes: Some(notes), ..r };
                history.insert(i, updated);
                assert(history@ =~= old(self).history@.update(i as int, updated));
                self.history = history;
                return;
            }
            i = i + 1;
        }
    }

    /// Copies of all reports, oldest first.
    pub fn get_error_history(&self) -> (res: Vec<ErrorReport>)
        ensures
            res@.len() == self.reports().len(),
            forall|i: int| 0 <= i < res@.len() ==> #[trigger] self.reports()[i].copied_as(res@[i]),
    {
        let n = self.history.len();
        let mut out: Vec<ErrorReport> = Vec::new();
        let mut i: usize = 0;
        while i < n
            invariant
                n == self.history@.len(),
                i <= n,
                out@.len() == i,
                forall|j: int| 0 <= j < i ==> #[trigger] self.history@[j].copied_as(out@[j]),
            decreases n - i,
        {
            out.push(self.history[i].duplicate());
            i = i + 1;
        }
        out
    }

    /// Copies of the unresolved reports, oldest first.
    pub fn get_unresolved_errors(&self) -> (res: Vec<ErrorReport>)
        ensures
            res@.len() == self.reports().filter(is_unresolved()).len(),
            forall|i: int| 0 <= i < res@.len() ==>
                #[trigger] self.reports().filter(is_unresolved())[i].copied_as(res@[i]),
    {
        let ghost pred = is_unresolved();
        let n = self.history.len();
        let mut out: Vec<ErrorReport> = Vec::new();
        let mut i: usize = 0;
        while i < n
            invariant
                n == self.history@.len(),
                pred == is_unresolved(),
                i <= n,
                out@.len() == self.history@.take(i as int).filter(pred).len(),
                forall|j: int| 0 <= j < out@.len() ==>
                    #[trigger] self.history@.take(i as int).filter(pred)[j].copied_as(out@[j]),
            decreases n - i,
        {
            proof {
                lemma_filter_take_step(self.history@, pred, i as int);
            }
            if !self.history[i].resolved {
                out.push(self.history[i].duplicate());
            }
            i = i + 1;
        }
        assert(self.history@.take(n as int) =~= self.history@);
        out
    }

    /// Counts of the reports in the history: in all, resolved, unresolved, by
    /// kind and by component.
    pub fn get_error_statistics(&self) -> (res: ErrorStatistics)
        ensures
            res.total_errors == self.reports().len(),
            res.resolved_errors == count_where(self.reports(), is_resolved()),
            res.unresolved_errors == res.total_errors - res.resolved_errors,
            res.unresolved_errors == count_where(self.reports(), is_unresolved()),
            counts_by(res.by_type@, self.reports(), kind_of()),
            counts_by(res.by_component@, self.reports(), component_key()),
    {
        proof {
            use_type_invariant(self);
        }
        let ghost res_pred = is_resolved();
        let ghost unres_pred = is_unresolved();
        let n = self.history.len();
        let mut resolved: usize = 0;
        let mut by_type: StringMap<usize> = StringMap::new();
        let mut by_component: StringMap<usize> = StringMap::new();
        let mut i: usize = 0;
        while i < n
            invariant
                n == self.history@.len(),
                n <= HISTORY_LIMIT,
                i <= n,
                res_pred == is_resolved(),
                unres_pred == is_unresolved(),
                resolved == count_where(self.history@.take(i as int), res_pred),
                i - resolved == count_where(self.history@.take(i as int), unres_pred),
                resolved <= i,
                counts_by(by_type@, self.history@.take(i as int), kind_of()),
                counts_by(by_component@, self.history@.take(i as int), component_key()),
                forall|c: Seq<char>| by_type@.dom().contains(c) ==> by_type@[c] <= i,
                forall|c: Seq<char>| by_component@.dom().contains(c) ==> by_component@[c] <= i,
            decreases n - i,
        {
            let r = &self.history[i];
            proof {
                lemma_filter_take_step(self.history@, res_pred, i as int);
                lemma_filter_take_step(self.history@, unres_pred, i as int);
            }
            if r.resolved {
                resolved = resolved + 1;
            }
            let kind = error_kind_key(&r.error);
            let kind_count: usize = match by_type.get(kind.as_str()) {
                Some(c) => *c + 1,
                None => 1,
            };
            proof {
                lemma_counts_step(by_type@, self.history@, kind_of(), i as int, kind_count);
            }
            by_type.insert(kind, kind_count);
            let comp_count: usize = match by_component.get(r.context.component.as_str()) {
                Some(c) => *c + 1,
                None => 1,
            };
            proof {
                lemma_counts_step(by_component@, self.history@, component_key(), i as int, comp_count);
            }
            by_component.insert(r.context.component.clone(), comp_count);
            i = i + 1;
        }
        assert(self.history@.take(n as int) =~= self.history@);
        ErrorStatistics {
            total_errors: n,
            resolved_errors: resolved,
            unresolved_errors: n - resolved,
            by_type,
            by_component,
        }
    }

    /// The reporting policy in force.
    pub fn config(&self) -> (res: &ErrorReportingConfig)
        ensures
            *res == self.policy(),
    {
        &self.config
    }

    /// How many times an operation is attempted: the configured maximum when
    /// recoverable errors are retried automatically, else once.
    pub fn attempt_limit(&self) -> (res: u32)
        ensures
            res == (if self.policy().auto_retry_recoverable { self.policy().max_retry_attempts } else { 1 }),
    {
        if self.config.auto_retry_recoverable {
            self.config.max_retry_attempts
        } else {
            1
        }
    }

    /// Whether attempt number `attempt` (counted from 1) of at most
    /// `max_attempts`, which failed with `error`, is followed by another.
    pub fn should_retry(&self, attempt: u32, max_attempts: u32, error: &MindLinkError) -> (res: bool)
        ensures
            res == (attempt < max_attempts && self.policy().auto_retry_recoverable && error.recoverable()),
    {
        attempt < max_attempts && self.config.auto_retry_recoverable && error.is_recoverable()
    }

    /// The context under which attempt `attempt` of `max_attempts` is reported:
    /// the given context with the attempt numbers added as information.
    pub fn retry_context(context: &ErrorContext, attempt: u32, max_attempts: u32) -> (res: ErrorContext)
        ensures
            res.component == context.component,
            res.operation == context.operation,
            res.user_action == context.user_action,
            res.correlation_id == context.correlation_id,
            res.additional_info@ == context.additional_info@
                .insert("attempt"@, res.additional_info@["attempt"@])
                .insert("max_attempts"@, res.additional_info@["max_attempts"@]),
            res.additional_info@["attempt"@]@ == decimal(attempt as nat),
            res.additional_info@["max_attempts"@]@ == decimal(max_attempts as nat),
    {
        let mut ctx = context.duplicate();
        let a = decimal_string(attempt as u64);
        let m = decimal_string(max_attempts as u64);
        ctx.additional_info.insert(owned("attempt"), a);
        ctx.additional_info.insert(owned("max_attempts"), m);
        proof {
            reveal_strlit("attempt");
            reveal_strlit("max_attempts");
            assert("attempt"@.len() != "max_attempts"@.len());
        }
        ctx
    }

    /// Drop the resolved reports, keeping the others in order.
    pub fn clear_resolved_errors(&mut self)
        ensures
            final(self).policy() == old(self).policy(),
            final(self).reports() == old(self).reports().filter(is_unresolved()),
    {
        proof {
            use_type_invariant(&*self);
        }
        let ghost pred = is_unresolved();
        let mut rest: Vec<ErrorReport> = Vec::new();
        std::mem::swap(&mut rest, &mut self.history);
        let ghost orig = rest@;
        let mut kept: Vec<ErrorReport> = Vec::new();
        for r in it: rest
            invariant
                it.seq() == orig,
                orig == old(self).history@,
                orig.len() <= HISTORY_LIMIT,
                pred == is_unresolved(),
                kept@ == orig.take(it.index() as int).filter(pred),
        {
            proof {
                assert(r == orig[it.index() as int]);
                lemma_filter_take_step(orig, pred, it.index() as int);
                crate::seq_facts::lemma_filter_len_bound(orig.take(it.index() as int + 1), pred);
            }
            if !r.resolved {
                kept.push(r);
            }
        }
        proof {
            assert(orig.take(orig.len() as int) =~= orig);
            crate::seq_facts::lemma_filter_len_bound(orig, pred);
        }
        self.history = kept;
    }
}

/// A run of an operation retried under the reporting policy: the attempt
/// under way (counted from 1), the most attempts, and the report of the last
/// failure.
pub struct RetryRun {
    pub attempt: u32,
    pub max_attempts: u32,
    pub last_report: Option<String>,
}

/// What follows a failed attempt.
pub enum RetryDecision {
    /// Wait this many seconds, log the notice, and try again.
    Retry { delay_secs: u64, notice: String },
    /// Stop, failing with the error.
    GiveUp(MindLinkError),
}

impl ErrorReporter {
    /// The most attempts of an operation: the policy's maximum when
    /// recoverable errors are retried, else one.
    pub open spec fn limit(&self) -> u32 {
        if self.policy().auto_retry_recoverable { self.policy().max_retry_attempts } else { 1 }
    }

    /// Begin a retried run: first attempt, no failure reported yet.  The
    /// policy must allow at least one attempt.
    pub fn start_retry_run(&self) -> (res: RetryRun)
        requires
            self.limit() >= 1,
        ensures
            res.attempt == 1,
            res.max_attempts == self.limit(),
            res.last_report is None,
    {
        RetryRun { attempt: 1, max_attempts: self.attempt_limit(), last_report: None }
    }

    /// After a successful attempt: the report of the last failure, if any, to
    /// be marked resolved, with the note naming the attempt that succeeded.
    pub fn resolution_after_success(run: &RetryRun) -> (res: Option<(String, String)>)
        ensures
            match run.last_report {
                Some(id) => res matches Some((i, n)) && i@ == id@
                    && n@ == "Resolved on attempt "@ + decimal(run.attempt as nat),
                None => res is None,
            },
    {
        match &run.last_report {
            Some(id) => {
                let a = decimal_string(run.attempt as u64);
                Some((id.clone(), cat2("Resolved on attempt ", a.as_str())))
            },
            None => None,
        }
    }

    /// After a failed attempt: the failure (without its cause, which stays
    /// with the error) is reported under `context` with the attempt numbers
    /// added, and the run either goes on to the next attempt after the
    /// policy's delay, when attempts are left and the policy retries this
    /// recoverable error, or gives up with the error.
    pub fn record_retry_failure(
        &mut self,
        run: &mut RetryRun,
        report_id: String,
        timestamp_ms: i64,
        error: MindLinkError,
        context: &ErrorContext,
    ) -> (res: (ErrorReport, NotificationPlan, RetryDecision))
        requires
            1 <= old(run).attempt <= old(run).max_attempts,
        ensures
            res.0.id == report_id,
            res.0.timestamp_ms == timestamp_ms,
            res.0.error == error.without_source(),
            res.0.context.component == context.component,
            res.0.context.operation == context.operation,
            res.0.context.user_action == context.user_action,
            res.0.context.correlation_id == context.correlation_id,
            res.0.context.additional_info@["attempt"@]@ == decimal(old(run).attempt as nat),
            res.0.context.additional_info@["max_attempts"@]@ == decimal(old(run).max_attempts as nat),
            !res.0.resolved,
            res.0.resolution_notes is None,
            res.0.user_notified == (res.1 != NotificationPlan::Silent),
            final(self).policy() == old(self).policy(),
            final(self).reports() == Self::stored(old(self).reports(), final(self).reports().last()),
            (ErrorReport { user_notified: false, ..res.0 }).copied_as(final(self).reports().last()),
            final(run).max_attempts == old(run).max_attempts,
            final(run).last_report == Some(report_id),
            1 <= final(run).attempt <= final(run).max_attempts,
            if old(run).attempt < old(run).max_attempts && old(self).policy().auto_retry_recoverable
                && error.recoverable() {
                &&& final(run).attempt == old(run).attempt + 1
                &&& res.2 matches RetryDecision::Retry { delay_secs, notice }
                &&& delay_secs == old(self).policy().retry_delay_seconds
                &&& notice@ == "Retrying operation (attempt "@ + decimal((old(run).attempt + 1) as nat) + " of "@
                    + decimal(old(run).max_attempts as nat) + ")"@
            } else {
                &&& final(run).attempt == old(run).attempt
                &&& res.2 matches RetryDecision::GiveUp(e) && e == error
            },
    {
        let retry = self.should_retry(run.attempt, run.max_attempts, &error);
        let ctx = Self::retry_context(context, run.attempt, run.max_attempts);
        let copy = error.clone();
        let (report, plan) = self.record_report(report_id.clone(), timestamp_ms, copy, ctx);
        run.last_report = Some(report_id);
        if retry {
            let next: u32 = run.attempt + 1;
            let a = decimal_string(next as u64);
            let m = decimal_string(run.max_attempts as u64);
            let mut notice = cat4("Retrying operation (attempt ", a.as_str(), " of ", m.as_str());
            notice.append(")");
            run.attempt = next;
            (report, plan, RetryDecision::Retry { delay_secs: self.config.retry_delay_seconds, notice })
        } else {
            (report, plan, RetryDecision::GiveUp(error))
        }
    }
}

impl ErrorReporter {
    /// Report an error: it is recorded under a fresh random identifier at the
    /// current time (see `record_report`).  When the random source or the
    /// clock cannot give them, nothing is recorded and the error comes back.
    pub fn report_error(&mut self, error: MindLinkError, context: ErrorContext)
        -> (res: Result<(ErrorReport, NotificationPlan), MindLinkError>)
        ensures
            match res {
                Err(e) => e == error && final(self).policy() == old(self).policy()
                    && final(self).reports() == old(self).reports(),
                Ok(r) => {
                    &&& uuid_text(r.0.id@)
                    &&& in_utc_range(r.0.timestamp_ms as int)
                    &&& r.0.error == error
                    &&& context.same_as(r.0.context)
                    &&& !r.0.resolved
                    &&& r.0.resolution_notes is None
                    &&& r.1 == Self::plan_for(old(self).policy(), error, context)
                    &&& r.0.user_notified == (r.1 != NotificationPlan::Silent)
                    &&& final(self).policy() == old(self).policy()
                    &&& final(self).reports() == Self::stored(old(self).reports(), final(self).reports().last())
                    &&& (ErrorReport { user_notified: false, ..r.0 }).copied_as(final(self).reports().last())
                },
            },
    {
        let id = match new_uuid() {
            Some(u) => u,
            None => return Err(error),
        };
        let now = match now_millis() {
            Some(t) => t,
            None => return Err(error),
        };
        Ok(self.record_report(id, now, error, context))
    }

    /// A failed attempt of a retried run, recorded under a fresh random
    /// identifier at the current time (see `record_retry_failure`).  When the
    /// random source or the clock cannot give them, nothing is recorded, the
    /// run is left as it was, and the error comes back.
    pub fn retry_run_failed(
        &mut self,
        run: &mut RetryRun,
        error: MindLinkError,
        context: &ErrorContext,
    ) -> (res: Result<(ErrorReport, NotificationPlan, RetryDecision), MindLinkError>)
        requires
            1 <= old(run).attempt <= old(run).max_attempts,
        ensures
            match res {
                Err(e) => e == error && final(self).policy() == old(self).policy()
                    && final(self).reports() == old(self).reports() && *final(run) == *old(run),
                Ok(r) => {
                    &&& uuid_text(r.0.id@)
                    &&& in_utc_range(r.0.timestamp_ms as int)
                    &&& r.0.error == error.without_source()
                    &&& r.0.context.component == context.component
                    &&& r.0.context.operation == context.operation
                    &&& r.0.context.user_action == context.user_action
                    &&& r.0.context.correlation_id == context.correlation_id
                    &&& r.0.context.additional_info@["attempt"@]@ == decimal(old(run).attempt as nat)
                    &&& r.0.context.additional_info@["max_attempts"@]@ == decimal(old(run).max_attempts as nat)
                    &&& !r.0.resolved
                    &&& r.0.resolution_notes is None
                    &&& r.0.user_notified == (r.1 != NotificationPlan::Silent)
                    &&& final(self).policy() == old(self).policy()
                    &&& final(self).reports() == Self::stored(old(self).reports(), final(self).reports().last())
                    &&& (ErrorReport { user_notified: false, ..r.0 }).copied_as(final(self).reports().last())
                    &&& final(run).max_attempts == old(run).max_attempts
                    &&& final(run).last_report matches Some(id) && id == r.0.id
                    &&& 1 <= final(run).attempt <= final(run).max_attempts
                    &&& if old(run).attempt < old(run).max_attempts && old(self).policy().auto_retry_recoverable
                        && error.recoverable() {
                        &&& final(run).attempt == old(run).attempt + 1
                        &&& r.2 matches RetryDecision::Retry { delay_secs, notice }
                        &&& delay_secs == old(self).policy().retry_delay_seconds
                        &&& notice@ == "Retrying operation (attempt "@ + decimal((old(run).attempt + 1) as nat)
                            + " of "@ + decimal(old(run).max_attempts as nat) + ")"@
                    } else {
                        &&& final(run).attempt == old(run).attempt
                        &&& r.2 matches RetryDecision::GiveUp(e) && e == error
                    }
                },
            },
    {
        let id = match new_uuid() {
            Some(u) => u,
            None => return Err(error),
        };
        let now = match now_millis() {
            Some(t) => t,
            None => return Err(error),
        };
        Ok(self.record_retry_failure(run, id, now, error, context))
    }
}

} // verus!
