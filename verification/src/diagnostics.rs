//! Preflight diagnostics: the results of the probes, their reduction to one
//! overall status, and the shared state that says whether they have passed.

use vstd::prelude::*;
use vstd::string::*;

use crate::error::{is_outcome, OfficeError, OfficeErrorView};

verus! {

/// How much a probe's result matters.
#[derive(Debug, Clone, Copy, PartialEq, Eq, Hash, Structural)]
pub enum Severity {
    Info,
    Warning,
    Error,
}

impl Severity {
    /// The word under which the severity is reported.
    pub open spec fn word(self) -> Seq<char> {
        match self {
            Self::Info => "info"@,
            Self::Warning => "warning"@,
            Self::Error => "error"@,
        }
    }

    /// The word under which the severity is reported.
    pub fn as_str(&self) -> (word: &'static str)
        ensures
            word@ == self.word(),
    {
        match self {
            Self::Info => "info",
            Self::Warning => "warning",
            Self::Error => "error",
        }
    }
}

/// The overall result of a diagnostics run.
#[derive(Debug, Clone, Copy, PartialEq, Eq, Hash, Structural)]
pub enum Status {
    /// Every check passed.
    Okay,
    /// A check failed, and no check has severity `Error`.
    Warning,
    /// A check failed, and some check has severity `Error`.
    Error,
}

impl Status {
    /// The word under which the status is reported.
    pub open spec fn word(self) -> Seq<char> {
        match self {
            Self::Okay => "OK"@,
            Self::Warning => "WARNING"@,
            Self::Error => "ERROR"@,
        }
    }

    /// The word under which the status is reported.
    pub fn as_str(&self) -> (word: &'static str)
        ensures
            word@ == self.word(),
    {
        match self {
            Self::Okay => "OK",
            Self::Warning => "WARNING",
            Self::Error => "ERROR",
        }
    }
}

/// The result of one probe.
#[derive(Debug, PartialEq, Eq)]
pub struct CheckResult {
    pub passed: bool,
    pub message: String,
    pub severity: Severity,
}

/// The mathematical content of a `CheckResult`.
pub struct CheckResultView {
    pub passed: bool,
    pub message: Seq<char>,
    pub severity: Severity,
}

impl View for CheckResult {
    type V = CheckResultView;

    open spec fn view(&self) -> CheckResultView {
        CheckResultView { passed: self.passed, message: self.message@, severity: self.severity }
    }
}

impl Clone for CheckResult {
    fn clone(&self) -> (copy: Self)
        ensures
            copy@ == self@,
    {
        CheckResult {
            passed: self.passed,
            message: self.message.clone(),
            severity: self.severity,
        }
    }
}

/// The result of one probe, under the probe's name.
#[derive(Debug, PartialEq, Eq)]
pub struct NamedCheck {
    pub name: String,
    pub check: CheckResult,
}

/// The mathematical content of a `NamedCheck`.
pub struct NamedCheckView {
    pub name: Seq<char>,
    pub check: CheckResultView,
}

impl View for NamedCheck {
    type V = NamedCheckView;

    open spec fn view(&self) -> NamedCheckView {
        NamedCheckView { name: self.name@, check: self.check@ }
    }
}

impl Clone for NamedCheck {
    fn clone(&self) -> (copy: Self)
        ensures
            copy@ == self@,
    {
        NamedCheck { name: self.name.clone(), check: self.check.clone() }
    }
}

/// The views of `checks`, in order.
pub open spec fn check_views(checks: Seq<NamedCheck>) -> Seq<NamedCheckView> {
    checks.map_values(|check: NamedCheck| check@)
}

/// Every check passed.
pub open spec fn all_passed(checks: Seq<NamedCheckView>) -> bool {
    forall|i: int| 0 <= i < checks.len() ==> (#[trigger] checks[i]).check.passed
}

/// Some check has severity `Error`.
pub open spec fn any_error(checks: Seq<NamedCheckView>) -> bool {
    exists|i: int| 0 <= i < checks.len() && (#[trigger] checks[i]).check.severity == Severity::Error
}

/// Some check failed with severity `Error`.
pub open spec fn any_failed_error(checks: Seq<NamedCheckView>) -> bool {
    exists|i: int|
        0 <= i < checks.len() && !(#[trigger] checks[i]).check.passed && checks[i].check.severity
            == Severity::Error
}

/// The overall status of a run with the given checks.
pub open spec fn status_of(checks: Seq<NamedCheckView>) -> Status {
    if all_passed(checks) {
        Status::Okay
    } else if any_error(checks) {
        Status::Error
    } else {
        Status::Warning
    }
}

/// The overall status of a run with the given checks.
pub fn overall_status(checks: &Vec<NamedCheck>) -> (status: Status)
    ensures
        status == status_of(check_views(checks@)),
{
    let ghost views = check_views(checks@);
    let mut every_passed = true;
    let mut has_error = false;
    let mut i: usize = 0;
    while i < checks.len()
        invariant
            i <= checks.len(),
            views == check_views(checks@),
            every_passed == all_passed(views.subrange(0, i as int)),
            has_error == any_error(views.subrange(0, i as int)),
        decreases checks.len() - i,
    {
        let ghost seen = views.subrange(0, i as int);
        let ghost next = views.subrange(0, i + 1);
        proof {
            assert(forall|j: int| 0 <= j < i ==> seen[j] == next[j]);
            assert(next[i as int] == checks@[i as int]@);
            if any_error(seen) {
                let j = choose|j: int| 0 <= j < seen.len() && (#[trigger] seen[j]).check.severity
                    == Severity::Error;
                assert(next[j].check.severity == Severity::Error);
            }
            if any_error(next) && checks@[i as int].check.severity != Severity::Error {
                let j = choose|j: int| 0 <= j < next.len() && (#[trigger] next[j]).check.severity
                    == Severity::Error;
                assert(seen[j].check.severity == Severity::Error);
            }
            if all_passed(seen) && checks@[i as int].check.passed {
                assert forall|j: int| 0 <= j < next.len() implies (#[trigger] next[j]).check.passed by {
                    if j < i {
                        assert(seen[j].check.passed);
                    }
                }
            }
            if all_passed(next) {
                assert(next[i as int].check.passed);
                assert forall|j: int| 0 <= j < seen.len() implies (#[trigger] seen[j]).check.passed by {
                    assert(next[j].check.passed);
                }
            }
        }
        if !checks[i].check.passed {
            every_passed = false;
        }
        if checks[i].check.severity == Severity::Error {
            has_error = true;
        }
        i += 1;
    }
    assert(views.subrange(0, views.len() as int) =~= views);
    if every_passed {
        Status::Okay
    } else if has_error {
        Status::Error
    } else {
        Status::Warning
    }
}

/// The status is `Okay` exactly where every check passed, `Error` exactly
/// where a failed check has severity `Error`, and `Warning` otherwise. This
/// holds of every run but one kind: a run in which a check failed, no failed
/// check has severity `Error`, and yet a check that passed has it. Such a
/// run counts as `Error`, since the status goes by the severities of all
/// checks.
pub proof fn lemma_status_by_failed_checks(checks: Seq<NamedCheckView>)
    requires
        all_passed(checks) || any_failed_error(checks) || !any_error(checks),
    ensures
        status_of(checks) == Status::Okay <==> all_passed(checks),
        status_of(checks) == Status::Error <==> any_failed_error(checks),
        status_of(checks) == Status::Warning <==> !all_passed(checks) && !any_failed_error(checks),
{
    if any_failed_error(checks) {
        let i = choose|i: int|
            0 <= i < checks.len() && !(#[trigger] checks[i]).check.passed
                && checks[i].check.severity == Severity::Error;
        assert(!checks[i].check.passed);
        assert(checks[i].check.severity == Severity::Error);
    }
}

/// The order in which the probes report does not matter: two lists that
/// hold the same checks, each as often as the other, have the same status.
pub proof fn lemma_status_ignores_order(first: Seq<NamedCheckView>, second: Seq<NamedCheckView>)
    requires
        first.to_multiset() == second.to_multiset(),
    ensures
        status_of(first) == status_of(second),
{
    first.to_multiset_ensures();
    second.to_multiset_ensures();
    assert forall|i: int| 0 <= i < first.len() implies second.contains(#[trigger] first[i]) by {
        assert(first.contains(first[i]));
        assert(first.to_multiset().count(first[i]) > 0);
    }
    assert forall|i: int| 0 <= i < second.len() implies first.contains(#[trigger] second[i]) by {
        assert(second.contains(second[i]));
        assert(second.to_multiset().count(second[i]) > 0);
    }
    lemma_status_of_contained(first, second);
    lemma_status_of_contained(second, first);
}

/// Where every check of `first` occurs in `second`, a failure or an error
/// among the first is one among the second.
proof fn lemma_status_of_contained(first: Seq<NamedCheckView>, second: Seq<NamedCheckView>)
    requires
        forall|i: int| 0 <= i < first.len() ==> second.contains(#[trigger] first[i]),
    ensures
        all_passed(second) ==> all_passed(first),
        any_error(first) ==> any_error(second),
{
    if all_passed(second) {
        assert forall|i: int| 0 <= i < first.len() implies (#[trigger] first[i]).check.passed by {
            assert(second.contains(first[i]));
            let j = choose|j: int| 0 <= j < second.len() && second[j] == first[i];
            assert(second[j].check.passed);
        }
    }
    if any_error(first) {
        let i = choose|i: int| 0 <= i < first.len() && (#[trigger] first[i]).check.severity
            == Severity::Error;
        assert(second.contains(first[i]));
        let j = choose|j: int| 0 <= j < second.len() && second[j] == first[i];
        assert(second[j].check.severity == Severity::Error);
    }
}

/// The report of one diagnostics run.
#[derive(Debug, PartialEq, Eq)]
pub struct DiagnosticsResult {
    pub status: Status,
    pub checks: Vec<NamedCheck>,
    /// When the report was made: whole seconds since the Unix epoch.
    pub timestamp_secs: u64,
    /// When the report was made: the nanoseconds beyond the whole seconds.
    pub timestamp_nanos: u32,
}

/// The mathematical content of a `DiagnosticsResult`.
pub struct DiagnosticsResultView {
    pub status: Status,
    pub checks: Seq<NamedCheckView>,
    pub timestamp_secs: u64,
    pub timestamp_nanos: u32,
}

impl View for DiagnosticsResult {
    type V = DiagnosticsResultView;

    open spec fn view(&self) -> DiagnosticsResultView {
        DiagnosticsResultView {
            status: self.status,
            checks: check_views(self.checks@),
            timestamp_secs: self.timestamp_secs,
            timestamp_nanos: self.timestamp_nanos,
        }
    }
}

/// A copy of `checks`.
fn copy_checks(checks: &Vec<NamedCheck>) -> (copy: Vec<NamedCheck>)
    ensures
        check_views(copy@) == check_views(checks@),
{
    let mut copy: Vec<NamedCheck> = Vec::new();
    let mut i: usize = 0;
    while i < checks.len()
        invariant
            i <= checks.len(),
            check_views(copy@) == check_views(checks@).subrange(0, i as int),
        decreases checks.len() - i,
    {
        let ghost before = copy@;
        let check = checks[i].clone();
        copy.push(check);
        proof {
            assert(check_views(before.push(check)) =~= check_views(before).push(check@));
            assert(check_views(checks@).subrange(0, i + 1) =~= check_views(checks@).subrange(
                0,
                i as int,
            ).push(check_views(checks@)[i as int]));
        }
        i += 1;
    }
    assert(check_views(checks@).subrange(0, checks@.len() as int) =~= check_views(checks@));
    copy
}

impl Clone for DiagnosticsResult {
    fn clone(&self) -> (copy: Self)
        ensures
            copy@ == self@,
    {
        DiagnosticsResult {
            status: self.status,
            checks: copy_checks(&self.checks),
            timestamp_secs: self.timestamp_secs,
            timestamp_nanos: self.timestamp_nanos,
        }
    }
}

/// The report of a run with the given checks, made at the given time.
pub open spec fn report_of(checks: Seq<NamedCheckView>, secs: u64, nanos: u32)
    -> DiagnosticsResultView {
    DiagnosticsResultView {
        status: status_of(checks),
        checks,
        timestamp_secs: secs,
        timestamp_nanos: nanos,
    }
}

/// The five checks of a run under their names, in their fixed order.
pub open spec fn named_checks(
    ram: CheckResultView,
    disk: CheckResultView,
    ollama: CheckResultView,
    models: CheckResultView,
    backend: CheckResultView,
) -> Seq<NamedCheckView> {
    seq![
        NamedCheckView { name: "ram"@, check: ram },
        NamedCheckView { name: "disk"@, check: disk },
        NamedCheckView { name: "ollama"@, check: ollama },
        NamedCheckView { name: "models"@, check: models },
        NamedCheckView { name: "backend"@, check: backend },
    ]
}

impl DiagnosticsResult {
    /// The report of a run with the given checks, made at the given time.
    pub fn new(checks: Vec<NamedCheck>, timestamp_secs: u64, timestamp_nanos: u32) -> (report: Self)
        ensures
            report@ == report_of(check_views(checks@), timestamp_secs, timestamp_nanos),
    {
        let status = overall_status(&checks);
        DiagnosticsResult { status, checks, timestamp_secs, timestamp_nanos }
    }

    /// The check of the given name, if the report has one.
    pub fn check(&self, name: &str) -> (found: Option<&CheckResult>)
        ensures
            match found {
                Some(check) => exists|i: int|
                    0 <= i < self@.checks.len() && (#[trigger] self@.checks[i]).name == name@
                        && self@.checks[i].check == check@,
                None => forall|i: int|
                    0 <= i < self@.checks.len() ==> (#[trigger] self@.checks[i]).name != name@,
            },
    {
        let wanted = name.to_owned();
        let mut i: usize = 0;
        while i < self.checks.len()
            invariant
                i <= self.checks.len(),
                wanted@ == name@,
                forall|j: int| 0 <= j < i ==> (#[trigger] self@.checks[j]).name != name@,
            decreases self.checks.len() - i,
        {
            if self.checks[i].name == wanted {
                assert(self@.checks[i as int].name == name@);
                return Some(&self.checks[i].check);
            }
            i += 1;
        }
        None
    }
}

/// The state that the application shares: where the backend is, whether
/// the preflight diagnostics have passed, and the report of the last run.
#[derive(Debug)]
pub struct AppState {
    backend_base_url: String,
    preflight_passed: bool,
    diagnostics: Option<DiagnosticsResult>,
}

/// The mathematical content of an `AppState`.
pub struct AppStateView {
    pub backend_base_url: Seq<char>,
    pub preflight_passed: bool,
    pub diagnostics: Option<DiagnosticsResultView>,
}

impl AppStateView {
    /// The preflight counts as passed exactly where the last run's status
    /// is `Okay`; before any run it has not passed.
    pub open spec fn consistent(self) -> bool {
        self.preflight_passed == (self.diagnostics matches Some(report) && report.status
            == Status::Okay)
    }
}

impl View for AppState {
    type V = AppStateView;

    closed spec fn view(&self) -> AppStateView {
        AppStateView {
            backend_base_url: self.backend_base_url@,
            preflight_passed: self.preflight_passed,
            diagnostics: match self.diagnostics {
                Some(report) => Some(report@),
                None => None,
            },
        }
    }
}

/// The state before any diagnostics run.
pub open spec fn initial_state(backend_base_url: Seq<char>) -> AppStateView {
    AppStateView { backend_base_url, preflight_passed: false, diagnostics: None }
}

/// The state after a run with the given report, whatever the runs before it
/// reported.
pub open spec fn state_after(state: AppStateView, report: DiagnosticsResultView) -> AppStateView {
    AppStateView {
        backend_base_url: state.backend_base_url,
        preflight_passed: report.status == Status::Okay,
        diagnostics: Some(report),
    }
}

impl AppState {
    #[verifier::type_invariant]
    spec fn passed_follows_report(self) -> bool {
        self@.consistent()
    }

    /// The state before any diagnostics run: the preflight has not passed.
    pub fn new(backend_base_url: String) -> (state: Self)
        ensures
            state@ == initial_state(backend_base_url@),
    {
        AppState { backend_base_url, preflight_passed: false, diagnostics: None }
    }

    /// Where the backend is.
    pub fn backend_base_url(&self) -> (url: &String)
        ensures
            url@ == self@.backend_base_url,
    {
        &self.backend_base_url
    }

    /// Takes in the report of a run: the report replaces the one before it,
    /// and whether the preflight has passed goes by its status alone.
    pub fn record_run(&mut self, report: DiagnosticsResult)
        ensures
            final(self)@ == state_after(old(self)@, report@),
    {
        let passed = report.status == Status::Okay;
        let base = self.backend_base_url.clone();
        *self = AppState {
            backend_base_url: base,
            preflight_passed: passed,
            diagnostics: Some(report),
        };
    }

    /// The report of the last run, if there was one.
    pub fn last_diagnostics(&self) -> (report: Option<&DiagnosticsResult>)
        ensures
            self@.consistent(),
            match report {
                Some(last) => self@.diagnostics == Some(last@),
                None => self@.diagnostics is None,
            },
    {
        proof {
            use_type_invariant(self);
        }
        self.diagnostics.as_ref()
    }

    /// Succeeds where the preflight diagnostics have passed; otherwise the
    /// caller is to stop before it does anything else.
    pub fn require_preflight(&self) -> (allowed: Result<(), OfficeError>)
        ensures
            self@.consistent(),
            self@.preflight_passed ==> allowed is Ok,
            !self@.preflight_passed ==> is_outcome(
                allowed,
                Err(OfficeErrorView::PreflightNotSatisfied),
            ),
    {
        proof {
            use_type_invariant(self);
        }
        if self.preflight_passed {
            Ok(())
        } else {
            Err(OfficeError::PreflightNotSatisfied)
        }
    }
}

/// Whether the preflight diagnostics have passed: whether there was a run,
/// and the last one reported `Okay`.
pub fn is_preflight_passed(state: &AppState) -> (passed: bool)
    ensures
        passed == state@.preflight_passed,
        passed == (state@.diagnostics matches Some(report) && report.status == Status::Okay),
{
    proof {
        use_type_invariant(state);
    }
    state.preflight_passed
}

/// Reduces the results of the five probes to a report made at the given
/// time, records it in `state`, and returns it.
pub fn record_checks(
    state: &mut AppState,
    ram: CheckResult,
    disk: CheckResult,
    ollama: CheckResult,
    models: CheckResult,
    backend: CheckResult,
    timestamp_secs: u64,
    timestamp_nanos: u32,
) -> (report: DiagnosticsResult)
    ensures
        report@ == report_of(
            named_checks(ram@, disk@, ollama@, models@, backend@),
            timestamp_secs,
            timestamp_nanos,
        ),
        final(state)@ == state_after(old(state)@, report@),
{
    let mut checks: Vec<NamedCheck> = Vec::new();
    checks.push(NamedCheck { name: "ram".to_string(), check: ram });
    checks.push(NamedCheck { name: "disk".to_string(), check: disk });
    checks.push(NamedCheck { name: "ollama".to_string(), check: ollama });
    checks.push(NamedCheck { name: "models".to_string(), check: models });
    checks.push(NamedCheck { name: "backend".to_string(), check: backend });
    assert(check_views(checks@) =~= named_checks(ram@, disk@, ollama@, models@, backend@));
    let report = DiagnosticsResult::new(checks, timestamp_secs, timestamp_nanos);
    state.record_run(report.clone());
    report
}

} // verus!
