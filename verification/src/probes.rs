//! The probes of the preflight diagnostics. The network requests are made
//! by the caller; each function here turns what came back into the check's
//! result.

use vstd::prelude::*;
use vstd::string::*;

use crate::diagnostics::{CheckResult, CheckResultView, Severity};
use crate::error::{OfficeError, OfficeErrorView};
use crate::json::{json_document, json_model, json_models, member, parse_document, JsonModel};
use crate::system::{read_available_memory, read_free_disk_space};
use crate::text::{
    contains_text, decimal, decimal_text, is_substring, string_views, two_decimals,
    two_decimals_text,
};

verus! {

/// Bytes in a gigabyte, as memory is counted.
pub const GIGABYTE: u64 = 1073741824;

/// Seconds after which a network probe is given up.
pub const PROBE_TIMEOUT_SECS: u64 = 5;

/// Where the local model runtime lists the models it has.
pub fn model_runtime_url() -> (url: &'static str)
    ensures
        url@ == "http://127.0.0.1:11434/api/tags"@,
{
    "http://127.0.0.1:11434/api/tags"
}

/// Where the backend at `base_url` reports its health.
pub open spec fn health_url(base_url: Seq<char>) -> Seq<char> {
    base_url + "/health"@
}

/// Where the backend at `base_url` reports its health.
pub fn backend_health_url(base_url: &str) -> (url: String)
    ensures
        url@ == health_url(base_url@),
{
    let mut url = base_url.to_owned();
    url.append("/health");
    url
}

/// What came back from a network probe.
#[derive(Debug, PartialEq, Eq)]
pub enum ProbeOutcome {
    /// The service answered: whether with a status of success, and the
    /// bytes of the answer's body as far as the caller has read them.
    Answered { success: bool, body: Vec<u8> },
    /// No connection could be made.
    Unreachable,
    /// No answer came in time.
    TimedOut,
}

/// The mathematical content of a `ProbeOutcome`.
pub enum ProbeOutcomeView {
    Answered { success: bool, body: Seq<u8> },
    Unreachable,
    TimedOut,
}

impl View for ProbeOutcome {
    type V = ProbeOutcomeView;

    open spec fn view(&self) -> ProbeOutcomeView {
        match *self {
            ProbeOutcome::Answered { success, body } => ProbeOutcomeView::Answered {
                success,
                body: body@,
            },
            ProbeOutcome::Unreachable => ProbeOutcomeView::Unreachable,
            ProbeOutcome::TimedOut => ProbeOutcomeView::TimedOut,
        }
    }
}

impl ProbeOutcomeView {
    /// The body of the answer where the service answered with a status of
    /// success; else the kind of failure. A status of failure counts as a
    /// service that could not be reached.
    pub open spec fn answer(self) -> Result<Seq<u8>, OfficeErrorView> {
        match self {
            ProbeOutcomeView::Answered { success: true, body } => Ok(body),
            ProbeOutcomeView::Answered { success: false, .. } => Err(
                OfficeErrorView::ProbeUnreachable,
            ),
            ProbeOutcomeView::Unreachable => Err(OfficeErrorView::ProbeUnreachable),
            ProbeOutcomeView::TimedOut => Err(OfficeErrorView::ProbeTimeout),
        }
    }
}

impl ProbeOutcome {
    /// The body of the answer where the service answered with a status of
    /// success; else the kind of failure.
    pub fn answer(&self) -> (answer: Result<&Vec<u8>, OfficeError>)
        ensures
            match (answer, self@.answer()) {
                (Ok(body), Ok(wanted)) => body@ == wanted,
                (Err(error), Err(wanted)) => error@ == wanted,
                _ => false,
            },
    {
        match self {
            ProbeOutcome::Answered { success, body } => {
                if *success {
                    Ok(body)
                } else {
                    Err(OfficeError::ProbeUnreachable)
                }
            },
            ProbeOutcome::Unreachable => Err(OfficeError::ProbeUnreachable),
            ProbeOutcome::TimedOut => Err(OfficeError::ProbeTimeout),
        }
    }
}

/// A check that passed, with severity `Info`.
pub open spec fn passed_check(message: Seq<char>) -> CheckResultView {
    CheckResultView { passed: true, message, severity: Severity::Info }
}

/// A check that failed, with the given severity.
pub open spec fn failed_check(message: Seq<char>, severity: Severity) -> CheckResultView {
    CheckResultView { passed: false, message, severity }
}

/// Hundredths of a gigabyte in `bytes`, rounded to the nearest; a figure
/// that lies halfway between two is rounded to the even one.
pub open spec fn hundredths_of_gigabyte(bytes: u64) -> nat {
    let whole = (bytes * 100) / (GIGABYTE as int);
    let rest = (bytes * 100) % (GIGABYTE as int);
    if rest > GIGABYTE / 2 || (rest == GIGABYTE / 2 && whole % 2 == 1) {
        (whole + 1) as nat
    } else {
        whole as nat
    }
}

/// The check of a figure against a minimum: it passes where `bytes` are at
/// least `min_gb` gigabytes, and fails with severity `Error` otherwise. The
/// message gives both, after `label`, in gigabytes with two decimals.
pub open spec fn minimum_check(label: Seq<char>, bytes: u64, min_gb: u64) -> CheckResultView {
    let enough = bytes >= min_gb * GIGABYTE;
    CheckResultView {
        passed: enough,
        message: label + two_decimals(hundredths_of_gigabyte(bytes)) + " GB (required: "@
            + decimal(min_gb as nat) + ".00 GB)"@,
        severity: if enough {
            Severity::Info
        } else {
            Severity::Error
        },
    }
}

/// The check of a figure against a minimum.
fn check_minimum(label: &str, bytes: u64, min_gb: u64) -> (check: CheckResult)
    ensures
        check@ == minimum_check(label@, bytes, min_gb),
{
    let enough = (bytes as u128) >= (min_gb as u128) * (GIGABYTE as u128);
    let scaled = (bytes as u128) * 100;
    let whole = scaled / (GIGABYTE as u128);
    let rest = scaled % (GIGABYTE as u128);
    let half = (GIGABYTE as u128) / 2;
    let hundredths = if rest > half || (rest == half && whole % 2 == 1) {
        whole + 1
    } else {
        whole
    };
    let mut message = label.to_owned();
    message.append(two_decimals_text(hundredths as u64).as_str());
    message.append(" GB (required: ");
    message.append(decimal_text(min_gb).as_str());
    message.append(".00 GB)");
    CheckResult {
        passed: enough,
        message,
        severity: if enough {
            Severity::Info
        } else {
            Severity::Error
        },
    }
}

/// The memory check: it passes where at least `min_free_gb` gigabytes are
/// available.
pub open spec fn ram_check(available_bytes: u64, min_free_gb: u64) -> CheckResultView {
    minimum_check("Available RAM: "@, available_bytes, min_free_gb)
}

/// The memory check on the given figure: it passes where at least
/// `min_free_gb` gigabytes are available.
pub fn check_ram_with(available_bytes: u64, min_free_gb: u64) -> (check: CheckResult)
    ensures
        check@ == ram_check(available_bytes, min_free_gb),
{
    check_minimum("Available RAM: ", available_bytes, min_free_gb)
}

/// The memory check on this machine: reads the memory that is available
/// now and checks it against `min_free_gb` gigabytes.
pub fn check_ram(min_free_gb: u64) -> (check: CheckResult)
    ensures
        exists|available_bytes: u64| check@ == #[trigger] ram_check(available_bytes, min_free_gb),
{
    let available_bytes = read_available_memory();
    let check = check_ram_with(available_bytes, min_free_gb);
    assert(check@ == ram_check(available_bytes, min_free_gb));
    check
}

/// The disk check: it passes where at least `min_free_gb` gigabytes are
/// free.
pub open spec fn disk_check(free_bytes: u64, min_free_gb: u64) -> CheckResultView {
    minimum_check("Free disk space: "@, free_bytes, min_free_gb)
}

/// The disk check on the given figure: it passes where at least
/// `min_free_gb` gigabytes are free.
pub fn check_disk_with(free_bytes: u64, min_free_gb: u64) -> (check: CheckResult)
    ensures
        check@ == disk_check(free_bytes, min_free_gb),
{
    check_minimum("Free disk space: ", free_bytes, min_free_gb)
}

/// The disk check on this machine: reads the space that is free now and
/// checks it against `min_free_gb` gigabytes. The disk that is measured is
/// the one with the most space free among those that the machine lists; a
/// machine that lists no disk has no space free.
pub fn check_disk(min_free_gb: u64) -> (check: CheckResult)
    ensures
        exists|free_bytes: u64| check@ == #[trigger] disk_check(free_bytes, min_free_gb),
{
    let free_bytes = read_free_disk_space();
    let check = check_disk_with(free_bytes, min_free_gb);
    assert(check@ == disk_check(free_bytes, min_free_gb));
    check
}

/// The check that the model runtime is reachable: it passes where the
/// runtime answered with a status of success, and fails with severity
/// `Error` otherwise.
pub open spec fn ollama_check(outcome: ProbeOutcomeView) -> CheckResultView {
    if outcome.answer() is Ok {
        passed_check("Ollama service is running"@)
    } else {
        failed_check("Ollama service not reachable at http://127.0.0.1:11434"@, Severity::Error)
    }
}

/// The check that the model runtime is reachable.
pub fn check_ollama(outcome: &ProbeOutcome) -> (check: CheckResult)
    ensures
        check@ == ollama_check(outcome@),
{
    if outcome.answer().is_ok() {
        CheckResult {
            passed: true,
            message: "Ollama service is running".to_string(),
            severity: Severity::Info,
        }
    } else {
        CheckResult {
            passed: false,
            message: "Ollama service not reachable at http://127.0.0.1:11434".to_string(),
            severity: Severity::Error,
        }
    }
}

/// The check that the backend is reachable: it passes where the backend
/// answered with a status of success, and fails otherwise, with severity
/// `Warning` only, since the application can work without the backend.
pub open spec fn backend_check(outcome: ProbeOutcomeView, base_url: Seq<char>) -> CheckResultView {
    if outcome.answer() is Ok {
        passed_check("Backend services are running"@)
    } else {
        failed_check("Backend services not reachable at "@ + base_url, Severity::Warning)
    }
}

/// The check that the backend at `base_url` is reachable.
pub fn check_backend_services(outcome: &ProbeOutcome, base_url: &str) -> (check: CheckResult)
    ensures
        check@ == backend_check(outcome@, base_url@),
{
    if outcome.answer().is_ok() {
        CheckResult {
            passed: true,
            message: "Backend services are running".to_string(),
            severity: Severity::Info,
        }
    } else {
        let mut message = "Backend services not reachable at ".to_string();
        message.append(base_url);
        CheckResult { passed: false, message, severity: Severity::Warning }
    }
}

/// The member `key` of a JSON object; nothing where the value is no object
/// or has no such member.
pub open spec fn member_of(value: JsonModel, key: Seq<char>) -> Option<JsonModel> {
    match value {
        JsonModel::Object(members) => if members.contains_key(key) {
            Some(members[key])
        } else {
            None
        },
        _ => None,
    }
}

/// The name that an entry of the runtime's list gives its model: the member
/// `name`, where the entry has one and it is a text.
pub open spec fn name_of(entry: JsonModel) -> Option<Seq<char>> {
    match member_of(entry, "name"@) {
        Some(JsonModel::Text(name)) => Some(name),
        _ => None,
    }
}

/// The names of the models that the runtime's answer lists: those of the
/// entries of its member `models`, where that is a list; none otherwise.
/// Entries without a name are passed over.
pub open spec fn model_names(document: JsonModel) -> Seq<Seq<char>> {
    match member_of(document, "models"@) {
        Some(JsonModel::List(entries)) => entries.filter_map(|entry: JsonModel| name_of(entry)),
        _ => Seq::empty(),
    }
}

/// Whether one of `installed` holds `required` as a part of its name.
pub open spec fn is_installed(installed: Seq<Seq<char>>, required: Seq<char>) -> bool {
    exists|i: int| 0 <= i < installed.len() && is_substring(required, #[trigger] installed[i])
}

/// Those of `required` that none of `installed` holds as a part of its
/// name, in the order of `required`.
pub open spec fn missing_models(installed: Seq<Seq<char>>, required: Seq<Seq<char>>) -> Seq<
    Seq<char>,
> {
    required.filter(|model: Seq<char>| !is_installed(installed, model))
}

/// The list written as Rust's `Debug` writes a vector of strings.
pub uninterp spec fn debug_list(items: Seq<Seq<char>>) -> Seq<char>;

/// `format!("{:?}", ..)` of a vector of strings: the list as `Debug` of the
/// standard library writes it, which depends on the strings alone.
#[verifier::external_body]
pub(crate) fn format_list(items: &Vec<String>) -> (text: String)
    ensures
        text@ == debug_list(string_views(items@)),
{
    format!("{:?}", items)
}

/// The result of the models check, given whether a required model is
/// missing and the written list of the models that the message names: it
/// passes where none is missing, and fails with severity `Error` otherwise.
pub open spec fn models_verdict(any_missing: bool, listed: Seq<char>) -> CheckResultView {
    if any_missing {
        failed_check("Missing models: "@ + listed, Severity::Error)
    } else {
        passed_check("All required models present: "@ + listed)
    }
}

/// The result of the models check, given whether a required model is
/// missing and the written list of the models that the message names.
pub fn models_result(any_missing: bool, listed: &str) -> (check: CheckResult)
    ensures
        check@ == models_verdict(any_missing, listed@),
{
    if any_missing {
        let mut message = "Missing models: ".to_string();
        message.append(listed);
        CheckResult { passed: false, message, severity: Severity::Error }
    } else {
        let mut message = "All required models present: ".to_string();
        message.append(listed);
        CheckResult { passed: true, message, severity: Severity::Info }
    }
}

/// The check that the required models are installed, given the names of
/// the installed ones: it passes where each required model is part of the
/// name of an installed one and lists the required models, and otherwise
/// fails and lists those that are not.
pub open spec fn models_check(installed: Seq<Seq<char>>, required: Seq<Seq<char>>)
    -> CheckResultView {
    let missing = missing_models(installed, required);
    if missing.len() == 0 {
        models_verdict(false, debug_list(required))
    } else {
        models_verdict(true, debug_list(missing))
    }
}

/// The names of the models that the runtime lists, given what it answered;
/// or the kind of failure: that of the request, or a parse failure where
/// the answer is no JSON document.
pub open spec fn models_listing(outcome: ProbeOutcomeView) -> Result<
    Seq<Seq<char>>,
    OfficeErrorView,
> {
    match outcome.answer() {
        Ok(body) => match json_document(body) {
            Some(document) => Ok(model_names(document)),
            None => Err(OfficeErrorView::ProbeParseFailure),
        },
        Err(error) => Err(error),
    }
}

/// The check that the required models are installed, given what the model
/// runtime answered. Each failure of the probe becomes a failed check: an
/// answer that could not be parsed in its own words, apart from a runtime
/// that did not answer.
pub open spec fn models_probe_check(outcome: ProbeOutcomeView, required: Seq<Seq<char>>)
    -> CheckResultView {
    match models_listing(outcome) {
        Ok(installed) => models_check(installed, required),
        Err(OfficeErrorView::ProbeParseFailure) => failed_check(
            "Failed to parse Ollama models list"@,
            Severity::Error,
        ),
        Err(_) => failed_check("Cannot check models - Ollama not running"@, Severity::Error),
    }
}

/// Whether one of `installed` holds `required` as a part of its name.
fn installed_has(installed: &Vec<String>, required: &str) -> (found: bool)
    ensures
        found == is_installed(string_views(installed@), required@),
{
    let mut i: usize = 0;
    while i < installed.len()
        invariant
            i <= installed.len(),
            forall|j: int|
                0 <= j < i ==> !is_substring(required@, #[trigger] string_views(installed@)[j]),
        decreases installed.len() - i,
    {
        if contains_text(installed[i].as_str(), required) {
            assert(is_substring(required@, string_views(installed@)[i as int]));
            return true;
        }
        i += 1;
    }
    false
}

/// The check that the required models are installed, given the names of
/// the installed ones.
pub fn check_models_with(installed: &Vec<String>, required_models: &Vec<String>) -> (check:
    CheckResult)
    ensures
        check@ == models_check(string_views(installed@), string_views(required_models@)),
{
    let ghost names = string_views(installed@);
    let ghost wanted = string_views(required_models@);
    let ghost absent = |model: Seq<char>| !is_installed(names, model);
    let mut missing: Vec<String> = Vec::new();
    let mut i: usize = 0;
    proof {
        reveal(Seq::filter);
        assert(wanted.subrange(0, 0) =~= Seq::empty());
        assert(string_views(missing@) =~= Seq::empty());
    }
    while i < required_models.len()
        invariant
            i <= required_models.len(),
            names == string_views(installed@),
            wanted == string_views(required_models@),
            absent == |model: Seq<char>| !is_installed(names, model),
            string_views(missing@) == wanted.subrange(0, i as int).filter(absent),
        decreases required_models.len() - i,
    {
        proof {
            let seen = wanted.subrange(0, i as int);
            assert(wanted.subrange(0, i + 1) =~= seen.push(wanted[i as int]));
            seen.lemma_filter_push(wanted[i as int], absent);
        }
        if !installed_has(installed, required_models[i].as_str()) {
            let ghost before = missing@;
            let model = required_models[i].clone();
            missing.push(model);
            proof {
                assert(string_views(before.push(model)) =~= string_views(before).push(model@));
            }
        }
        i += 1;
    }
    assert(wanted.subrange(0, wanted.len() as int) =~= wanted);
    if missing.len() == 0 {
        models_result(false, format_list(required_models).as_str())
    } else {
        models_result(true, format_list(&missing).as_str())
    }
}

/// The names of the models that the runtime's answer lists.
pub fn installed_models(document: &serde_json::Value) -> (names: Vec<String>)
    ensures
        string_views(names@) == model_names(json_model(*document)),
{
    let mut names: Vec<String> = Vec::new();
    assert(string_views(names@) =~= Seq::empty());
    let listed = match member(document, "models") {
        Some(listed) => listed,
        None => {
            return names;
        },
    };
    let entries = match listed.as_array() {
        Some(entries) => entries,
        None => {
            return names;
        },
    };
    let ghost models = json_models(entries@);
    let ghost pick = |entry: JsonModel| name_of(entry);
    let mut i: usize = 0;
    assert(models.take(0) =~= Seq::empty());
    while i < entries.len()
        invariant
            i <= entries.len(),
            models == json_models(entries@),
            pick == |entry: JsonModel| name_of(entry),
            string_views(names@) == models.take(i as int).filter_map(pick),
        decreases entries.len() - i,
    {
        proof {
            models.lemma_filter_map_take_succ(pick, i as int);
        }
        let ghost before = names@;
        match member(&entries[i], "name") {
            Some(value) => {
                match value.as_str() {
                    Some(name) => {
                        let owned = name.to_owned();
                        names.push(owned);
                        proof {
                            assert(string_views(before.push(owned)) =~= string_views(before).push(
                                owned@,
                            ));
                            assert(name_of(models[i as int]) == Some(name@));
                        }
                    },
                    None => {
                        assert(name_of(models[i as int]) is None);
                    },
                }
            },
            None => {
                assert(name_of(models[i as int]) is None);
            },
        }
        i += 1;
    }
    assert(models.take(models.len() as int) =~= models);
    names
}

/// The names of the models that the runtime lists, given what it
/// answered; or the kind of failure.
pub fn list_models(outcome: &ProbeOutcome) -> (listing: Result<Vec<String>, OfficeError>)
    ensures
        match (listing, models_listing(outcome@)) {
            (Ok(names), Ok(wanted)) => string_views(names@) == wanted,
            (Err(error), Err(wanted)) => error@ == wanted,
            _ => false,
        },
{
    match outcome.answer() {
        Ok(body) => match parse_document(body.as_slice()) {
            Ok(document) => Ok(installed_models(&document)),
            Err(_) => Err(OfficeError::ProbeParseFailure),
        },
        Err(error) => Err(error),
    }
}

/// The check that the required models are installed, given what the model
/// runtime answered.
pub fn check_models(outcome: &ProbeOutcome, required_models: &Vec<String>) -> (check: CheckResult)
    ensures
        check@ == models_probe_check(outcome@, string_views(required_models@)),
{
    match list_models(outcome) {
        Ok(installed) => check_models_with(&installed, required_models),
        Err(OfficeError::ProbeParseFailure) => CheckResult {
            passed: false,
            message: "Failed to parse Ollama models list".to_string(),
            severity: Severity::Error,
        },
        Err(_) => CheckResult {
            passed: false,
            message: "Cannot check models - Ollama not running".to_string(),
            severity: Severity::Error,
        },
    }
}

} // verus!
