//! Rule-based validation of a proposed state transition.
//!
//! A validator holds rules, keyed by name and kept in the order in which they
//! run, and custom validators. Validating a transition runs the rules, then
//! the custom validators, and gives one result for each; the transition is
//! permitted unless a result of critical severity failed.

use vstd::prelude::*;
use std::collections::HashMap;
use crate::capture_error::{
    CaptureError, CaptureErrorKind, CaptureErrorView, ConfigErrorKind, empty_context, text_of,
};
use crate::state_machine::{
    advanced, bump, fold_average, folded_average, lemma_advanced_step,
};
use crate::time::{
    Duration, Stamped, Timestamp, lemma_retained_through, retain_fresh, retained, stamp_of,
    NANOS_PER_MILLI, NANOS_PER_SEC,
};

verus! {

/// Severity levels for validation rules.
#[derive(Clone, Copy, Debug, PartialEq, Eq, Structural)]
pub enum ValidationSeverity {
    /// Must pass or the transition is refused.
    Critical,
    /// Recorded as a warning; the transition goes on.
    Warning,
    /// Recorded for information only.
    Info,
}

/// The check that a rule makes of a transition from `current` to `proposed`:
/// `Ok(true)` where the rule is met, `Ok(false)` where it is not, an error
/// where the check itself could not be made. It is meant to be pure: the same
/// states should get the same answer.
pub trait ValidatorFn<S>: Send + Sync {
    fn check(&self, current: &S, proposed: &S) -> Result<bool, CaptureError>;
}

/// What a `ValidationRule` holds, as plain values, but for the check itself.
pub struct RuleView {
    pub name: Seq<char>,
    pub description: Seq<char>,
    pub severity: ValidationSeverity,
    pub priority: u32,
    pub dependencies: Seq<Seq<char>>,
    pub metadata: Map<String, String>,
}

/// The characters of each string of a list.
pub open spec fn texts_of(strings: Seq<String>) -> Seq<Seq<char>> {
    strings.map_values(|s: String| s@)
}

/// A validation rule for state transitions. Rules run in ascending order of
/// `priority`; rules of equal priority run in the order in which they were
/// added.
#[verifier::reject_recursive_types(S)]
pub struct ValidationRule<S> {
    pub name: String,
    pub description: String,
    pub severity: ValidationSeverity,
    pub validator: Box<dyn ValidatorFn<S>>,
    pub metadata: HashMap<String, String>,
    pub priority: u32,
    pub dependencies: Vec<String>,
}

impl<S> View for ValidationRule<S> {
    type V = RuleView;

    open spec fn view(&self) -> RuleView {
        RuleView {
            name: self.name@,
            description: self.description@,
            severity: self.severity,
            priority: self.priority,
            dependencies: texts_of(self.dependencies@),
            metadata: self.metadata@,
        }
    }
}

impl<S> ValidationRule<S> {
    /// The name of the rule.
    pub fn name(&self) -> (n: &str)
        ensures
            n@ == self@.name,
    {
        self.name.as_str()
    }

    /// The priority of the rule.
    pub fn priority(&self) -> (p: u32)
        ensures
            p == self@.priority,
    {
        self.priority
    }

    /// Whether this rule depends on the rule named `rule_name`.
    pub fn has_dependency(&self, rule_name: &str) -> (found: bool)
        ensures
            found == self@.dependencies.contains(rule_name@),
    {
        let wanted = rule_name.to_owned();
        let mut i: usize = 0;
        while i < self.dependencies.len()
            invariant
                i <= self.dependencies.len(),
                wanted@ == rule_name@,
                forall|j: int| 0 <= j < i ==> texts_of(self.dependencies@)[j] != rule_name@,
            decreases self.dependencies.len() - i,
        {
            if self.dependencies[i] == wanted {
                assert(texts_of(self.dependencies@)[i as int] == rule_name@);
                return true;
            }
            i = i + 1;
        }
        false
    }
}

/// What a `ValidationResult` holds, as plain values.
pub struct ResultView {
    pub rule_name: Seq<char>,
    pub passed: bool,
    pub severity: ValidationSeverity,
    pub message: Option<Seq<char>>,
    pub timestamp: Timestamp,
    pub metadata: Map<String, String>,
}

impl ResultView {
    /// Whether this result blocks the transition: a failure of critical
    /// severity.
    pub open spec fn blocks(self) -> bool {
        !self.passed && self.severity == ValidationSeverity::Critical
    }
}

/// Result of one validation check.
#[derive(Clone, Debug)]
pub struct ValidationResult {
    rule_name: String,
    passed: bool,
    severity: ValidationSeverity,
    message: Option<String>,
    timestamp: Timestamp,
    metadata: HashMap<String, String>,
}

impl View for ValidationResult {
    type V = ResultView;

    closed spec fn view(&self) -> ResultView {
        ResultView {
            rule_name: self.rule_name@,
            passed: self.passed,
            severity: self.severity,
            message: text_of(self.message),
            timestamp: self.timestamp,
            metadata: self.metadata@,
        }
    }
}

impl ValidationResult {
    /// A result made now, without metadata.
    pub fn new(
        rule_name: String,
        passed: bool,
        severity: ValidationSeverity,
        message: Option<String>,
    ) -> (r: ValidationResult)
        ensures
            r@.rule_name == rule_name@,
            r@.passed == passed,
            r@.severity == severity,
            r@.message == text_of(message),
            r@.metadata == Map::<String, String>::empty(),
    {
        ValidationResult {
            rule_name,
            passed,
            severity,
            message,
            timestamp: Timestamp::now(),
            metadata: HashMap::new(),
        }
    }

    /// A result made at `timestamp`, without metadata.
    pub fn at(
        rule_name: String,
        passed: bool,
        severity: ValidationSeverity,
        message: Option<String>,
        timestamp: Timestamp,
    ) -> (r: ValidationResult)
        ensures
            r@ == (ResultView {
                rule_name: rule_name@,
                passed,
                severity,
                message: text_of(message),
                timestamp,
                metadata: Map::<String, String>::empty(),
            }),
    {
        ValidationResult {
            rule_name,
            passed,
            severity,
            message,
            timestamp,
            metadata: HashMap::new(),
        }
    }

    /// The name of the rule that gave this result.
    pub fn rule_name(&self) -> (n: &str)
        ensures
            n@ == self@.rule_name,
    {
        self.rule_name.as_str()
    }

    /// Whether the rule was met.
    pub fn passed(&self) -> (p: bool)
        ensures
            p == self@.passed,
    {
        self.passed
    }

    /// The severity of the rule.
    pub fn severity(&self) -> (s: ValidationSeverity)
        ensures
            s == self@.severity,
    {
        self.severity
    }

    /// What was said of the result, if anything.
    pub fn message(&self) -> (m: Option<&String>)
        ensures
            m.is_some() == self@.message.is_some(),
            m.is_some() ==> m.unwrap()@ == self@.message.unwrap(),
    {
        self.message.as_ref()
    }

    /// When the result was made.
    pub fn timestamp(&self) -> (t: Timestamp)
        ensures
            t == self@.timestamp,
    {
        self.timestamp
    }

    /// Whether this result blocks the transition.
    pub fn blocks(&self) -> (b: bool)
        ensures
            b == self@.blocks(),
    {
        !self.passed && self.severity == ValidationSeverity::Critical
    }

    /// A copy of this result.
    pub fn duplicate(&self) -> (r: ValidationResult)
        ensures
            r@ == self@,
    {
        let message = match &self.message {
            Some(m) => Some(m.clone()),
            None => None,
        };
        ValidationResult {
            rule_name: self.rule_name.clone(),
            passed: self.passed,
            severity: self.severity,
            message,
            timestamp: self.timestamp,
            metadata: self.metadata.clone(),
        }
    }
}

/// Whether no result of the list blocks the transition.
pub open spec fn permits(results: Seq<ResultView>) -> bool {
    forall|i: int| 0 <= i < results.len() ==> !(#[trigger] results[i]).blocks()
}

/// The results of a list, as plain values.
pub open spec fn results_view(results: Seq<ValidationResult>) -> Seq<ResultView> {
    results.map_values(|r: ValidationResult| r@)
}

/// The aggregate outcome of a validation: the transition is permitted only
/// if no result of critical severity failed. Failures of other severities do
/// not block.
pub fn transition_permitted(results: &Vec<ValidationResult>) -> (ok: bool)
    ensures
        ok == permits(results_view(results@)),
{
    let mut i: usize = 0;
    while i < results.len()
        invariant
            i <= results.len(),
            forall|j: int| 0 <= j < i ==> !(#[trigger] results_view(results@)[j]).blocks(),
        decreases results.len() - i,
    {
        if results[i].blocks() {
            assert(results_view(results@)[i as int].blocks());
            return false;
        }
        i = i + 1;
    }
    true
}

/// What a `ValidationStats` holds, as plain values.
pub struct StatsView {
    pub total_validations: u64,
    pub failed_validations: u64,
    pub average_validation_time: u64,
}

impl StatsView {
    /// Counters that have seen nothing.
    pub open spec fn zero() -> StatsView {
        StatsView { total_validations: 0, failed_validations: 0, average_validation_time: 0 }
    }

    /// The counters after one more check that took `duration_ns`.
    pub open spec fn recorded(self, passed: bool, duration_ns: u64) -> StatsView {
        StatsView {
            total_validations: bump(self.total_validations),
            failed_validations: if passed {
                self.failed_validations
            } else {
                bump(self.failed_validations)
            },
            average_validation_time: folded_average(
                self.average_validation_time,
                duration_ns,
                self.total_validations,
            ),
        }
    }
}

/// Statistics for state validation.
#[derive(Clone, Copy, Debug)]
pub struct ValidationStats {
    total_validations: u64,
    failed_validations: u64,
    average_validation_time: u64,
}

impl View for ValidationStats {
    type V = StatsView;

    closed spec fn view(&self) -> StatsView {
        StatsView {
            total_validations: self.total_validations,
            failed_validations: self.failed_validations,
            average_validation_time: self.average_validation_time,
        }
    }
}

impl ValidationStats {
    /// Counters that have seen nothing.
    pub fn new() -> (s: ValidationStats)
        ensures
            s@ == StatsView::zero(),
    {
        ValidationStats { total_validations: 0, failed_validations: 0, average_validation_time: 0 }
    }

    /// Counts one check, as failed where it did not pass, and folds its
    /// duration into the average.
    pub fn record_validation(&mut self, passed: bool, duration_ns: u64)
        ensures
            final(self)@ == old(self)@.recorded(passed, duration_ns),
    {
        let seen = self.total_validations;
        self.total_validations = seen.wrapping_add(1);
        if !passed {
            self.failed_validations = self.failed_validations.wrapping_add(1);
        }
        self.average_validation_time = fold_average(
            self.average_validation_time,
            duration_ns,
            seen,
        );
    }

    /// The number of checks made.
    pub fn total_validations(&self) -> (n: u64)
        ensures
            n == self@.total_validations,
    {
        self.total_validations
    }

    /// The number of checks that failed.
    pub fn failed_validations(&self) -> (n: u64)
        ensures
            n == self@.failed_validations,
    {
        self.failed_validations
    }

    /// The running average of the time a check took, in nanoseconds.
    pub fn average_validation_time(&self) -> (n: u64)
        ensures
            n == self@.average_validation_time,
    {
        self.average_validation_time
    }

    /// The number of checks that passed, which is the total less the failed
    /// ones, or zero where the counters have wrapped past each other.
    pub fn passed_validations(&self) -> (n: u64)
        ensures
            n == if self@.failed_validations <= self@.total_validations {
                (self@.total_validations - self@.failed_validations) as u64
            } else {
                0
            },
    {
        self.total_validations.saturating_sub(self.failed_validations)
    }
}

impl Default for ValidationStats {
    fn default() -> (s: ValidationStats)
        ensures
            s@ == StatsView::zero(),
    {
        ValidationStats::new()
    }
}

/// Configuration for state validation.
#[derive(Clone, Copy, Debug, PartialEq, Eq, Structural)]
pub struct ValidatorConfig {
    pub enabled: bool,
    pub fail_fast: bool,
    pub validation_timeout: Duration,
    pub max_retries: u32,
    pub retry_delay: Duration,
    pub max_parallel_validations: usize,
    pub validation_cache_size: usize,
    pub history_max_size: usize,
    pub history_retention_period: Duration,
}

/// The history bound of a configuration that was not given one.
pub const DEFAULT_HISTORY_MAX_SIZE: usize = 1000;

impl ValidatorConfig {
    /// A configuration with the given `enabled` flag and the defaults for the
    /// rest.
    pub fn new(enabled: bool) -> (c: ValidatorConfig)
        ensures
            c.enabled == enabled,
            !c.fail_fast,
            c.validation_timeout@ == 5 * NANOS_PER_SEC,
            c.max_retries == 3,
            c.retry_delay@ == 100 * NANOS_PER_MILLI,
            c.max_parallel_validations == 4,
            c.validation_cache_size == 1000,
            c.history_max_size == DEFAULT_HISTORY_MAX_SIZE,
            c.history_retention_period@ == 3600 * NANOS_PER_SEC,
    {
        ValidatorConfig {
            enabled,
            fail_fast: false,
            validation_timeout: Duration::from_secs(5),
            max_retries: 3,
            retry_delay: Duration::from_millis(100),
            max_parallel_validations: 4,
            validation_cache_size: 1000,
            history_max_size: DEFAULT_HISTORY_MAX_SIZE,
            history_retention_period: Duration::from_secs(3600),
        }
    }

    /// The window within which results are kept when the history is pruned.
    pub fn get_retention_duration(&self) -> (d: Duration)
        ensures
            d == self.history_retention_period,
    {
        self.history_retention_period
    }

    /// The same configuration with another timeout for one check.
    pub fn with_timeout(self, timeout: Duration) -> (c: ValidatorConfig)
        ensures
            c == (ValidatorConfig { validation_timeout: timeout, ..self }),
    {
        let mut c = self;
        c.validation_timeout = timeout;
        c
    }

    /// The same configuration, stopping or not at the first critical failure.
    pub fn with_fail_fast(self, fail_fast: bool) -> (c: ValidatorConfig)
        ensures
            c == (ValidatorConfig { fail_fast, ..self }),
    {
        let mut c = self;
        c.fail_fast = fail_fast;
        c
    }

    /// The same configuration with another bound on the history.
    pub fn with_history_max_size(self, size: usize) -> (c: ValidatorConfig)
        ensures
            c == (ValidatorConfig { history_max_size: size, ..self }),
    {
        let mut c = self;
        c.history_max_size = size;
        c
    }

    /// The same configuration with another retention window.
    pub fn with_retention_period(self, period: Duration) -> (c: ValidatorConfig)
        ensures
            c == (ValidatorConfig { history_retention_period: period, ..self }),
    {
        let mut c = self;
        c.history_retention_period = period;
        c
    }
}

impl Default for ValidatorConfig {
    /// Validation enabled, with the defaults of `new`.
    fn default() -> (c: ValidatorConfig)
        ensures
            c.enabled,
            !c.fail_fast,
            c.history_max_size == DEFAULT_HISTORY_MAX_SIZE,
    {
        ValidatorConfig::new(true)
    }
}

/// A pluggable validator for rules that the rule table cannot express.
pub trait CustomValidator<S>: Send + Sync {
    /// Judges the transition from `current` to `proposed`.
    fn validate(&self, current: &S, proposed: &S) -> Result<ValidationResult, CaptureError>;

    /// The name under which failures of this validator are recorded.
    fn get_name(&self) -> &str;

    /// The severity under which failures of this validator are recorded.
    fn get_severity(&self) -> ValidationSeverity;
}

/// A checker of invariants of single states.
pub trait InvariantChecker<S> {
    /// Checks the invariants of `state`.
    fn check_invariants(&self, state: &S) -> Result<Vec<ValidationResult>, CaptureError>;

    /// The rules that state the invariants.
    fn get_invariant_rules(&self) -> Vec<ValidationRule<S>>;
}

/// The rules of a list, as plain values.
pub open spec fn rules_view<S>(rules: Seq<ValidationRule<S>>) -> Seq<RuleView> {
    rules.map_values(|r: ValidationRule<S>| r@)
}

/// Whether some rule of the list has the name.
pub open spec fn has_named(rules: Seq<RuleView>, name: Seq<char>) -> bool {
    exists|i: int| 0 <= i < rules.len() && (#[trigger] rules[i]).name == name
}

/// Whether `i` is the place of the first rule with the name.
pub open spec fn is_first_named(rules: Seq<RuleView>, name: Seq<char>, i: int) -> bool {
    &&& 0 <= i < rules.len()
    &&& rules[i].name == name
    &&& forall|j: int| 0 <= j < i ==> (#[trigger] rules[j]).name != name
}

/// The list without the first rule of the given name.
pub open spec fn without(rules: Seq<RuleView>, name: Seq<char>) -> Seq<RuleView> {
    if has_named(rules, name) {
        rules.remove(choose|i: int| is_first_named(rules, name, i))
    } else {
        rules
    }
}

/// Whether `k` is the place where a rule of priority `priority` goes: behind
/// every rule whose priority is not greater, and before the first whose
/// priority is greater.
pub open spec fn is_slot(rules: Seq<RuleView>, priority: u32, k: int) -> bool {
    &&& 0 <= k <= rules.len()
    &&& forall|j: int| 0 <= j < k ==> (#[trigger] rules[j]).priority <= priority
    &&& k < rules.len() ==> rules[k].priority > priority
}

/// The list with `rule` put in its place.
pub open spec fn placed(rules: Seq<RuleView>, rule: RuleView) -> Seq<RuleView> {
    rules.insert(choose|k: int| is_slot(rules, rule.priority, k), rule)
}

/// Whether the rules stand in the order in which they run: by ascending
/// priority.
pub open spec fn in_order(rules: Seq<RuleView>) -> bool {
    forall|i: int, j: int|
        0 <= i <= j < rules.len() ==> (#[trigger] rules[i]).priority <= (#[trigger] rules[j]).priority
}

/// Whether no two rules share a name.
pub open spec fn names_unique(rules: Seq<RuleView>) -> bool {
    forall|i: int, j: int|
        0 <= i < j < rules.len() ==> (#[trigger] rules[i]).name != (#[trigger] rules[j]).name
}

/// Whether a rule named `dep` has passed among the results.
pub open spec fn dependency_met(earlier: Seq<ResultView>, dep: Seq<char>) -> bool {
    exists|j: int| 0 <= j < earlier.len() && (#[trigger] earlier[j]).rule_name == dep && earlier[j].passed
}

/// Whether `d` is the place, in the rule's list of dependencies, of the first
/// one that has not passed among the results.
pub open spec fn is_first_unmet(rule: RuleView, earlier: Seq<ResultView>, d: int) -> bool {
    &&& 0 <= d < rule.dependencies.len()
    &&& !dependency_met(earlier, rule.dependencies[d])
    &&& forall|e: int| 0 <= e < d ==> dependency_met(earlier, #[trigger] rule.dependencies[e])
}

/// Whether every dependency of the rule has passed among the results.
pub open spec fn dependencies_met(rule: RuleView, earlier: Seq<ResultView>) -> bool {
    forall|d: int|
        0 <= d < rule.dependencies.len() ==> dependency_met(earlier, #[trigger] rule.dependencies[d])
}

/// What is said of a rule that was skipped for the dependency `dep`.
pub open spec fn unmet_message(dep: Seq<char>) -> Seq<char> {
    "Dependency not satisfied: "@ + dep
}

/// What is said of a check that took longer than the timeout.
pub open spec fn timeout_message() -> Seq<char> {
    "Validation timed out"@
}

/// What is said of a rule that was not met.
pub open spec fn failure_message() -> Seq<char> {
    "Validation rule failed"@
}

/// The result for a rule that was skipped because its dependency `dep` has
/// not passed.
pub open spec fn skipped(rule: RuleView, dep: Seq<char>, at: Timestamp) -> ResultView {
    ResultView {
        rule_name: rule.name,
        passed: false,
        severity: rule.severity,
        message: Some(unmet_message(dep)),
        timestamp: at,
        metadata: Map::empty(),
    }
}

/// The result for a rule whose check answered `outcome` after `elapsed`: a
/// check that took longer than `timeout` has failed, whatever it answered;
/// within the timeout the rule has passed where the check says so, and has
/// failed where it says otherwise or could not be made.
pub open spec fn verdict(
    name: Seq<char>,
    severity: ValidationSeverity,
    outcome: Result<bool, CaptureError>,
    elapsed: Duration,
    timeout: Duration,
    at: Timestamp,
) -> ResultView {
    ResultView {
        rule_name: name,
        passed: elapsed@ <= timeout@ && outcome == Ok::<bool, CaptureError>(true),
        severity,
        message: if elapsed@ > timeout@ {
            Some(timeout_message())
        } else {
            match outcome {
                Ok(true) => None,
                Ok(false) => Some(failure_message()),
                Err(e) => Some(e@.message),
            }
        },
        timestamp: at,
        metadata: Map::empty(),
    }
}

/// Makes the result for a rule whose check answered `outcome` after
/// `elapsed`.
pub fn rule_verdict(
    name: &str,
    severity: ValidationSeverity,
    outcome: Result<bool, CaptureError>,
    elapsed: Duration,
    timeout: Duration,
    at: Timestamp,
) -> (r: ValidationResult)
    ensures
        r@ == verdict(name@, severity, outcome, elapsed, timeout, at),
{
    if elapsed.as_nanos() > timeout.as_nanos() {
        return ValidationResult::at(
            name.to_owned(),
            false,
            severity,
            Some("Validation timed out".to_owned()),
            at,
        );
    }
    match outcome {
        Ok(true) => ValidationResult::at(name.to_owned(), true, severity, None, at),
        Ok(false) => ValidationResult::at(
            name.to_owned(),
            false,
            severity,
            Some("Validation rule failed".to_owned()),
            at,
        ),
        Err(e) => ValidationResult::at(
            name.to_owned(),
            false,
            severity,
            Some(e.message.clone()),
            at,
        ),
    }
}

/// The result for a custom validator that answered `outcome` after `elapsed`:
/// its own result where it gave one within the timeout; else a failure under
/// the validator's name and severity.
pub open spec fn custom_verdict_of(
    name: Seq<char>,
    severity: ValidationSeverity,
    outcome: Result<ValidationResult, CaptureError>,
    elapsed: Duration,
    timeout: Duration,
    at: Timestamp,
) -> ResultView {
    if elapsed@ > timeout@ {
        ResultView {
            rule_name: name,
            passed: false,
            severity,
            message: Some(timeout_message()),
            timestamp: at,
            metadata: Map::empty(),
        }
    } else {
        match outcome {
            Ok(result) => result@,
            Err(e) => ResultView {
                rule_name: name,
                passed: false,
                severity,
                message: Some(e@.message),
                timestamp: at,
                metadata: Map::empty(),
            },
        }
    }
}

/// Makes the result for a custom validator that answered `outcome` after
/// `elapsed`.
pub fn custom_verdict(
    name: &str,
    severity: ValidationSeverity,
    outcome: Result<ValidationResult, CaptureError>,
    elapsed: Duration,
    timeout: Duration,
    at: Timestamp,
) -> (r: ValidationResult)
    ensures
        r@ == custom_verdict_of(name@, severity, outcome, elapsed, timeout, at),
{
    if elapsed.as_nanos() > timeout.as_nanos() {
        return ValidationResult::at(
            name.to_owned(),
            false,
            severity,
            Some("Validation timed out".to_owned()),
            at,
        );
    }
    match outcome {
        Ok(result) => result,
        Err(e) => ValidationResult::at(
            name.to_owned(),
            false,
            severity,
            Some(e.message.clone()),
            at,
        ),
    }
}

/// The last `max` entries of a list, or all of it where it has no more.
pub open spec fn kept_last<T>(all: Seq<T>, max: nat) -> Seq<T> {
    if all.len() > max {
        all.skip(all.len() - max)
    } else {
        all
    }
}

/// The function that gives the time at which a result was made.
pub open spec fn result_stamp() -> spec_fn(ResultView) -> Timestamp {
    |r: ResultView| r.timestamp
}

impl Stamped for ValidationResult {
    open spec fn stamp(&self) -> Timestamp {
        self@.timestamp
    }

    fn stamped_at(&self) -> (t: Timestamp) {
        self.timestamp
    }
}

/// How many results of the list have failed.
pub open spec fn failures(results: Seq<ResultView>) -> nat
    decreases results.len(),
{
    if results.len() == 0 {
        0
    } else if results.last().passed {
        failures(results.drop_last())
    } else {
        failures(results.drop_last()) + 1
    }
}

/// Whether `result` can be the result of `rule` after the results `earlier`,
/// under the timeout `timeout` for one check.
///
/// Where a dependency of the rule has not passed before, the result is the
/// failure that names the first such dependency, and the check is not made.
/// Else the result is the verdict on what the check answered and on the time
/// it took, whatever these were.
pub open spec fn rule_result(
    rule: RuleView,
    earlier: Seq<ResultView>,
    result: ResultView,
    timeout: Duration,
) -> bool {
    &&& result.rule_name == rule.name
    &&& result.severity == rule.severity
    &&& !dependencies_met(rule, earlier) ==> exists|d: int|
        is_first_unmet(rule, earlier, d) && result == skipped(
            rule,
            #[trigger] rule.dependencies[d],
            result.timestamp,
        )
    &&& dependencies_met(rule, earlier) ==> exists|outcome: Result<bool, CaptureError>, elapsed: Duration|
        result == #[trigger] verdict(
            rule.name,
            rule.severity,
            outcome,
            elapsed,
            timeout,
            result.timestamp,
        )
}

/// Whether `results` can be what one validation gives for the rules in their
/// order and `customs` custom validators.
///
/// The results of the rules come first, one for each rule in order; a rule
/// with a dependency that has not passed before it is recorded as failed. The
/// results of the custom validators follow. The list is complete unless the
/// configuration asks to stop at the first blocking result, and then it ends
/// with that result.
pub open spec fn valid_run(
    config: ValidatorConfig,
    rules: Seq<RuleView>,
    customs: nat,
    results: Seq<ResultView>,
) -> bool {
    &&& results.len() <= rules.len() + customs
    &&& forall|i: int|
        0 <= i < results.len() && i < rules.len() ==> rule_result(
            rules[i],
            results.take(i),
            #[trigger] results[i],
            config.validation_timeout,
        )
    &&& config.fail_fast ==> forall|i: int|
        0 <= i < results.len() - 1 ==> !(#[trigger] results[i]).blocks()
    &&& results.len() < rules.len() + customs ==> {
        &&& config.fail_fast
        &&& results.len() > 0
        &&& results.last().blocks()
    }
}

/// The mathematical model of a `StateValidator`.
pub struct ValidatorView {
    pub config: ValidatorConfig,
    /// The rules in the order in which they run.
    pub rules: Seq<RuleView>,
    /// The number of custom validators.
    pub customs: nat,
    /// The remembered results, oldest first.
    pub history: Seq<ResultView>,
    pub stats: StatsView,
}

impl ValidatorView {
    /// What holds of every validator: no two rules share a name, the rules
    /// stand in ascending order of priority, and the history is within its
    /// bound.
    pub open spec fn wf(self) -> bool {
        &&& names_unique(self.rules)
        &&& in_order(self.rules)
        &&& self.history.len() <= self.config.history_max_size
    }

    /// The validator with `rule` added: it takes the place of a rule of the
    /// same name, and stands behind the rules of its priority.
    pub open spec fn with_rule(self, rule: RuleView) -> ValidatorView {
        ValidatorView { rules: placed(without(self.rules, rule.name), rule), ..self }
    }

    /// The validator after the results that are older than the retention
    /// window at the time `now` have left the history.
    pub open spec fn pruned(self, now: Timestamp) -> ValidatorView {
        ValidatorView {
            history: retained(
                self.history,
                result_stamp(),
                self.config.history_retention_period,
                now,
            ),
            ..self
        }
    }

    /// The validator after a validation that gave `results`: they are
    /// remembered, within the bound of the history, and counted.
    pub open spec fn remembering(self, results: Seq<ResultView>, average: u64) -> ValidatorView {
        ValidatorView {
            history: kept_last(self.history + results, self.config.history_max_size as nat),
            stats: StatsView {
                total_validations: advanced(self.stats.total_validations, results.len()),
                failed_validations: advanced(self.stats.failed_validations, failures(results)),
                average_validation_time: average,
            },
            ..self
        }
    }
}

/// Looks for the first rule with the name.
fn position_of<S>(rules: &Vec<ValidationRule<S>>, name: &String) -> (r: Option<usize>)
    ensures
        r matches Some(i) ==> is_first_named(rules_view(rules@), name@, i as int),
        r.is_none() ==> !has_named(rules_view(rules@), name@),
{
    let mut i: usize = 0;
    while i < rules.len()
        invariant
            i <= rules.len(),
            forall|j: int| 0 <= j < i ==> (#[trigger] rules_view(rules@)[j]).name != name@,
        decreases rules.len() - i,
    {
        if rules[i].name == *name {
            return Some(i);
        }
        i = i + 1;
    }
    None
}

/// Looks for the place where a rule of the given priority goes.
fn slot_for<S>(rules: &Vec<ValidationRule<S>>, priority: u32) -> (k: usize)
    ensures
        is_slot(rules_view(rules@), priority, k as int),
{
    let mut k: usize = 0;
    while k < rules.len() && rules[k].priority <= priority
        invariant
            k <= rules.len(),
            forall|j: int| 0 <= j < k ==> (#[trigger] rules_view(rules@)[j]).priority <= priority,
        decreases rules.len() - k,
    {
        k = k + 1;
    }
    k
}

/// The first place with a name is the only first place with that name.
proof fn lemma_first_named_unique(rules: Seq<RuleView>, name: Seq<char>, i: int)
    requires
        is_first_named(rules, name, i),
    ensures
        has_named(rules, name),
        (choose|c: int| is_first_named(rules, name, c)) == i,
        without(rules, name) == rules.remove(i),
{
    let c = choose|c: int| is_first_named(rules, name, c);
    assert(is_first_named(rules, name, c));
    if c < i {
        assert(rules[c].name != name);
    }
    if i < c {
        assert(rules[i].name != name);
    }
}

/// The slot for a priority is the only slot for that priority.
proof fn lemma_slot_unique(rules: Seq<RuleView>, priority: u32, k: int)
    requires
        is_slot(rules, priority, k),
    ensures
        (choose|c: int| is_slot(rules, priority, c)) == k,
{
    let c = choose|c: int| is_slot(rules, priority, c);
    assert(is_slot(rules, priority, c));
    if c < k {
        assert(rules[c].priority <= priority);
    }
    if k < c {
        assert(rules[k].priority <= priority);
    }
}

/// Adding a rule keeps the names unique and the rules in running order.
#[verifier::rlimit(60)]
pub proof fn lemma_with_rule_keeps_order(rules: Seq<RuleView>, rule: RuleView)
    requires
        names_unique(rules),
        in_order(rules),
    ensures
        names_unique(placed(without(rules, rule.name), rule)),
        in_order(placed(without(rules, rule.name), rule)),
        has_named(placed(without(rules, rule.name), rule), rule.name),
{
    let kept = without(rules, rule.name);
    if has_named(rules, rule.name) {
        let w = choose|w: int| 0 <= w < rules.len() && (#[trigger] rules[w]).name == rule.name;
        lemma_first_named_exists(rules, rule.name, w);
        let i = choose|i: int| is_first_named(rules, rule.name, i);
        assert(is_first_named(rules, rule.name, i));
        assert forall|j: int| 0 <= j < kept.len() implies (#[trigger] kept[j]).name
            != rule.name by {
            if j < i {
                assert(kept[j] == rules[j]);
            } else {
                assert(kept[j] == rules[j + 1]);
            }
        }
        assert forall|a: int, b: int| 0 <= a < b < kept.len() implies (#[trigger] kept[a]).name != (
        #[trigger] kept[b]).name by {
            let a2 = if a < i { a } else { a + 1 };
            let b2 = if b < i { b } else { b + 1 };
            assert(kept[a] == rules[a2]);
            assert(kept[b] == rules[b2]);
        }
        assert forall|a: int, b: int| 0 <= a <= b < kept.len() implies (#[trigger] kept[a]).priority
            <= (#[trigger] kept[b]).priority by {
            let a2 = if a < i { a } else { a + 1 };
            let b2 = if b < i { b } else { b + 1 };
            assert(kept[a] == rules[a2]);
            assert(kept[b] == rules[b2]);
        }
    } else {
        assert forall|j: int| 0 <= j < kept.len() implies (#[trigger] kept[j]).name
            != rule.name by {
            assert(rules[j].name != rule.name);
        }
    }
    lemma_slot_exists(kept, rule.priority);
    let k = choose|k: int| is_slot(kept, rule.priority, k);
    assert(is_slot(kept, rule.priority, k));
    let after = kept.insert(k, rule);
    assert(after[k] == rule);
    assert forall|a: int, b: int| 0 <= a < b < after.len() implies (#[trigger] after[a]).name != (
    #[trigger] after[b]).name by {
        let a2 = if a < k { a } else { a - 1 };
        let b2 = if b < k { b } else { b - 1 };
        if a != k {
            assert(after[a] == kept[a2]);
        }
        if b != k {
            assert(after[b] == kept[b2]);
        }
    }
    assert forall|a: int, b: int| 0 <= a <= b < after.len() implies (#[trigger] after[a]).priority
        <= (#[trigger] after[b]).priority by {
        let a2 = if a < k { a } else { a - 1 };
        let b2 = if b < k { b } else { b - 1 };
        if a != k {
            assert(after[a] == kept[a2]);
        }
        if b != k {
            assert(after[b] == kept[b2]);
        }
        if a < k && b > k {
            assert(kept[a2].priority <= rule.priority);
            assert(kept[k].priority > rule.priority);
            assert(kept[k].priority <= kept[b2].priority);
        }
        if a == k && b > k {
            assert(kept[k].priority <= kept[b2].priority);
        }
    }
}

/// Where some rule has the name, some rule is the first to have it.
proof fn lemma_first_named_exists(rules: Seq<RuleView>, name: Seq<char>, w: int)
    requires
        0 <= w < rules.len(),
        rules[w].name == name,
    ensures
        exists|i: int| is_first_named(rules, name, i),
    decreases w,
{
    if forall|j: int| 0 <= j < w ==> (#[trigger] rules[j]).name != name {
        assert(is_first_named(rules, name, w));
    } else {
        let j = choose|j: int| 0 <= j < w && (#[trigger] rules[j]).name == name;
        lemma_first_named_exists(rules, name, j);
    }
}

/// Every list has a slot for every priority.
proof fn lemma_slot_exists(rules: Seq<RuleView>, priority: u32)
    ensures
        exists|k: int| is_slot(rules, priority, k),
    decreases rules.len(),
{
    if rules.len() == 0 {
        assert(is_slot(rules, priority, 0));
    } else if rules[0].priority > priority {
        assert(is_slot(rules, priority, 0));
    } else {
        let rest = rules.skip(1);
        lemma_slot_exists(rest, priority);
        let k = choose|k: int| is_slot(rest, priority, k);
        assert forall|j: int| 0 <= j < k + 1 implies (#[trigger] rules[j]).priority <= priority by {
            if j > 0 {
                assert(rest[j - 1] == rules[j]);
            }
        }
        if k < rest.len() {
            assert(rest[k] == rules[k + 1]);
        }
        assert(is_slot(rules, priority, k + 1));
    }
}

/// The place of one custom validator in a validator.
#[verifier::reject_recursive_types(S)]
struct CustomSlot<S> {
    validator: Box<dyn CustomValidator<S>>,
}

impl<S> CustomSlot<S> {
    /// The place that holds the validator.
    fn holding(validator: Box<dyn CustomValidator<S>>) -> (slot: CustomSlot<S>)
        ensures
            slot == (CustomSlot { validator }),
    {
        CustomSlot { validator }
    }
}

/// Core state validator.
#[verifier::reject_recursive_types(S)]
pub struct StateValidator<S> {
    config: ValidatorConfig,
    rules: Vec<ValidationRule<S>>,
    validation_history: Vec<ValidationResult>,
    custom_validators: Vec<CustomSlot<S>>,
    stats: ValidationStats,
}

impl<S> View for StateValidator<S> {
    type V = ValidatorView;

    closed spec fn view(&self) -> ValidatorView {
        ValidatorView {
            config: self.config,
            rules: rules_view(self.rules@),
            customs: self.custom_validators@.len(),
            history: results_view(self.validation_history@),
            stats: self.stats@,
        }
    }
}

impl<S> StateValidator<S> {
    /// A validator without rules, custom validators or history.
    pub fn new(config: ValidatorConfig) -> (v: StateValidator<S>)
        ensures
            v@ == (ValidatorView {
                config,
                rules: Seq::empty(),
                customs: 0,
                history: Seq::empty(),
                stats: StatsView::zero(),
            }),
            v@.wf(),
    {
        let v = StateValidator {
            config,
            rules: Vec::new(),
            validation_history: Vec::new(),
            custom_validators: Vec::new(),
            stats: ValidationStats::new(),
        };
        proof {
            assert(rules_view(v.rules@) =~= Seq::<RuleView>::empty());
            assert(results_view(v.validation_history@) =~= Seq::<ResultView>::empty());
        }
        v
    }

    /// Adds a rule. A rule of the same name is replaced. The rule runs after
    /// the rules of lower or equal priority that are there, and before those
    /// of higher priority.
    pub fn add_rule(&mut self, rule: ValidationRule<S>)
        ensures
            final(self)@ == old(self)@.with_rule(rule@),
            old(self)@.wf() ==> final(self)@.wf(),
    {
        let ghost before = rules_view(self.rules@);
        match position_of(&self.rules, &rule.name) {
            Some(i) => {
                proof {
                    lemma_first_named_unique(before, rule@.name, i as int);
                }
                self.rules.remove(i);
                proof {
                    assert(rules_view(self.rules@) =~= before.remove(i as int));
                }
            },
            None => {},
        }
        let ghost kept = rules_view(self.rules@);
        assert(kept == without(before, rule@.name));
        let k = slot_for(&self.rules, rule.priority);
        proof {
            lemma_slot_unique(kept, rule.priority, k as int);
        }
        let ghost added = rule@;
        self.rules.insert(k, rule);
        proof {
            assert(rules_view(self.rules@) =~= kept.insert(k as int, added));
            if old(self)@.wf() {
                lemma_with_rule_keeps_order(before, added);
            }
        }
    }

    /// Adds a custom validator. Custom validators run after the rules, in the
    /// order in which they were added.
    pub fn add_custom_validator(&mut self, validator: Box<dyn CustomValidator<S>>)
        ensures
            final(self)@ == (ValidatorView {
                customs: (old(self)@.customs + 1) as nat,
                ..old(self)@
            }),
    {
        self.custom_validators.push(CustomSlot::holding(validator));
    }

    /// The configuration.
    pub fn config(&self) -> (c: &ValidatorConfig)
        ensures
            *c == self@.config,
    {
        &self.config
    }

    /// The number of rules.
    pub fn rule_count(&self) -> (n: usize)
        ensures
            n == self@.rules.len(),
    {
        self.rules.len()
    }

    /// The remembered results, oldest first.
    pub fn get_validation_history(&self) -> (h: &[ValidationResult])
        ensures
            results_view(h@) == self@.history,
    {
        self.validation_history.as_slice()
    }

    /// The counters of the checks made so far.
    pub fn get_validation_metrics(&self) -> (s: ValidationStats)
        ensures
            s@ == self@.stats,
    {
        self.stats
    }

    /// Forgets the remembered results. Nothing else changes.
    pub fn clear_history(&mut self)
        ensures
            final(self)@ == (ValidatorView { history: Seq::empty(), ..old(self)@ }),
    {
        self.validation_history.clear();
        proof {
            assert(results_view(self.validation_history@) =~= Seq::<ResultView>::empty());
        }
    }
}

/// Whether a result under the name has passed among the results.
fn has_passed(results: &Vec<ValidationResult>, name: &String) -> (met: bool)
    ensures
        met == dependency_met(results_view(results@), name@),
{
    let mut j: usize = 0;
    while j < results.len()
        invariant
            j <= results.len(),
            forall|k: int|
                0 <= k < j ==> !((#[trigger] results_view(results@)[k]).rule_name == name@
                    && results_view(results@)[k].passed),
        decreases results.len() - j,
    {
        if results[j].passed && results[j].rule_name == *name {
            assert(results_view(results@)[j as int].rule_name == name@);
            return true;
        }
        j = j + 1;
    }
    false
}

/// Looks for the first dependency of the rule that has not passed among the
/// results.
fn first_unmet<S>(rule: &ValidationRule<S>, results: &Vec<ValidationResult>) -> (r: Option<usize>)
    ensures
        r matches Some(d) ==> is_first_unmet(rule@, results_view(results@), d as int),
        r.is_none() ==> dependencies_met(rule@, results_view(results@)),
{
    let mut d: usize = 0;
    while d < rule.dependencies.len()
        invariant
            d <= rule.dependencies.len(),
            forall|e: int|
                0 <= e < d ==> dependency_met(
                    results_view(results@),
                    #[trigger] rule@.dependencies[e],
                ),
        decreases rule.dependencies.len() - d,
    {
        assert(rule@.dependencies[d as int] == rule.dependencies@[d as int]@);
        if !has_passed(results, &rule.dependencies[d]) {
            return Some(d);
        }
        d = d + 1;
    }
    None
}

/// The failures of a list with one more result.
pub proof fn lemma_failures_push(results: Seq<ResultView>, next: ResultView)
    ensures
        failures(results.push(next)) == failures(results) + if next.passed {
            0nat
        } else {
            1nat
        },
{
    assert(results.push(next).drop_last() =~= results);
    assert(results.push(next).last() == next);
}

/// Runs the rules in their order and appends one result for each to `out`,
/// until the rules are through or a blocking result asks to stop.
fn run_rules<S>(
    rules: &Vec<ValidationRule<S>>,
    config: &ValidatorConfig,
    current: &S,
    proposed: &S,
    stats: &mut ValidationStats,
    out: &mut Vec<ValidationResult>,
) -> (stopped: bool)
    requires
        old(out)@.len() == 0,
    ensures
        ({
            let results = results_view(final(out)@);
            let order = rules_view(rules@);
            &&& results.len() <= order.len()
            &&& forall|i: int|
                0 <= i < results.len() ==> rule_result(
                    order[i],
                    results.take(i),
                    #[trigger] results[i],
                    config.validation_timeout,
                )
            &&& config.fail_fast ==> forall|i: int|
                0 <= i < results.len() - 1 ==> !(#[trigger] results[i]).blocks()
            &&& stopped == (config.fail_fast && results.len() > 0 && results.last().blocks())
            &&& !stopped ==> results.len() == order.len()
            &&& final(stats)@.total_validations == advanced(
                old(stats)@.total_validations,
                results.len(),
            )
            &&& final(stats)@.failed_validations == advanced(
                old(stats)@.failed_validations,
                failures(results),
            )
        }),
{
    let mut i: usize = 0;
    proof {
        lemma_advanced_step(stats@.total_validations, 0);
        lemma_advanced_step(stats@.failed_validations, 0);
        assert(results_view(out@) =~= Seq::<ResultView>::empty());
    }
    while i < rules.len()
        invariant
            i <= rules.len(),
            out@.len() == i,
            forall|k: int|
                0 <= k < i ==> rule_result(
                    rules_view(rules@)[k],
                    results_view(out@).take(k),
                    #[trigger] results_view(out@)[k],
                    config.validation_timeout,
                ),
            config.fail_fast ==> forall|k: int|
                0 <= k < i ==> !(#[trigger] results_view(out@)[k]).blocks(),
            stats@.total_validations == advanced(old(stats)@.total_validations, i as nat),
            stats@.failed_validations == advanced(
                old(stats)@.failed_validations,
                failures(results_view(out@)),
            ),
        decreases rules.len() - i,
    {
        let rule = &rules[i];
        let ghost earlier = results_view(out@);
        let ghost total = stats@.total_validations;
        let ghost failed = stats@.failed_validations;
        let result = match first_unmet(rule, out) {
            Some(d) => {
                let mut message = "Dependency not satisfied: ".to_owned();
                message.append(rule.dependencies[d].as_str());
                stats.record_validation(false, 0);
                assert(rule@.dependencies[d as int] == rule.dependencies@[d as int]@);
                ValidationResult::at(
                    rule.name.clone(),
                    false,
                    rule.severity,
                    Some(message),
                    Timestamp::now(),
                )
            },
            None => {
                let started = Timestamp::now();
                let outcome = rule.validator.check(current, proposed);
                let finished = Timestamp::now();
                let elapsed = match finished.duration_since(started) {
                    Some(span) => span,
                    None => Duration::zero(),
                };
                let verdict = rule_verdict(
                    rule.name.as_str(),
                    rule.severity,
                    outcome,
                    elapsed,
                    config.validation_timeout,
                    finished,
                );
                stats.record_validation(verdict.passed(), elapsed.low_nanos());
                assert(verdict@ == crate::state_validator::verdict(
                    rule@.name,
                    rule@.severity,
                    outcome,
                    elapsed,
                    config.validation_timeout,
                    verdict@.timestamp,
                ));
                verdict
            },
        };
        let blocking = result.blocks();
        let ghost made = result@;
        out.push(result);
        i = i + 1;
        proof {
            let results = results_view(out@);
            assert(results =~= earlier.push(made));
            assert(results.take(i - 1) =~= earlier);
            assert(rule_result(
                rules_view(rules@)[i - 1],
                earlier,
                made,
                config.validation_timeout,
            ));
            assert forall|k: int| 0 <= k < i implies rule_result(
                rules_view(rules@)[k],
                results.take(k),
                #[trigger] results[k],
                config.validation_timeout,
            ) by {
                if k < i - 1 {
                    assert(results.take(k) =~= earlier.take(k));
                    assert(results[k] == earlier[k]);
                }
            }
            lemma_failures_push(earlier, made);
            lemma_advanced_step(old(stats)@.total_validations, (i - 1) as nat);
            lemma_advanced_step(old(stats)@.failed_validations, failures(earlier));
        }
        if config.fail_fast && blocking {
            return true;
        }
    }
    false
}

/// Runs the custom validators in their order and appends one result for each
/// to `out`, until they are through or a blocking result asks to stop.
fn run_customs<S>(
    customs: &Vec<CustomSlot<S>>,
    config: &ValidatorConfig,
    current: &S,
    proposed: &S,
    stats: &mut ValidationStats,
    out: &mut Vec<ValidationResult>,
    Ghost(total): Ghost<u64>,
    Ghost(failed): Ghost<u64>,
)
    requires
        config.fail_fast ==> forall|i: int|
            0 <= i < old(out)@.len() ==> !(#[trigger] results_view(old(out)@)[i]).blocks(),
        old(stats)@.total_validations == advanced(total, old(out)@.len()),
        old(stats)@.failed_validations == advanced(failed, failures(results_view(old(out)@))),
    ensures
        ({
            let before = results_view(old(out)@);
            let results = results_view(final(out)@);
            &&& before.len() <= results.len() <= before.len() + customs@.len()
            &&& results.take(before.len() as int) == before
            &&& config.fail_fast ==> forall|i: int|
                0 <= i < results.len() - 1 ==> !(#[trigger] results[i]).blocks()
            &&& results.len() < before.len() + customs@.len() ==> {
                &&& config.fail_fast
                &&& results.len() > 0
                &&& results.last().blocks()
            }
            &&& final(stats)@.total_validations == advanced(total, results.len())
            &&& final(stats)@.failed_validations == advanced(failed, failures(results))
        }),
{
    let ghost before = results_view(out@);
    let mut j: usize = 0;
    proof {
        assert(results_view(out@).take(before.len() as int) =~= before);
    }
    while j < customs.len()
        invariant
            j <= customs.len(),
            before == results_view(old(out)@),
            out@.len() == before.len() + j,
            results_view(out@).take(before.len() as int) == before,
            config.fail_fast ==> forall|k: int|
                0 <= k < out@.len() ==> !(#[trigger] results_view(out@)[k]).blocks(),
            stats@.total_validations == advanced(total, out@.len()),
            stats@.failed_validations == advanced(failed, failures(results_view(out@))),
        decreases customs.len() - j,
    {
        let custom = &customs[j];
        let ghost earlier = results_view(out@);
        let name = custom.validator.get_name().to_owned();
        let severity = custom.validator.get_severity();
        let started = Timestamp::now();
        let outcome = custom.validator.validate(current, proposed);
        let finished = Timestamp::now();
        let elapsed = match finished.duration_since(started) {
            Some(span) => span,
            None => Duration::zero(),
        };
        let result = custom_verdict(
            name.as_str(),
            severity,
            outcome,
            elapsed,
            config.validation_timeout,
            finished,
        );
        stats.record_validation(result.passed(), elapsed.low_nanos());
        let blocking = result.blocks();
        let ghost made = result@;
        out.push(result);
        j = j + 1;
        proof {
            let results = results_view(out@);
            assert(results =~= earlier.push(made));
            assert(results.take(before.len() as int) =~= earlier.take(before.len() as int));
            lemma_failures_push(earlier, made);
            lemma_advanced_step(total, earlier.len());
            lemma_advanced_step(failed, failures(earlier));
            assert forall|k: int| 0 <= k < results.len() - 1 implies !(#[trigger] results[k]).blocks()
                || !config.fail_fast by {
                assert(results[k] == earlier[k]);
            }
        }
        if config.fail_fast && blocking {
            return ;
        }
    }
}

/// Appends copies of the results to the history and drops the oldest entries
/// beyond the bound.
fn remember(history: &mut Vec<ValidationResult>, results: &Vec<ValidationResult>, max: usize)
    ensures
        results_view(final(history)@) == kept_last(
            results_view(old(history)@) + results_view(results@),
            max as nat,
        ),
{
    let ghost before = results_view(history@);
    let mut k: usize = 0;
    proof {
        assert(results_view(results@).take(0) =~= Seq::<ResultView>::empty());
        assert(before + Seq::<ResultView>::empty() =~= before);
    }
    while k < results.len()
        invariant
            k <= results.len(),
            results_view(history@) == before + results_view(results@).take(k as int),
        decreases results.len() - k,
    {
        let ghost so_far = results_view(history@);
        let copy = results[k].duplicate();
        history.push(copy);
        k = k + 1;
        proof {
            assert(results_view(history@) =~= so_far.push(results_view(results@)[k - 1]));
            assert(results_view(results@).take(k as int) =~= results_view(results@).take(
                k - 1,
            ).push(results_view(results@)[k - 1]));
            assert(results_view(history@) =~= before + results_view(results@).take(k as int));
        }
    }
    proof {
        assert(results_view(results@).take(k as int) =~= results_view(results@));
    }
    if history.len() > max {
        let ghost all = results_view(history@);
        let excess = history.len() - max;
        let tail = history.split_off(excess);
        *history = tail;
        proof {
            assert(results_view(history@) =~= all.skip(all.len() - max));
        }
    }
}

impl<S> StateValidator<S> {
    /// Validates the transition from `current_state` to `proposed_state`.
    ///
    /// A validator that is switched off does nothing and gives no result.
    /// Else the rules run in their order, then the custom validators, and the
    /// results form a valid run (see `valid_run`); what the single checks
    /// answer is up to them. The results are remembered in the history, which
    /// keeps its bound, and counted. Whether the results permit the
    /// transition is for `transition_permitted` to say.
    pub fn validate_transition(&mut self, current_state: &S, proposed_state: &S) -> (r: Result<
        Vec<ValidationResult>,
        CaptureError,
    >)
        ensures
            r.is_ok(),
            !old(self)@.config.enabled ==> r.unwrap()@.len() == 0 && final(self)@ == old(self)@,
            old(self)@.config.enabled ==> {
                let results = results_view(r.unwrap()@);
                &&& valid_run(old(self)@.config, old(self)@.rules, old(self)@.customs, results)
                &&& final(self)@ == old(self)@.remembering(
                    results,
                    final(self)@.stats.average_validation_time,
                )
            },
            final(self)@.history.len() <= old(self)@.config.history_max_size || final(self)@
                == old(self)@,
    {
        let mut out: Vec<ValidationResult> = Vec::new();
        if !self.config.enabled {
            return Ok(out);
        }
        let ghost total = self.stats@.total_validations;
        let ghost failed = self.stats@.failed_validations;
        let stopped = run_rules(
            &self.rules,
            &self.config,
            current_state,
            proposed_state,
            &mut self.stats,
            &mut out,
        );
        let ghost from_rules = results_view(out@);
        if !stopped {
            run_customs(
                &self.custom_validators,
                &self.config,
                current_state,
                proposed_state,
                &mut self.stats,
                &mut out,
                Ghost(total),
                Ghost(failed),
            );
        }
        proof {
            let results = results_view(out@);
            let order = rules_view(self.rules@);
            assert(results.take(from_rules.len() as int) =~= from_rules);
            assert forall|i: int| 0 <= i < results.len() && i < order.len() implies rule_result(
                order[i],
                results.take(i),
                #[trigger] results[i],
                self.config.validation_timeout,
            ) by {
                assert(i < from_rules.len());
                assert(results.take(i) =~= from_rules.take(i));
                assert(results[i] == from_rules[i]);
            }
        }
        remember(&mut self.validation_history, &out, self.config.history_max_size);
        Ok(out)
    }

    /// Drops from the history the results that are older than the retention
    /// window of the configuration at the time `now`. The results that stay
    /// keep their order.
    pub fn prune_history_at(&mut self, now: Timestamp)
        ensures
            final(self)@ == old(self)@.pruned(now),
            final(self)@.history.len() <= old(self)@.history.len(),
    {
        let window = self.config.history_retention_period;
        let ghost before = self.validation_history@;
        retain_fresh(&mut self.validation_history, window, now);
        proof {
            let view = |r: ValidationResult| r@;
            lemma_retained_through(
                before,
                view,
                stamp_of::<ValidationResult>(),
                result_stamp(),
                window,
                now,
            );
            assert(results_view(before) =~= before.map_values(view));
            assert(results_view(self.validation_history@) =~= self.validation_history@.map_values(
                view,
            ));
        }
    }

    /// Drops from the history the results that are older than the retention
    /// window of the configuration, by the clock's reading of the moment.
    pub fn prune_history(&mut self)
        ensures
            exists|now: Timestamp| final(self)@ == #[trigger] old(self)@.pruned(now),
            final(self)@.history.len() <= old(self)@.history.len(),
    {
        let now = Timestamp::now();
        self.prune_history_at(now);
    }

    /// The most recent results that were all made at `since` or later: the
    /// longest run at the end of the history in which no result is older than
    /// `since`.
    pub fn get_recent_history(&self, since: Timestamp) -> (recent: &[ValidationResult])
        ensures
            recent@.len() <= self@.history.len(),
            results_view(recent@) == self@.history.skip(self@.history.len() - recent@.len()),
            forall|i: int|
                0 <= i < recent@.len() ==> (#[trigger] results_view(recent@)[i]).timestamp@
                    >= since@,
            recent@.len() < self@.history.len() ==> self@.history[self@.history.len()
                - recent@.len() - 1].timestamp@ < since@,
    {
        let mut start: usize = self.validation_history.len();
        while start > 0 && self.validation_history[start - 1].timestamp().as_nanos()
            >= since.as_nanos()
            invariant
                start <= self.validation_history.len(),
                forall|i: int|
                    start <= i < self.validation_history.len() ==> (#[trigger] results_view(
                        self.validation_history@,
                    )[i]).timestamp@ >= since@,
            decreases start,
        {
            start = start - 1;
        }
        let all = self.validation_history.as_slice();
        let recent = vstd::slice::slice_subrange(all, start, all.len());
        proof {
            assert(results_view(recent@) =~= results_view(self.validation_history@).skip(
                start as int,
            ));
        }
        recent
    }
}

/// The error that answers a builder that lacks a required field.
pub open spec fn missing_required(message: Seq<char>) -> CaptureErrorView {
    CaptureErrorView {
        kind: CaptureErrorKind::Configuration(ConfigErrorKind::MissingRequired),
        message,
        causes: Seq::empty(),
        context: empty_context(),
    }
}

/// What a `ValidationRuleBuilder` has been told so far, but for the check
/// itself.
pub struct RuleBuilderView {
    pub name: Option<Seq<char>>,
    pub description: Option<Seq<char>>,
    pub severity: Option<ValidationSeverity>,
    pub has_validator: bool,
    pub metadata: Map<String, String>,
    pub priority: u32,
    pub dependencies: Seq<Seq<char>>,
}

impl RuleBuilderView {
    /// A builder that has been told nothing.
    pub open spec fn fresh() -> RuleBuilderView {
        RuleBuilderView {
            name: None,
            description: None,
            severity: None,
            has_validator: false,
            metadata: Map::empty(),
            priority: 0,
            dependencies: Seq::empty(),
        }
    }

    /// What is missing, if anything: the name is asked for first, then the
    /// severity, then the check.
    pub open spec fn complaint(self) -> Option<Seq<char>> {
        if self.name.is_none() {
            Some("Rule name is required"@)
        } else if self.severity.is_none() {
            Some("Rule severity is required"@)
        } else if !self.has_validator {
            Some("Rule validator is required"@)
        } else {
            None
        }
    }

    /// The rule that a complete builder builds. A rule without a description
    /// has the empty one.
    pub open spec fn rule(self) -> RuleView {
        RuleView {
            name: self.name.unwrap(),
            description: match self.description {
                Some(d) => d,
                None => Seq::empty(),
            },
            severity: self.severity.unwrap(),
            priority: self.priority,
            dependencies: self.dependencies,
            metadata: self.metadata,
        }
    }
}

/// Builder for creating validation rules.
#[verifier::reject_recursive_types(S)]
pub struct ValidationRuleBuilder<S> {
    name: Option<String>,
    description: Option<String>,
    severity: Option<ValidationSeverity>,
    validator: Option<Box<dyn ValidatorFn<S>>>,
    metadata: HashMap<String, String>,
    priority: u32,
    dependencies: Vec<String>,
}

impl<S> View for ValidationRuleBuilder<S> {
    type V = RuleBuilderView;

    closed spec fn view(&self) -> RuleBuilderView {
        RuleBuilderView {
            name: text_of(self.name),
            description: text_of(self.description),
            severity: self.severity,
            has_validator: self.validator.is_some(),
            metadata: self.metadata@,
            priority: self.priority,
            dependencies: texts_of(self.dependencies@),
        }
    }
}

impl<S> ValidationRuleBuilder<S> {
    /// A builder that has been told nothing.
    pub fn new() -> (b: ValidationRuleBuilder<S>)
        ensures
            b@ == RuleBuilderView::fresh(),
    {
        let b = ValidationRuleBuilder {
            name: None,
            description: None,
            severity: None,
            validator: None,
            metadata: HashMap::new(),
            priority: 0,
            dependencies: Vec::new(),
        };
        proof {
            assert(texts_of(b.dependencies@) =~= Seq::<Seq<char>>::empty());
        }
        b
    }

    /// Sets the name of the rule.
    pub fn name(self, name: &str) -> (b: ValidationRuleBuilder<S>)
        ensures
            b@ == (RuleBuilderView { name: Some(name@), ..self@ }),
    {
        let mut b = self;
        b.name = Some(name.to_owned());
        b
    }

    /// Sets the description of the rule.
    pub fn description(self, desc: &str) -> (b: ValidationRuleBuilder<S>)
        ensures
            b@ == (RuleBuilderView { description: Some(desc@), ..self@ }),
    {
        let mut b = self;
        b.description = Some(desc.to_owned());
        b
    }

    /// Sets the severity of the rule.
    pub fn severity(self, severity: ValidationSeverity) -> (b: ValidationRuleBuilder<S>)
        ensures
            b@ == (RuleBuilderView { severity: Some(severity), ..self@ }),
    {
        let mut b = self;
        b.severity = Some(severity);
        b
    }

    /// Sets the check of the rule.
    pub fn validator(self, validator: Box<dyn ValidatorFn<S>>) -> (b: ValidationRuleBuilder<S>)
        ensures
            b@ == (RuleBuilderView { has_validator: true, ..self@ }),
    {
        let mut b = self;
        b.validator = Some(validator);
        b
    }

    /// Sets the priority of the rule.
    pub fn priority(self, priority: u32) -> (b: ValidationRuleBuilder<S>)
        ensures
            b@ == (RuleBuilderView { priority, ..self@ }),
    {
        let mut b = self;
        b.priority = priority;
        b
    }

    /// Adds a rule that must have passed before this one runs.
    pub fn depends_on(self, rule_name: &str) -> (b: ValidationRuleBuilder<S>)
        ensures
            b@ == (RuleBuilderView {
                dependencies: self@.dependencies.push(rule_name@),
                ..self@
            }),
    {
        let mut b = self;
        let ghost before = b.dependencies@;
        b.dependencies.push(rule_name.to_owned());
        proof {
            assert(texts_of(b.dependencies@) =~= texts_of(before).push(rule_name@));
        }
        b
    }

    /// Adds one entry of metadata to the rule, in place of an entry under the
    /// same key. Nothing but the metadata changes.
    pub fn metadata(self, key: &str, value: &str) -> (b: ValidationRuleBuilder<S>)
        ensures
            b@ == (RuleBuilderView { metadata: b@.metadata, ..self@ }),
            vstd::std_specs::hash::obeys_key_model::<String>() ==> exists|k: String, v: String|
                k@ == key@ && v@ == value@ && b@.metadata == #[trigger] self@.metadata.insert(k, v),
    {
        broadcast use vstd::std_specs::hash::axiom_random_state_builds_valid_hashers;

        let mut b = self;
        let k = key.to_owned();
        let v = value.to_owned();
        let ghost before = b.metadata@;
        let ghost (gk, gv) = (k, v);
        b.metadata.insert(k, v);
        proof {
            if vstd::std_specs::hash::obeys_key_model::<String>() {
                assert(b.metadata@ == before.insert(gk, gv));
                assert(gk@ == key@ && gv@ == value@ && b@.metadata == self@.metadata.insert(
                    gk,
                    gv,
                ));
            }
        }
        b
    }

    /// Builds the rule, or says which required field is missing.
    pub fn build(self) -> (r: Result<ValidationRule<S>, CaptureError>)
        ensures
            self@.complaint() matches Some(message) ==> (r matches Err(e) && e@
                == missing_required(message)),
            self@.complaint().is_none() ==> (r matches Ok(rule) && rule@ == self@.rule()),
    {
        let name = match self.name {
            Some(name) => name,
            None => {
                let e = CaptureError::new(
                    CaptureErrorKind::Configuration(ConfigErrorKind::MissingRequired),
                    "Rule name is required",
                );
                return Err(*e);
            },
        };
        let severity = match self.severity {
            Some(severity) => severity,
            None => {
                let e = CaptureError::new(
                    CaptureErrorKind::Configuration(ConfigErrorKind::MissingRequired),
                    "Rule severity is required",
                );
                return Err(*e);
            },
        };
        let validator = match self.validator {
            Some(validator) => validator,
            None => {
                let e = CaptureError::new(
                    CaptureErrorKind::Configuration(ConfigErrorKind::MissingRequired),
                    "Rule validator is required",
                );
                return Err(*e);
            },
        };
        let description = match self.description {
            Some(description) => description,
            None => String::new(),
        };
        Ok(
            ValidationRule {
                name,
                description,
                severity,
                validator,
                metadata: self.metadata,
                priority: self.priority,
                dependencies: self.dependencies,
            },
        )
    }
}

impl<S> Default for ValidationRuleBuilder<S> {
    fn default() -> (b: ValidationRuleBuilder<S>)
        ensures
            b@ == RuleBuilderView::fresh(),
    {
        ValidationRuleBuilder::new()
    }
}

} // verus!
