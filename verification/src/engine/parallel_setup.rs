//! Parallel namespace bring-up.
//!
//! The kinds of namespace that a launch enables are set up as independent
//! units of work. This module decides which units there are, turns what each
//! unit came back with into a [`SetupResult`], and gathers the results: a
//! report exists once every enabled unit has finished, and never before.
//! Running the units side by side is left to the caller's scheduler.

use crate::clock::{elapsed_since, now};
use std::time::Duration;
use vstd::prelude::*;
use vstd::string::*;

verus! {

/// The kind of namespace being set up.
#[derive(Debug, Clone, Copy, PartialEq, Eq, Hash, Structural)]
pub enum NamespaceKind {
    /// User namespace (UID/GID mapping).
    User,
    /// Network namespace (virtual interfaces, routing).
    Network,
    /// Mount namespace (filesystem visibility).
    Mount,
    /// PID namespace (process tree isolation).
    Pid,
}

impl NamespaceKind {
    /// Lower-case name of the kind.
    pub open spec fn spec_name(self) -> Seq<char> {
        match self {
            NamespaceKind::User => "user"@,
            NamespaceKind::Network => "network"@,
            NamespaceKind::Mount => "mount"@,
            NamespaceKind::Pid => "pid"@,
        }
    }

    /// What a unit reports when the namespace of the kind is in place.
    pub open spec fn configured_message(self) -> Seq<char> {
        match self {
            NamespaceKind::User => "user namespace configured"@,
            NamespaceKind::Network => "network namespace configured"@,
            NamespaceKind::Mount => "mount namespace configured"@,
            NamespaceKind::Pid => "pid namespace configured"@,
        }
    }

    /// Lower-case name of the kind.
    pub fn name(&self) -> (s: &'static str)
        ensures
            s@ == self.spec_name(),
    {
        match self {
            NamespaceKind::User => "user",
            NamespaceKind::Network => "network",
            NamespaceKind::Mount => "mount",
            NamespaceKind::Pid => "pid",
        }
    }

    /// Lower-case name of the kind, as an owned string.
    pub fn to_string(&self) -> (s: String)
        ensures
            s@ == self.spec_name(),
    {
        String::from_str(self.name())
    }
}

/// Why a unit of work did not set its namespace up.
#[derive(Debug, PartialEq, Eq)]
pub enum SetupFailure {
    /// The setup step failed; the text describes the failure.
    Failed(String),
    /// The unit did not finish within its time limit.
    TimedOut,
}

impl SetupFailure {
    /// Description of the failure.
    pub open spec fn spec_message(self) -> Seq<char> {
        match self {
            SetupFailure::Failed(text) => text@,
            SetupFailure::TimedOut => "namespace setup timed out"@,
        }
    }

    /// Description of the failure.
    pub fn message(self) -> (text: String)
        ensures
            text@ == self.spec_message(),
    {
        match self {
            SetupFailure::Failed(text) => text,
            SetupFailure::TimedOut => String::from_str("namespace setup timed out"),
        }
    }
}

/// Outcome of a single namespace setup step.
#[derive(Debug)]
pub struct SetupResult {
    /// Which namespace was set up.
    pub kind: NamespaceKind,
    /// Wall-clock time spent on this step.
    pub duration: Duration,
    /// `true` when setup completed without error.
    pub success: bool,
    /// Confirmation of the success, or description of the failure.
    pub message: String,
}

impl Clone for SetupResult {
    fn clone(&self) -> (copy: Self)
        ensures
            copy == *self,
    {
        Self {
            kind: self.kind,
            duration: self.duration.clone(),
            success: self.success,
            message: self.message.clone(),
        }
    }
}

/// The results that are there, in the order user, network, mount, PID.
pub open spec fn gathered(
    user: Option<SetupResult>,
    network: Option<SetupResult>,
    mount: Option<SetupResult>,
    pid: Option<SetupResult>,
) -> Seq<SetupResult> {
    present(user) + present(network) + present(mount) + present(pid)
}

/// The result, if there is one, as a sequence.
pub open spec fn present(result: Option<SetupResult>) -> Seq<SetupResult> {
    match result {
        Some(r) => seq![r],
        None => Seq::empty(),
    }
}

/// Results of one bring-up: one entry per enabled kind.
#[derive(Debug)]
pub struct ParallelSetupReport {
    /// Per-namespace results, one entry per enabled namespace.
    pub results: Vec<SetupResult>,
    /// Wall-clock time of the whole bring-up.
    pub total_duration: Duration,
}

impl ParallelSetupReport {
    /// Whether every result is a success.
    pub open spec fn spec_all_succeeded(&self) -> bool {
        forall|i: int| 0 <= i < self.results@.len() ==> (#[trigger] self.results@[i]).success
    }

    /// The results that are failures, in the order of the report.
    pub open spec fn spec_failures(&self) -> Seq<SetupResult> {
        self.results@.filter(|r: SetupResult| !r.success)
    }

    /// A report of the results that are there, in the order user, network,
    /// mount, PID. A kind without a result is left out.
    pub fn collect(
        user: Option<SetupResult>,
        network: Option<SetupResult>,
        mount: Option<SetupResult>,
        pid: Option<SetupResult>,
        total_duration: Duration,
    ) -> (report: ParallelSetupReport)
        ensures
            report.results@ == gathered(user, network, mount, pid),
            report.total_duration == total_duration,
    {
        let mut results: Vec<SetupResult> = Vec::new();
        if let Some(r) = user {
            results.push(r);
        }
        if let Some(r) = network {
            results.push(r);
        }
        if let Some(r) = mount {
            results.push(r);
        }
        if let Some(r) = pid {
            results.push(r);
        }
        assert(results@ =~= gathered(user, network, mount, pid));
        ParallelSetupReport { results, total_duration }
    }

    /// Whether every namespace was set up successfully. A report without
    /// results counts as a success.
    pub fn all_succeeded(&self) -> (ok: bool)
        ensures
            ok == self.spec_all_succeeded(),
    {
        let mut i: usize = 0;
        while i < self.results.len()
            invariant
                i <= self.results.len(),
                forall|j: int| 0 <= j < i ==> (#[trigger] self.results@[j]).success,
            decreases self.results.len() - i,
        {
            if !self.results[i].success {
                return false;
            }
            i += 1;
        }
        true
    }

    /// The results that are failures, in the order of the report.
    pub fn failures(&self) -> (failed: Vec<&SetupResult>)
        ensures
            failed@.map_values(|r: &SetupResult| *r) == self.spec_failures(),
    {
        let mut failed: Vec<&SetupResult> = Vec::new();
        let mut i: usize = 0;
        proof {
            reveal(Seq::filter);
            assert(self.results@.take(0) =~= Seq::<SetupResult>::empty());
        }
        while i < self.results.len()
            invariant
                i <= self.results.len(),
                failed@.map_values(|r: &SetupResult| *r) == self.results@.take(i as int).filter(
                    |r: SetupResult| !r.success,
                ),
            decreases self.results.len() - i,
        {
            let ghost before = failed@;
            proof {
                reveal(Seq::filter);
                assert(self.results@.take(i + 1).drop_last() =~= self.results@.take(i as int));
            }
            if !self.results[i].success {
                failed.push(&self.results[i]);
                assert(failed@.map_values(|r: &SetupResult| *r) =~= before.map_values(
                    |r: &SetupResult| *r,
                ).push(self.results@[i as int]));
            }
            i += 1;
        }
        assert(self.results@.take(self.results.len() as int) =~= self.results@);
        failed
    }
}

/// Which namespaces to set up.
#[derive(Debug, Clone, Copy, PartialEq, Eq)]
pub struct NamespaceSetupConfig {
    /// Enable user namespace setup.
    pub user: bool,
    /// Enable network namespace setup.
    pub network: bool,
    /// Enable mount namespace setup.
    pub mount: bool,
    /// Enable PID namespace setup.
    pub pid: bool,
}

impl NamespaceSetupConfig {
    /// Whether the kind is enabled.
    pub open spec fn enables(self, kind: NamespaceKind) -> bool {
        match kind {
            NamespaceKind::User => self.user,
            NamespaceKind::Network => self.network,
            NamespaceKind::Mount => self.mount,
            NamespaceKind::Pid => self.pid,
        }
    }

    /// The kind, if it is enabled, as a sequence.
    pub open spec fn chosen(self, kind: NamespaceKind) -> Seq<NamespaceKind> {
        if self.enables(kind) {
            seq![kind]
        } else {
            Seq::empty()
        }
    }

    /// The enabled kinds, in the order user, network, mount, PID.
    pub open spec fn enabled_kinds(self) -> Seq<NamespaceKind> {
        self.chosen(NamespaceKind::User) + self.chosen(NamespaceKind::Network) + self.chosen(
            NamespaceKind::Mount,
        ) + self.chosen(NamespaceKind::Pid)
    }

    /// Number of enabled kinds.
    pub open spec fn enabled_count(self) -> nat {
        self.enabled_kinds().len()
    }

    /// Whether the kind is enabled.
    pub fn is_enabled(&self, kind: NamespaceKind) -> (enabled: bool)
        ensures
            enabled == self.enables(kind),
    {
        match kind {
            NamespaceKind::User => self.user,
            NamespaceKind::Network => self.network,
            NamespaceKind::Mount => self.mount,
            NamespaceKind::Pid => self.pid,
        }
    }
}

impl Default for NamespaceSetupConfig {
    /// All four kinds enabled.
    fn default() -> (config: Self)
        ensures
            config.user && config.network && config.mount && config.pid,
    {
        Self { user: true, network: true, mount: true, pid: true }
    }
}

/// Decides the units of work of one bring-up and judges their outcomes.
pub struct ParallelNamespaceSetup {
    config: NamespaceSetupConfig,
}

impl ParallelNamespaceSetup {
    /// The configuration the runner was made with.
    pub closed spec fn spec_config(&self) -> NamespaceSetupConfig {
        self.config
    }

    /// A runner for the given configuration.
    pub fn new(config: NamespaceSetupConfig) -> (setup: Self)
        ensures
            setup.spec_config() == config,
    {
        Self { config }
    }

    /// The current configuration.
    pub fn config(&self) -> (config: &NamespaceSetupConfig)
        ensures
            *config == self.spec_config(),
    {
        &self.config
    }

    /// The units of work to start: one per enabled kind, in the order user,
    /// network, mount, PID. A disabled kind has no unit.
    pub fn plan(&self) -> (kinds: Vec<NamespaceKind>)
        ensures
            kinds@ == self.spec_config().enabled_kinds(),
    {
        let mut kinds: Vec<NamespaceKind> = Vec::new();
        if self.config.user {
            kinds.push(NamespaceKind::User);
        }
        if self.config.network {
            kinds.push(NamespaceKind::Network);
        }
        if self.config.mount {
            kinds.push(NamespaceKind::Mount);
        }
        if self.config.pid {
            kinds.push(NamespaceKind::Pid);
        }
        assert(kinds@ =~= self.spec_config().enabled_kinds());
        kinds
    }

    /// An empty gathering point for the results of the enabled kinds.
    pub fn begin(&self) -> (fan_in: FanIn)
        ensures
            fan_in.config() == self.spec_config(),
            forall|kind: NamespaceKind| fan_in.slot(kind) is None,
    {
        FanIn { config: self.config, user: None, network: None, mount: None, pid: None }
    }

    /// Sets up the namespace of one kind and measures the time it took. The
    /// step is simulated and always succeeds; the duration is measured, and
    /// arbitrary.
    pub fn setup_namespace(&self, kind: NamespaceKind) -> (result: SetupResult)
        ensures
            result.kind == kind,
            result.success,
            result.message@ == kind.configured_message(),
    {
        let start = now();
        let outcome = Self::do_namespace_setup(kind);
        let duration = elapsed_since(&start);
        Self::judge(kind, duration, outcome)
    }

    /// The result of a unit of work that took `duration` and came back with
    /// `outcome`: a success with the unit's confirmation, or a failure with
    /// the description of what went wrong.
    pub fn judge(kind: NamespaceKind, duration: Duration, outcome: Result<String, SetupFailure>) -> (result:
        SetupResult)
        ensures
            result.kind == kind,
            result.duration == duration,
            result.success == (outcome is Ok),
            outcome matches Ok(text) ==> result.message@ == text@,
            outcome matches Err(failure) ==> result.message@ == failure.spec_message(),
    {
        match outcome {
            Ok(message) => SetupResult { kind, duration, success: true, message },
            Err(failure) => SetupResult { kind, duration, success: false, message: failure.message() },
        }
    }

    /// The setup step of one kind. It is simulated: it changes nothing and
    /// confirms the kind.
    pub fn do_namespace_setup(kind: NamespaceKind) -> (outcome: Result<String, SetupFailure>)
        ensures
            outcome matches Ok(text) && text@ == kind.configured_message(),
    {
        match kind {
            NamespaceKind::User => Ok(String::from_str("user namespace configured")),
            NamespaceKind::Network => Ok(String::from_str("network namespace configured")),
            NamespaceKind::Mount => Ok(String::from_str("mount namespace configured")),
            NamespaceKind::Pid => Ok(String::from_str("pid namespace configured")),
        }
    }
}

/// Gathers the results of the units of one bring-up. Each enabled kind is
/// recorded once; the report is handed out when all of them are there.
pub struct FanIn {
    config: NamespaceSetupConfig,
    user: Option<SetupResult>,
    network: Option<SetupResult>,
    mount: Option<SetupResult>,
    pid: Option<SetupResult>,
}

impl FanIn {
    /// The configuration of the bring-up.
    pub closed spec fn config(&self) -> NamespaceSetupConfig {
        self.config
    }

    /// The result recorded for the kind, if there is one.
    pub closed spec fn slot(&self, kind: NamespaceKind) -> Option<SetupResult> {
        match kind {
            NamespaceKind::User => self.user,
            NamespaceKind::Network => self.network,
            NamespaceKind::Mount => self.mount,
            NamespaceKind::Pid => self.pid,
        }
    }

    /// Results are recorded for enabled kinds only.
    pub open spec fn well_formed(&self) -> bool {
        forall|kind: NamespaceKind| #[trigger] self.slot(kind) is Some ==> self.config().enables(kind)
            && self.slot(kind).unwrap().kind == kind
    }

    /// Every enabled kind has its result.
    pub open spec fn complete(&self) -> bool {
        forall|kind: NamespaceKind| #[trigger] self.config().enables(kind) ==> self.slot(kind) is Some
    }

    /// Records the result of a unit. It is taken if its kind is enabled and
    /// has no result yet; otherwise it is dropped and nothing changes. The
    /// results of the other kinds are never touched.
    pub fn record(&mut self, result: SetupResult) -> (taken: bool)
        ensures
            taken == (old(self).config().enables(result.kind) && old(self).slot(result.kind) is None),
            final(self).config() == old(self).config(),
            forall|kind: NamespaceKind|
                #[trigger] final(self).slot(kind) == (if taken && kind == result.kind {
                    Some(result)
                } else {
                    old(self).slot(kind)
                }),
            old(self).well_formed() ==> final(self).well_formed(),
    {
        let ghost recorded = result;
        let taken = match result.kind {
            NamespaceKind::User => {
                if self.config.user && self.user.is_none() {
                    self.user = Some(result);
                    true
                } else {
                    false
                }
            },
            NamespaceKind::Network => {
                if self.config.network && self.network.is_none() {
                    self.network = Some(result);
                    true
                } else {
                    false
                }
            },
            NamespaceKind::Mount => {
                if self.config.mount && self.mount.is_none() {
                    self.mount = Some(result);
                    true
                } else {
                    false
                }
            },
            NamespaceKind::Pid => {
                if self.config.pid && self.pid.is_none() {
                    self.pid = Some(result);
                    true
                } else {
                    false
                }
            },
        };
        proof {
            if old(self).well_formed() {
                assert forall|kind: NamespaceKind| #[trigger] self.slot(kind) is Some implies self.config().enables(
                    kind,
                ) && self.slot(kind).unwrap().kind == kind by {
                    if !(taken && kind == recorded.kind) {
                        assert(old(self).slot(kind) is Some);
                    }
                }
            }
        }
        taken
    }

    /// Whether every enabled kind has its result.
    pub fn is_complete(&self) -> (done: bool)
        ensures
            done == self.complete(),
    {
        let done = (!self.config.user || self.user.is_some()) && (!self.config.network
            || self.network.is_some()) && (!self.config.mount || self.mount.is_some()) && (
        !self.config.pid || self.pid.is_some());
        proof {
            if done {
                assert forall|kind: NamespaceKind| #[trigger]
                    self.config().enables(kind) implies self.slot(kind) is Some by {}
            } else {
                if self.config.user && self.user.is_none() {
                    assert(self.config().enables(NamespaceKind::User));
                } else if self.config.network && self.network.is_none() {
                    assert(self.config().enables(NamespaceKind::Network));
                } else if self.config.mount && self.mount.is_none() {
                    assert(self.config().enables(NamespaceKind::Mount));
                } else {
                    assert(self.config().enables(NamespaceKind::Pid));
                }
            }
        }
        done
    }

    /// The report of the bring-up, once every enabled kind has its result:
    /// the recorded results in the order user, network, mount, PID, with the
    /// given total duration. While a result is missing there is no report.
    pub fn finish(self, total_duration: Duration) -> (report: Option<ParallelSetupReport>)
        ensures
            report is Some == self.complete(),
            report matches Some(r) ==> {
                &&& r.total_duration == total_duration
                &&& r.results@ == gathered(
                    self.slot(NamespaceKind::User),
                    self.slot(NamespaceKind::Network),
                    self.slot(NamespaceKind::Mount),
                    self.slot(NamespaceKind::Pid),
                )
            },
    {
        if self.is_complete() {
            Some(ParallelSetupReport::collect(self.user, self.network, self.mount, self.pid, total_duration))
        } else {
            None
        }
    }
}

/// A report holds exactly one result per enabled kind, of that kind, in the
/// order in which the kinds are enabled: enabling K of the four kinds gives
/// K results.
pub proof fn lemma_one_result_per_enabled_kind(fan_in: FanIn)
    requires
        fan_in.well_formed(),
        fan_in.complete(),
    ensures
        ({
            let results = gathered(
                fan_in.slot(NamespaceKind::User),
                fan_in.slot(NamespaceKind::Network),
                fan_in.slot(NamespaceKind::Mount),
                fan_in.slot(NamespaceKind::Pid),
            );
            &&& results.len() == fan_in.config().enabled_count()
            &&& results.map_values(|r: SetupResult| r.kind) == fan_in.config().enabled_kinds()
            &&& forall|i: int|
                0 <= i < results.len() ==> Some(#[trigger] results[i]) == fan_in.slot(results[i].kind)
        }),
{
    let config = fan_in.config();
    let results = gathered(
        fan_in.slot(NamespaceKind::User),
        fan_in.slot(NamespaceKind::Network),
        fan_in.slot(NamespaceKind::Mount),
        fan_in.slot(NamespaceKind::Pid),
    );
    assert(config.enables(NamespaceKind::User) == fan_in.slot(NamespaceKind::User) is Some);
    assert(config.enables(NamespaceKind::Network) == fan_in.slot(NamespaceKind::Network) is Some);
    assert(config.enables(NamespaceKind::Mount) == fan_in.slot(NamespaceKind::Mount) is Some);
    assert(config.enables(NamespaceKind::Pid) == fan_in.slot(NamespaceKind::Pid) is Some);
    assert(results.map_values(|r: SetupResult| r.kind) =~= config.enabled_kinds());
}

/// With every kind disabled the bring-up is complete from the start, and its
/// report is empty and counts as a success.
pub proof fn lemma_nothing_enabled(fan_in: FanIn, report: ParallelSetupReport)
    requires
        fan_in.well_formed(),
        !fan_in.config().user,
        !fan_in.config().network,
        !fan_in.config().mount,
        !fan_in.config().pid,
        report.results@ == gathered(
            fan_in.slot(NamespaceKind::User),
            fan_in.slot(NamespaceKind::Network),
            fan_in.slot(NamespaceKind::Mount),
            fan_in.slot(NamespaceKind::Pid),
        ),
    ensures
        fan_in.complete(),
        report.results@.len() == 0,
        report.spec_all_succeeded(),
        fan_in.config().enabled_count() == 0,
{
    assert(fan_in.slot(NamespaceKind::User) is None);
    assert(fan_in.slot(NamespaceKind::Network) is None);
    assert(fan_in.slot(NamespaceKind::Mount) is None);
    assert(fan_in.slot(NamespaceKind::Pid) is None);
    assert forall|kind: NamespaceKind| #[trigger] fan_in.config().enables(kind) implies fan_in.slot(
        kind,
    ) is Some by {}
}

} // verus!
