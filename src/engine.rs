//! The per-cycle evaluation: memory is level-triggered, CPU goes through an
//! arm/confirm hysteresis kept in the status store.
//!
//! Percentages are whole basis points (hundredths of a percent), so that
//! every comparison is exact.
use vstd::prelude::*;

use crate::message::{
    cpu_error_banner, cpu_error_message, cpu_warn_banner, cpu_warn_message,
    memory_error_banner, memory_error_message, memory_warn_banner, memory_warn_message, Report,
    Severity,
};
use crate::status::{read_spec, Status, StatusError, StatusStore};

verus! {

/// One cycle's point-in-time reading. Memory figures are in bytes.
#[derive(Clone, Copy, Debug, PartialEq, Eq, Structural)]
pub struct Snapshot {
    pub total_memory: u64,
    pub used_memory: u64,
    pub free_memory: u64,
    pub available_memory: u64,
    pub logical_cpus: usize,
    /// Aggregate CPU usage across all logical cores, in basis points.
    pub cpu_usage: u64,
}

/// Warn and error thresholds, in basis points. A warn threshold is meant to
/// lie at or below its error threshold; nothing here enforces it.
#[derive(Clone, Copy, Debug, PartialEq, Eq, Structural)]
pub struct Thresholds {
    pub memory_warn: u64,
    pub memory_error: u64,
    pub cpu_warn: u64,
    pub cpu_error: u64,
}

/// What a cycle may report.
#[derive(Clone, Copy, Debug, PartialEq, Eq, Structural)]
pub enum Alert {
    MemoryError,
    MemoryWarn,
    CpuError,
    CpuWarn,
    /// The plain main block, sent on a heartbeat cycle.
    Heartbeat,
}

/// The reports of one cycle and the status it leaves behind.
#[derive(Debug)]
pub struct Decision {
    pub alerts: Vec<Alert>,
    pub next: Status,
}

/// Used memory as a share of total, in basis points, rounded down; zero when
/// there is no memory at all.
pub open spec fn memory_percent_spec(used: int, total: int) -> int {
    if total == 0 {
        0
    } else {
        (used * 10000) / total
    }
}

/// The memory report of a cycle, if any: the status plays no part.
pub open spec fn memory_alert(s: Snapshot, t: Thresholds) -> Option<Alert> {
    let p = memory_percent_spec(s.used_memory as int, s.total_memory as int);
    if p >= t.memory_error {
        Some(Alert::MemoryError)
    } else if p >= t.memory_warn {
        Some(Alert::MemoryWarn)
    } else {
        None
    }
}

/// The CPU report of a cycle, if any. A tier reports only when the previous
/// cycle already stood in it; below both tiers the heartbeat flag decides.
pub open spec fn cpu_alert(prev: Status, cpu: u64, t: Thresholds, heartbeat: bool) -> Option<
    Alert,
> {
    if cpu >= t.cpu_error {
        if prev == Status::CpuError {
            Some(Alert::CpuError)
        } else {
            None
        }
    } else if cpu >= t.cpu_warn {
        if prev == Status::CpuWarn {
            Some(Alert::CpuWarn)
        } else {
            None
        }
    } else if heartbeat {
        Some(Alert::Heartbeat)
    } else {
        None
    }
}

/// The status that a cycle leaves behind: the tier that CPU stands in.
pub open spec fn cycle_status(cpu: u64, t: Thresholds) -> Status {
    if cpu >= t.cpu_error {
        Status::CpuError
    } else if cpu >= t.cpu_warn {
        Status::CpuWarn
    } else {
        Status::Clean
    }
}

/// No report, or one.
pub open spec fn opt_seq(o: Option<Alert>) -> Seq<Alert> {
    match o {
        Some(a) => seq![a],
        None => Seq::empty(),
    }
}

/// All reports of a cycle, memory first.
pub open spec fn cycle_alerts(prev: Status, s: Snapshot, t: Thresholds, heartbeat: bool) -> Seq<
    Alert,
> {
    opt_seq(memory_alert(s, t)) + opt_seq(cpu_alert(prev, s.cpu_usage, t, heartbeat))
}

pub open spec fn severity_of(a: Alert) -> Severity {
    match a {
        Alert::MemoryError | Alert::CpuError => Severity::Error,
        Alert::MemoryWarn | Alert::CpuWarn => Severity::Warn,
        Alert::Heartbeat => Severity::Info,
    }
}

pub open spec fn banner_of(a: Alert) -> Seq<char> {
    match a {
        Alert::MemoryError => memory_error_banner(),
        Alert::CpuError => cpu_error_banner(),
        Alert::MemoryWarn => memory_warn_banner(),
        Alert::CpuWarn => cpu_warn_banner(),
        Alert::Heartbeat => Seq::empty(),
    }
}

/// The reports say, in order, what the alerts call for, each around the
/// same main block.
pub open spec fn renders(reports: Seq<Report>, alerts: Seq<Alert>, main: Seq<char>) -> bool {
    &&& reports.len() == alerts.len()
    &&& forall|i: int|
        0 <= i < alerts.len() ==> {
            &&& (#[trigger] reports[i]).severity == severity_of(alerts[i])
            &&& reports[i].text@ == banner_of(alerts[i]) + main
        }
}

/// Used memory as a share of total, in basis points, rounded down; zero when
/// `total` is zero.
pub fn memory_percent(used: u64, total: u64) -> (r: u128)
    ensures
        r == memory_percent_spec(used as int, total as int),
        total == 0 ==> r == 0,
{
    if total == 0 {
        0
    } else {
        (used as u128 * 10000) / (total as u128)
    }
}

/// Classifies one snapshot: the memory report, then the CPU report or the
/// heartbeat, and the status to keep for the next cycle.
pub fn decide(prev: Status, snapshot: &Snapshot, thresholds: &Thresholds, heartbeat: bool) -> (d:
    Decision)
    ensures
        d.alerts@ == cycle_alerts(prev, *snapshot, *thresholds, heartbeat),
        d.next == cycle_status(snapshot.cpu_usage, *thresholds),
{
    let mut alerts: Vec<Alert> = Vec::new();
    let p = memory_percent(snapshot.used_memory, snapshot.total_memory);
    if p >= thresholds.memory_error as u128 {
        alerts.push(Alert::MemoryError);
    } else if p >= thresholds.memory_warn as u128 {
        alerts.push(Alert::MemoryWarn);
    }
    let ghost memory_part = alerts@;
    assert(memory_part == opt_seq(memory_alert(*snapshot, *thresholds)));

    let cpu = snapshot.cpu_usage;
    let next = if cpu >= thresholds.cpu_error {
        if prev == Status::CpuError {
            alerts.push(Alert::CpuError);
        }
        Status::CpuError
    } else if cpu >= thresholds.cpu_warn {
        if prev == Status::CpuWarn {
            alerts.push(Alert::CpuWarn);
        }
        Status::CpuWarn
    } else {
        if heartbeat {
            alerts.push(Alert::Heartbeat);
        }
        Status::Clean
    };
    assert(alerts@ =~= cycle_alerts(prev, *snapshot, *thresholds, heartbeat));
    Decision { alerts, next }
}

/// Wraps the main block for one alert: its banner, at its severity.
pub fn render(alert: Alert, main_message: &str) -> (r: Report)
    ensures
        r.severity == severity_of(alert),
        r.text@ == banner_of(alert) + main_message@,
{
    match alert {
        Alert::MemoryError => Report {
            severity: Severity::Error,
            text: memory_error_message(main_message),
        },
        Alert::CpuError => Report { severity: Severity::Error, text: cpu_error_message(main_message) },
        Alert::MemoryWarn => Report { severity: Severity::Warn, text: memory_warn_message(main_message) },
        Alert::CpuWarn => Report { severity: Severity::Warn, text: cpu_warn_message(main_message) },
        Alert::Heartbeat => {
            let text = String::from_str(main_message);
            assert(banner_of(alert) + main_message@ =~= main_message@);
            Report { severity: Severity::Info, text }
        },
    }
}

/// Runs one cycle against the status store: reads the prior status, decides,
/// writes the new status once and returns the reports, memory first.
///
/// Fails, leaving the store as it is and reporting nothing, when the store
/// is not set up or is poisoned.
pub fn evaluate(
    store: &mut StatusStore,
    snapshot: &Snapshot,
    thresholds: &Thresholds,
    heartbeat: bool,
    main_message: &str,
) -> (r: Result<Vec<Report>, StatusError>)
    ensures
        match read_spec(*old(store)) {
            Err(e) => r == Err::<Vec<Report>, StatusError>(e) && *final(store) == *old(store),
            Ok(prev) => {
                &&& r is Ok
                &&& renders(
                    r->Ok_0@,
                    cycle_alerts(prev, *snapshot, *thresholds, heartbeat),
                    main_message@,
                )
                &&& *final(store) == StatusStore::Ready(
                    cycle_status(snapshot.cpu_usage, *thresholds),
                )
            },
        },
{
    let prev = match Status::get(store) {
        Ok(s) => s,
        Err(e) => return Err(e),
    };
    let decision = decide(prev, snapshot, thresholds, heartbeat);
    let mut reports: Vec<Report> = Vec::new();
    let n = decision.alerts.len();
    let mut i: usize = 0;
    while i < n
        invariant
            n == decision.alerts@.len(),
            i <= n,
            renders(reports@, decision.alerts@.subrange(0, i as int), main_message@),
        decreases n - i,
    {
        let report = render(decision.alerts[i], main_message);
        reports.push(report);
        i = i + 1;
        assert(decision.alerts@.subrange(0, i as int).drop_last() =~= decision.alerts@.subrange(
            0,
            i - 1,
        ));
    }
    assert(decision.alerts@.subrange(0, n as int) =~= decision.alerts@);
    match Status::set(store, decision.next) {
        Ok(()) => Ok(reports),
        Err(e) => Err(e),
    }
}

} // verus!
