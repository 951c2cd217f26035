//! Properties of the cycle that hold for every input, proved over the
//! spec functions that `decide` and `evaluate` are bound to.
use vstd::prelude::*;

use crate::engine::{
    cpu_alert, cycle_alerts, cycle_status, memory_alert, memory_percent_spec, opt_seq, Alert,
    Snapshot, Thresholds,
};
use crate::status::Status;

verus! {

/// Whether a cycle's reports hold a CPU alert.
pub open spec fn has_cpu_alert(alerts: Seq<Alert>) -> bool {
    exists|i: int|
        0 <= i < alerts.len() && (#[trigger] alerts[i] == Alert::CpuError || alerts[i]
            == Alert::CpuWarn)
}

/// How many heartbeats a cycle's reports hold.
pub open spec fn heartbeat_count(alerts: Seq<Alert>) -> nat {
    alerts.filter(|a: Alert| a == Alert::Heartbeat).len()
}

proof fn lemma_memory_part_has_no_cpu_or_heartbeat(s: Snapshot, t: Thresholds)
    ensures
        forall|i: int|
            0 <= i < opt_seq(memory_alert(s, t)).len() ==> {
                let a = #[trigger] opt_seq(memory_alert(s, t))[i];
                a == Alert::MemoryError || a == Alert::MemoryWarn
            },
{
}

/// Memory is level-triggered: whenever used memory is at or above the error
/// threshold, the cycle's first report is the critical memory one, whatever
/// the prior status and the heartbeat flag.
pub proof fn memory_error_reported_every_cycle(
    prev: Status,
    s: Snapshot,
    t: Thresholds,
    heartbeat: bool,
)
    requires
        memory_percent_spec(s.used_memory as int, s.total_memory as int) >= t.memory_error,
    ensures
        cycle_alerts(prev, s, t, heartbeat).len() >= 1,
        cycle_alerts(prev, s, t, heartbeat)[0] == Alert::MemoryError,
{
}

/// Two consecutive cycles at or above the CPU error threshold, starting
/// clean: the first only arms `CpuError` and reports nothing on CPU; the
/// second reports exactly one critical CPU alert and keeps `CpuError`.
pub proof fn cpu_error_confirmed_on_second_breach(
    s1: Snapshot,
    s2: Snapshot,
    t: Thresholds,
    heartbeat1: bool,
    heartbeat2: bool,
)
    requires
        s1.cpu_usage >= t.cpu_error,
        s2.cpu_usage >= t.cpu_error,
    ensures
        cpu_alert(Status::Clean, s1.cpu_usage, t, heartbeat1) is None,
        !has_cpu_alert(cycle_alerts(Status::Clean, s1, t, heartbeat1)),
        cycle_status(s1.cpu_usage, t) == Status::CpuError,
        cycle_alerts(Status::CpuError, s2, t, heartbeat2) == opt_seq(memory_alert(s2, t)).push(
            Alert::CpuError,
        ),
        cycle_status(s2.cpu_usage, t) == Status::CpuError,
{
    lemma_memory_part_has_no_cpu_or_heartbeat(s1, t);
    let a = cycle_alerts(Status::Clean, s1, t, heartbeat1);
    assert(a =~= opt_seq(memory_alert(s1, t)));
    assert(cycle_alerts(Status::CpuError, s2, t, heartbeat2) =~= opt_seq(memory_alert(s2, t)).push(
        Alert::CpuError,
    ));
}

/// After a cycle at or above the CPU error threshold, a cycle below the warn
/// threshold resets the status to `Clean` and reports nothing on CPU; the
/// heartbeat, if asked for, is its one report past memory.
pub proof fn drop_below_warn_resets(s1: Snapshot, s2: Snapshot, t: Thresholds, heartbeat2: bool)
    requires
        t.cpu_warn <= t.cpu_error,
        s1.cpu_usage >= t.cpu_error,
        s2.cpu_usage < t.cpu_warn,
    ensures
        cycle_status(s1.cpu_usage, t) == Status::CpuError,
        cycle_status(s2.cpu_usage, t) == Status::Clean,
        !has_cpu_alert(cycle_alerts(cycle_status(s1.cpu_usage, t), s2, t, heartbeat2)),
        cycle_alerts(cycle_status(s1.cpu_usage, t), s2, t, heartbeat2) == (if heartbeat2 {
            opt_seq(memory_alert(s2, t)).push(Alert::Heartbeat)
        } else {
            opt_seq(memory_alert(s2, t))
        }),
{
    lemma_memory_part_has_no_cpu_or_heartbeat(s2, t);
    let a = cycle_alerts(Status::CpuError, s2, t, heartbeat2);
    if heartbeat2 {
        assert(a =~= opt_seq(memory_alert(s2, t)).push(Alert::Heartbeat));
    } else {
        assert(a =~= opt_seq(memory_alert(s2, t)));
    }
}

/// A warn-tier cycle followed by an error-tier cycle reports no CPU alert in
/// either, when the first is not itself a second warn-tier cycle: each
/// change of tier arms afresh.
pub proof fn tier_change_arms_afresh(
    prev: Status,
    s1: Snapshot,
    s2: Snapshot,
    t: Thresholds,
    heartbeat1: bool,
    heartbeat2: bool,
)
    requires
        prev != Status::CpuWarn,
        t.cpu_warn <= s1.cpu_usage < t.cpu_error,
        s2.cpu_usage >= t.cpu_error,
    ensures
        !has_cpu_alert(cycle_alerts(prev, s1, t, heartbeat1)),
        cycle_status(s1.cpu_usage, t) == Status::CpuWarn,
        !has_cpu_alert(cycle_alerts(cycle_status(s1.cpu_usage, t), s2, t, heartbeat2)),
        cycle_status(s2.cpu_usage, t) == Status::CpuError,
{
    lemma_memory_part_has_no_cpu_or_heartbeat(s1, t);
    lemma_memory_part_has_no_cpu_or_heartbeat(s2, t);
    assert(cycle_alerts(prev, s1, t, heartbeat1) =~= opt_seq(memory_alert(s1, t)));
    assert(cycle_alerts(Status::CpuWarn, s2, t, heartbeat2) =~= opt_seq(memory_alert(s2, t)));
}

/// A heartbeat cycle with CPU below both thresholds reports exactly one
/// heartbeat, after the memory report if any, and leaves `Clean`, whatever
/// the prior status.
pub proof fn heartbeat_below_thresholds(prev: Status, s: Snapshot, t: Thresholds)
    requires
        s.cpu_usage < t.cpu_warn,
        s.cpu_usage < t.cpu_error,
    ensures
        cycle_alerts(prev, s, t, true) == opt_seq(memory_alert(s, t)).push(Alert::Heartbeat),
        heartbeat_count(cycle_alerts(prev, s, t, true)) == 1,
        cycle_status(s.cpu_usage, t) == Status::Clean,
{
    let m = opt_seq(memory_alert(s, t));
    let a = cycle_alerts(prev, s, t, true);
    assert(a =~= m.push(Alert::Heartbeat));
    let f = |x: Alert| x == Alert::Heartbeat;
    let e = Seq::<Alert>::empty();
    e.lemma_filter_len(f);
    if let Some(x) = memory_alert(s, t) {
        assert(m =~= e.push(x));
        e.lemma_filter_len_push(f, x);
    } else {
        assert(m =~= e);
    }
    m.lemma_filter_len_push(f, Alert::Heartbeat);
}

} // verus!
