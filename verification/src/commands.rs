//! The command dispatcher: the five operations the core exposes to its
//! caller. Each call obtains its own fresh OS snapshot through the probe,
//! shapes it with the verified builders, and returns a plain record; no
//! state is retained between calls, and the one write the core can perform
//! is the kill signal.
use vstd::prelude::*;
use vstd::string::*;
use crate::disk::DiskRecord;
use crate::disk::DiskSampleView;
use crate::disk::build_disk_records;
use crate::disk::disk_pipeline;
use crate::disk::disk_record_views;
use crate::disk::disk_sample_views;
use crate::metrics::MemSampleView;
use crate::metrics::NetSampleView;
use crate::metrics::SystemMetrics;
use crate::metrics::build_metrics;
use crate::metrics::metrics_of;
use crate::metrics::net_views;
use crate::probe::probe_disks;
use crate::probe::probe_kill;
use crate::probe::probe_memory;
use crate::probe::probe_networks;
use crate::probe::probe_os_name;
use crate::probe::probe_processes;
use crate::process::ProcessRecord;
use crate::process::ProcessSampleView;
use crate::process::build_process_records;
use crate::process::keep_record;
use crate::process::lemma_pipeline_filtered;
use crate::process::lemma_pipeline_sorted;
use crate::process::opt_view;
use crate::process::process_pipeline;
use crate::process::record_views;
use crate::process::sample_views;
use crate::process::sorted_by_name;

verus! {

/// The static platform identity handed to the caller.
#[derive(Clone, Debug, PartialEq, Eq)]
pub struct OsInfo {
    /// The platform's name.
    pub name: String,
}

/// The two views the presentation layer can ask the dispatcher to serve:
/// the process listing and the disk listing.
#[derive(Clone, Copy, PartialEq, Eq, Structural, Debug)]
pub enum Route {
    /// The process listing view.
    Processes,
    /// The disk listing view.
    FileSystems,
}

/// The three-way outcome of a kill request: the signal was sent and
/// acknowledged, sent but not acknowledged, or there was nothing to kill.
#[derive(Clone, Copy, PartialEq, Eq, Structural, Debug)]
pub enum KillOutcome {
    /// The OS confirmed the signal was delivered.
    Confirmed,
    /// The signal was sent, but the OS did not confirm it.
    Unconfirmed,
    /// No process with that id existed at call time: nothing to kill.
    Absent,
}

/// The outcome a raw probe answer maps to: `None` means the target was
/// absent from the fresh process table, and is not a failure.
pub open spec fn kill_outcome_of(r: Option<bool>) -> KillOutcome {
    match r {
        Option::None => KillOutcome::Absent,
        Option::Some(true) => KillOutcome::Confirmed,
        Option::Some(false) => KillOutcome::Unconfirmed,
    }
}

/// Maps the probe's raw kill answer to its three-way outcome: an id absent
/// from the snapshot gives `Absent`, never `Unconfirmed`.
pub fn kill_outcome(r: Option<bool>) -> (k: KillOutcome)
    ensures
        k == kill_outcome_of(r),
{
    match r {
        Option::None => KillOutcome::Absent,
        Option::Some(true) => KillOutcome::Confirmed,
        Option::Some(false) => KillOutcome::Unconfirmed,
    }
}

/// The platform name the caller sees: the probe's answer, or "unknown"
/// where the platform cannot tell or reports an empty name.
pub open spec fn os_name_of(n: Option<Seq<char>>) -> Seq<char> {
    match n {
        Option::Some(s) => if s.len() == 0 {
            "unknown"@
        } else {
            s
        },
        Option::None => "unknown"@,
    }
}

/// Builds the platform identity record from the probe's answer; the name
/// is never empty.
pub fn os_info_from(name: Option<String>) -> (r: OsInfo)
    ensures
        r.name@ == os_name_of(opt_view(name)),
        r.name@.len() > 0,
{
    proof {
        reveal_strlit("unknown");
    }
    match name {
        Option::Some(s) => {
            if s.as_str().is_empty() {
                OsInfo { name: String::from_str("unknown") }
            } else {
                OsInfo { name: s }
            }
        },
        Option::None => OsInfo { name: String::from_str("unknown") },
    }
}

/// Returns the platform identity. Never fails, and the name is never
/// empty: where the platform cannot tell its name, or reports an empty
/// one, the record says "unknown". The value itself is whatever the OS
/// reports, mapped through `os_name_of`.
pub fn os_info() -> (r: OsInfo)
    ensures
        exists|n: Option<Seq<char>>| r.name@ == os_name_of(n),
        r.name@.len() > 0,
{
    let n = probe_os_name();
    let ghost nv = opt_view(n);
    let r = os_info_from(n);
    proof {
        assert(r.name@ == os_name_of(nv));
    }
    r
}

/// Lists the live processes: one record per process in a fresh snapshot,
/// restricted to names starting with the given prefix if one is given,
/// sorted ascending by name with ties kept in snapshot order. The result
/// is exactly `process_pipeline` applied to some snapshot; an unavailable
/// probe degrades to the empty snapshot, never to a failure.
pub fn process_info(name: Option<String>) -> (r: Vec<ProcessRecord>)
    ensures
        sorted_by_name(record_views(r@)),
        forall|i: int|
            0 <= i < r@.len() ==> keep_record(#[trigger] record_views(r@)[i], opt_view(name)),
        exists|snapshot: Seq<ProcessSampleView>|
            record_views(r@) == process_pipeline(snapshot, opt_view(name)),
{
    let samples = probe_processes();
    let ghost svs = sample_views(samples@);
    let r = build_process_records(samples, &name);
    proof {
        lemma_pipeline_sorted(svs, opt_view(name));
        lemma_pipeline_filtered(svs, opt_view(name));
        assert(record_views(r@) == process_pipeline(svs, opt_view(name)));
    }
    r
}

/// Terminates the process with the given id, best effort: the target is
/// looked up in a freshly refreshed process table, so a stale entry cannot
/// be signalled; an id with no live process gives `Absent`, a no-op. The
/// outcome is the OS's raw answer mapped through `kill_outcome_of`, as
/// the contract states; which answer comes back is the OS's decision, so
/// nothing more is promised of it.
pub fn kill_process(id: usize) -> (k: KillOutcome)
    ensures
        exists|raw: Option<bool>| k == kill_outcome_of(raw),
{
    let r = probe_kill(id);
    let outcome = kill_outcome(r);
    proof {
        assert(outcome == kill_outcome_of(r));
    }
    outcome
}

/// Lists the mounted disks: one record per disk in a fresh snapshot, in
/// enumeration order, each rendered by `disk_record_of` — space figures
/// computed on raw bytes, then formatted. An unavailable probe degrades to
/// the empty listing, never to a failure.
pub fn file_systems() -> (r: Vec<DiskRecord>)
    ensures
        exists|snapshot: Seq<DiskSampleView>| disk_record_views(r@) == disk_pipeline(snapshot),
{
    let samples = probe_disks();
    let ghost svs = disk_sample_views(samples@);
    let r = build_disk_records(samples);
    proof {
        assert(disk_record_views(r@) == disk_pipeline(svs));
    }
    r
}

/// Returns one metrics record over a fresh snapshot: memory and swap
/// figures rendered as magnitudes, per-CPU load in CPU order, network
/// counters summed over all interfaces with saturating addition. The
/// result is exactly `metrics_of` applied to some snapshot; a failed
/// sub-probe degrades to zeroed counters, never to a failure.
pub fn get_metrics() -> (r: SystemMetrics)
    ensures
        exists|m: MemSampleView, nets: Seq<NetSampleView>| r@ == metrics_of(m, nets),
{
    let mem = probe_memory();
    let nets = probe_networks();
    let ghost mv = mem@;
    let ghost nv = net_views(nets@);
    let r = build_metrics(mem, nets);
    proof {
        assert(r@ == metrics_of(mv, nv));
    }
    r
}

} // verus!
