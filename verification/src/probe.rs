//! The OS probe: trusted wrappers around sysinfo's live reads.
//!
//! Each probe opens its own fresh handle, refreshes it and reads it, so no
//! snapshot state is shared or retained across calls. The values returned
//! are whatever the OS reports at that instant, so no wrapper promises
//! anything of them; every function of the library that consumes a probe's
//! result is verified for every value it could hand back.
use vstd::prelude::*;
use crate::disk::DiskSample;
use crate::metrics::MemSample;
use crate::metrics::NetSample;
use crate::process::ProcessSample;

verus! {

/// Relies on sysinfo's `System::new` plus `refresh_all` for a fresh
/// snapshot and `System::processes` for the process table; each entry is
/// converted to plain counters through `Pid::as_u32`, `Process::name`,
/// `Process::cpu_usage` (rendered to two decimals), `Process::memory` and
/// `Process::disk_usage`.
#[verifier::external_body]
pub(crate) fn probe_processes() -> Vec<ProcessSample> {
    let mut sys = sysinfo::System::new();
    sys.refresh_all();
    let mut v = Vec::new();
    for (pid, p) in sys.processes() {
        let du = p.disk_usage();
        v.push(ProcessSample {
            pid: pid.as_u32() as u64,
            name: p.name().to_string_lossy().into_owned(),
            cpu: format!("{:.2}", p.cpu_usage()),
            memory_bytes: p.memory(),
            disk_read_bytes: du.read_bytes,
            disk_write_bytes: du.written_bytes,
        });
    }
    v
}

/// Relies on sysinfo's `System::processes().get`, which after `refresh_all`
/// is `Some` exactly for the ids in the fresh process table, and on
/// `Process::kill`, which sends the kill signal and reports whether the OS
/// accepted it.
#[verifier::external_body]
pub(crate) fn probe_kill(id: usize) -> Option<bool> {
    let mut sys = sysinfo::System::new();
    sys.refresh_all();
    sys.processes().get(&sysinfo::Pid::from(id)).map(|p| p.kill())
}

/// Relies on sysinfo's `Disks::new_with_refreshed_list` and the per-disk
/// accessors `name`, `mount_point`, `file_system`, `total_space` and
/// `available_space`.
#[verifier::external_body]
pub(crate) fn probe_disks() -> Vec<DiskSample> {
    let disks = sysinfo::Disks::new_with_refreshed_list();
    let mut v = Vec::new();
    for d in disks.list() {
        v.push(DiskSample {
            device: d.name().to_string_lossy().into_owned(),
            mount_point: d.mount_point().to_string_lossy().into_owned(),
            filesystem_type: d.file_system().to_string_lossy().into_owned(),
            total: d.total_space(),
            available: d.available_space(),
        });
    }
    v
}

/// Relies on sysinfo's `System::new` plus `refresh_all` and the memory,
/// swap and CPU accessors `used_memory`, `total_memory`, `free_memory`,
/// `used_swap`, `total_swap`, `free_swap` and `Cpu::cpu_usage` (rendered
/// to two decimals), all byte counts.
#[verifier::external_body]
pub(crate) fn probe_memory() -> MemSample {
    let mut sys = sysinfo::System::new();
    sys.refresh_all();
    MemSample {
        cpus: sys.cpus().iter().map(|c| format!("{:.2}", c.cpu_usage())).collect(),
        used_memory: sys.used_memory(),
        total_memory: sys.total_memory(),
        free_memory: sys.free_memory(),
        used_swap: sys.used_swap(),
        total_swap: sys.total_swap(),
        free_swap: sys.free_swap(),
    }
}

/// Relies on sysinfo's `Networks::new_with_refreshed_list` and the
/// per-interface counters `received`, `total_received`, `transmitted` and
/// `total_transmitted`, all byte counts.
#[verifier::external_body]
pub(crate) fn probe_networks() -> Vec<NetSample> {
    let nets = sysinfo::Networks::new_with_refreshed_list();
    let mut v = Vec::new();
    for (_name, data) in nets.list() {
        v.push(NetSample {
            received: data.received(),
            total_received: data.total_received(),
            transmitted: data.transmitted(),
            total_transmitted: data.total_transmitted(),
        });
    }
    v
}

/// Relies on sysinfo's `System::name`: the platform's name ("Ubuntu",
/// "Windows", "Darwin"), or `None` where the platform cannot tell.
#[verifier::external_body]
pub(crate) fn probe_os_name() -> Option<String> {
    sysinfo::System::name()
}

} // verus!
