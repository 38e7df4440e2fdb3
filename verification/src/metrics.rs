//! Shaping memory, swap, CPU and network counters into one metrics record.
//!
//! Memory and swap figures are rendered as magnitude strings; network
//! counters are summed over all interfaces with saturating addition, so an
//! absurd pair of counters cannot bring the dispatcher down. Per-CPU load,
//! a fractional percentage the verified core cannot hold as a number, is
//! carried through as the strings the probe rendered.
use vstd::prelude::*;
use crate::magnitude::format_memory_size;
use crate::magnitude::format_spec;
use crate::magnitude::lemma_magnitude_rounding_error;
use crate::magnitude::magnitude_hundredths;
use crate::magnitude::unit_div;

verus! {

/// Memory, swap and per-CPU counters as the probe sampled them.
#[derive(Clone, Debug)]
pub struct MemSample {
    /// Per-CPU load in percent, pre-rendered by the probe, in CPU order.
    pub cpus: Vec<String>,
    /// Used RAM in bytes.
    pub used_memory: u64,
    /// Total RAM in bytes.
    pub total_memory: u64,
    /// Free RAM in bytes.
    pub free_memory: u64,
    /// Used swap in bytes.
    pub used_swap: u64,
    /// Total swap in bytes.
    pub total_swap: u64,
    /// Free swap in bytes.
    pub free_swap: u64,
}

/// The mathematical value of a `MemSample`.
pub ghost struct MemSampleView {
    pub cpus: Seq<Seq<char>>,
    pub used_memory: nat,
    pub total_memory: nat,
    pub free_memory: nat,
    pub used_swap: nat,
    pub total_swap: nat,
    pub free_swap: nat,
}

impl View for MemSample {
    type V = MemSampleView;

    open spec fn view(&self) -> MemSampleView {
        MemSampleView {
            cpus: self.cpus@.map_values(|c: String| c@),
            used_memory: self.used_memory as nat,
            total_memory: self.total_memory as nat,
            free_memory: self.free_memory as nat,
            used_swap: self.used_swap as nat,
            total_swap: self.total_swap as nat,
            free_swap: self.free_swap as nat,
        }
    }
}

/// One network interface's counters as the probe sampled them.
#[derive(Clone, Copy, Debug)]
pub struct NetSample {
    /// Bytes received since the previous OS-level sample.
    pub received: u64,
    /// Bytes received since boot or interface reset.
    pub total_received: u64,
    /// Bytes transmitted since the previous OS-level sample.
    pub transmitted: u64,
    /// Bytes transmitted since boot or interface reset.
    pub total_transmitted: u64,
}

/// The mathematical value of a `NetSample`.
pub ghost struct NetSampleView {
    pub received: nat,
    pub total_received: nat,
    pub transmitted: nat,
    pub total_transmitted: nat,
}

impl View for NetSample {
    type V = NetSampleView;

    open spec fn view(&self) -> NetSampleView {
        NetSampleView {
            received: self.received as nat,
            total_received: self.total_received as nat,
            transmitted: self.transmitted as nat,
            total_transmitted: self.total_transmitted as nat,
        }
    }
}

/// One system metrics record, as handed to the caller.
#[derive(Clone, Debug, PartialEq, Eq)]
pub struct SystemMetrics {
    /// Per-CPU load in percent, as the probe rendered it, in CPU order.
    pub per_cpu_usage: Vec<String>,
    /// Used RAM, rendered.
    pub used_memory: String,
    /// Total RAM, rendered.
    pub total_memory: String,
    /// Free RAM, rendered.
    pub free_memory: String,
    /// Used swap, rendered.
    pub used_swap: String,
    /// Total swap, rendered.
    pub total_swap: String,
    /// Free swap, rendered.
    pub free_swap: String,
    /// Bytes received over all interfaces since the previous OS-level sample.
    pub bytes_received: u64,
    /// Bytes received over all interfaces since boot or interface reset.
    pub total_bytes_received: u64,
    /// Bytes transmitted over all interfaces since the previous OS-level sample.
    pub bytes_transmitted: u64,
    /// Bytes transmitted over all interfaces since boot or interface reset.
    pub total_bytes_transmitted: u64,
}

/// The mathematical value of a `SystemMetrics`.
pub ghost struct SystemMetricsView {
    pub per_cpu_usage: Seq<Seq<char>>,
    pub used_memory: Seq<char>,
    pub total_memory: Seq<char>,
    pub free_memory: Seq<char>,
    pub used_swap: Seq<char>,
    pub total_swap: Seq<char>,
    pub free_swap: Seq<char>,
    pub bytes_received: nat,
    pub total_bytes_received: nat,
    pub bytes_transmitted: nat,
    pub total_bytes_transmitted: nat,
}

impl View for SystemMetrics {
    type V = SystemMetricsView;

    open spec fn view(&self) -> SystemMetricsView {
        SystemMetricsView {
            per_cpu_usage: self.per_cpu_usage@.map_values(|c: String| c@),
            used_memory: self.used_memory@,
            total_memory: self.total_memory@,
            free_memory: self.free_memory@,
            used_swap: self.used_swap@,
            total_swap: self.total_swap@,
            free_swap: self.free_swap@,
            bytes_received: self.bytes_received as nat,
            total_bytes_received: self.total_bytes_received as nat,
            bytes_transmitted: self.bytes_transmitted as nat,
            total_bytes_transmitted: self.total_bytes_transmitted as nat,
        }
    }
}

pub open spec fn net_views(s: Seq<NetSample>) -> Seq<NetSampleView> {
    s.map_values(|x: NetSample| x@)
}

/// Addition capped at the largest representable counter value.
pub open spec fn sat_add64(a: nat, b: nat) -> nat {
    if a + b > u64::MAX {
        u64::MAX as nat
    } else {
        a + b
    }
}

/// Saturating sum of a sequence of counters, folded left to right.
pub open spec fn sum_sat(s: Seq<nat>) -> nat
    decreases s.len(),
{
    if s.len() == 0 {
        0
    } else {
        sat_add64(sum_sat(s.drop_last()), s.last())
    }
}

/// The metrics record built from one memory sample and one snapshot of
/// network interfaces.
pub open spec fn metrics_of(m: MemSampleView, nets: Seq<NetSampleView>) -> SystemMetricsView {
    SystemMetricsView {
        per_cpu_usage: m.cpus,
        used_memory: format_spec(m.used_memory),
        total_memory: format_spec(m.total_memory),
        free_memory: format_spec(m.free_memory),
        used_swap: format_spec(m.used_swap),
        total_swap: format_spec(m.total_swap),
        free_swap: format_spec(m.free_swap),
        bytes_received: sum_sat(nets.map_values(|n: NetSampleView| n.received)),
        total_bytes_received: sum_sat(nets.map_values(|n: NetSampleView| n.total_received)),
        bytes_transmitted: sum_sat(nets.map_values(|n: NetSampleView| n.transmitted)),
        total_bytes_transmitted: sum_sat(nets.map_values(|n: NetSampleView| n.total_transmitted)),
    }
}

fn add_saturating(a: u64, b: u64) -> (r: u64)
    ensures
        r as nat == sat_add64(a as nat, b as nat),
{
    if a > u64::MAX - b {
        u64::MAX
    } else {
        a + b
    }
}

/// Sums each of the four counters over all interfaces, saturating: the
/// result is (received, total received, transmitted, total transmitted).
pub fn sum_network(nets: &Vec<NetSample>) -> (r: (u64, u64, u64, u64))
    ensures
        r.0 as nat == sum_sat(net_views(nets@).map_values(|n: NetSampleView| n.received)),
        r.1 as nat == sum_sat(net_views(nets@).map_values(|n: NetSampleView| n.total_received)),
        r.2 as nat == sum_sat(net_views(nets@).map_values(|n: NetSampleView| n.transmitted)),
        r.3 as nat == sum_sat(
            net_views(nets@).map_values(|n: NetSampleView| n.total_transmitted),
        ),
{
    let ghost vs = net_views(nets@);
    let ghost rx = vs.map_values(|n: NetSampleView| n.received);
    let ghost trx = vs.map_values(|n: NetSampleView| n.total_received);
    let ghost tx = vs.map_values(|n: NetSampleView| n.transmitted);
    let ghost ttx = vs.map_values(|n: NetSampleView| n.total_transmitted);
    let mut r0: u64 = 0;
    let mut r1: u64 = 0;
    let mut r2: u64 = 0;
    let mut r3: u64 = 0;
    let n = nets.len();
    let mut i: usize = 0;
    proof {
        assert(rx.take(0) =~= Seq::<nat>::empty());
        assert(trx.take(0) =~= Seq::<nat>::empty());
        assert(tx.take(0) =~= Seq::<nat>::empty());
        assert(ttx.take(0) =~= Seq::<nat>::empty());
    }
    while i < n
        invariant
            i <= n,
            n == nets@.len(),
            vs == net_views(nets@),
            rx == vs.map_values(|x: NetSampleView| x.received),
            trx == vs.map_values(|x: NetSampleView| x.total_received),
            tx == vs.map_values(|x: NetSampleView| x.transmitted),
            ttx == vs.map_values(|x: NetSampleView| x.total_transmitted),
            r0 as nat == sum_sat(rx.take(i as int)),
            r1 as nat == sum_sat(trx.take(i as int)),
            r2 as nat == sum_sat(tx.take(i as int)),
            r3 as nat == sum_sat(ttx.take(i as int)),
        decreases n - i,
    {
        let s = &nets[i];
        r0 = add_saturating(r0, s.received);
        r1 = add_saturating(r1, s.total_received);
        r2 = add_saturating(r2, s.transmitted);
        r3 = add_saturating(r3, s.total_transmitted);
        proof {
            assert(rx.take(i + 1).drop_last() =~= rx.take(i as int));
            assert(trx.take(i + 1).drop_last() =~= trx.take(i as int));
            assert(tx.take(i + 1).drop_last() =~= tx.take(i as int));
            assert(ttx.take(i + 1).drop_last() =~= ttx.take(i as int));
        }
        i = i + 1;
    }
    proof {
        assert(rx.take(n as int) =~= rx);
        assert(trx.take(n as int) =~= trx);
        assert(tx.take(n as int) =~= tx);
        assert(ttx.take(n as int) =~= ttx);
    }
    (r0, r1, r2, r3)
}

/// Builds the metrics record from one memory sample and one snapshot of
/// network interfaces: exactly `metrics_of` applied to the two.
pub fn build_metrics(mem: MemSample, nets: Vec<NetSample>) -> (r: SystemMetrics)
    ensures
        r@ == metrics_of(mem@, net_views(nets@)),
{
    let sums = sum_network(&nets);
    SystemMetrics {
        per_cpu_usage: mem.cpus,
        used_memory: format_memory_size(mem.used_memory),
        total_memory: format_memory_size(mem.total_memory),
        free_memory: format_memory_size(mem.free_memory),
        used_swap: format_memory_size(mem.used_swap),
        total_swap: format_memory_size(mem.total_swap),
        free_swap: format_memory_size(mem.free_swap),
        bytes_received: sums.0,
        total_bytes_received: sums.1,
        bytes_transmitted: sums.2,
        total_bytes_transmitted: sums.3,
    }
}

/// Law: where the platform reports used plus free memory within the total,
/// the two rendered magnitudes, parsed back to bytes (each in hundredths,
/// the displayed value times its unit divisor), approximate the raw total
/// to within rounding: together they exceed it by at most half a hundredth
/// of each magnitude's unit, the slack of rounding to nearest.
pub proof fn lemma_memory_accounting(used: nat, free: nat, total: nat)
    requires
        used + free <= total,
    ensures
        magnitude_hundredths(used) * unit_div(used) + magnitude_hundredths(free) * unit_div(free)
            <= total * 100 + unit_div(used) / 2 + unit_div(free) / 2,
{
    lemma_magnitude_rounding_error(used);
    lemma_magnitude_rounding_error(free);
}

} // verus!
