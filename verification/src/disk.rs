//! Shaping a snapshot of mounted disks into response records.
//!
//! Space figures are computed on raw bytes first — used space is total minus
//! available, clamped to zero should a racing refresh report more available
//! than total — and only then rendered as magnitude strings.
use vstd::prelude::*;
use crate::magnitude::format_memory_size;
use crate::magnitude::format_spec;

verus! {

/// One mounted disk as the probe sampled it.
#[derive(Clone, Debug)]
pub struct DiskSample {
    /// The device name.
    pub device: String,
    /// Where the disk is mounted.
    pub mount_point: String,
    /// The name of the filesystem.
    pub filesystem_type: String,
    /// Total capacity in bytes.
    pub total: u64,
    /// Available space in bytes.
    pub available: u64,
}

/// The mathematical value of a `DiskSample`.
pub ghost struct DiskSampleView {
    pub device: Seq<char>,
    pub mount_point: Seq<char>,
    pub filesystem_type: Seq<char>,
    pub total: nat,
    pub available: nat,
}

impl View for DiskSample {
    type V = DiskSampleView;

    open spec fn view(&self) -> DiskSampleView {
        DiskSampleView {
            device: self.device@,
            mount_point: self.mount_point@,
            filesystem_type: self.filesystem_type@,
            total: self.total as nat,
            available: self.available as nat,
        }
    }
}

/// One row of a disk listing: space figures pre-rendered as magnitudes.
#[derive(Clone, Debug, PartialEq, Eq)]
pub struct DiskRecord {
    /// The device name.
    pub device: String,
    /// Where the disk is mounted.
    pub mount_point: String,
    /// The name of the filesystem.
    pub filesystem_type: String,
    /// Total capacity, rendered.
    pub total: String,
    /// Available space, rendered.
    pub available: String,
    /// Used space, total minus available, rendered.
    pub used: String,
}

/// The mathematical value of a `DiskRecord`.
pub ghost struct DiskRecordView {
    pub device: Seq<char>,
    pub mount_point: Seq<char>,
    pub filesystem_type: Seq<char>,
    pub total: Seq<char>,
    pub available: Seq<char>,
    pub used: Seq<char>,
}

impl View for DiskRecord {
    type V = DiskRecordView;

    open spec fn view(&self) -> DiskRecordView {
        DiskRecordView {
            device: self.device@,
            mount_point: self.mount_point@,
            filesystem_type: self.filesystem_type@,
            total: self.total@,
            available: self.available@,
            used: self.used@,
        }
    }
}

/// Used space in bytes: total minus available, clamped to zero.
pub open spec fn used_bytes_of(total: nat, available: nat) -> nat {
    if available <= total {
        (total - available) as nat
    } else {
        0
    }
}

/// The record a disk sample is rendered into.
pub open spec fn disk_record_of(s: DiskSampleView) -> DiskRecordView {
    DiskRecordView {
        device: s.device,
        mount_point: s.mount_point,
        filesystem_type: s.filesystem_type,
        total: format_spec(s.total),
        available: format_spec(s.available),
        used: format_spec(used_bytes_of(s.total, s.available)),
    }
}

pub open spec fn disk_sample_views(s: Seq<DiskSample>) -> Seq<DiskSampleView> {
    s.map_values(|x: DiskSample| x@)
}

pub open spec fn disk_record_views(s: Seq<DiskRecord>) -> Seq<DiskRecordView> {
    s.map_values(|x: DiskRecord| x@)
}

/// What a disk listing returns, as a function of the snapshot: each sample
/// rendered, in enumeration order.
pub open spec fn disk_pipeline(snapshot: Seq<DiskSampleView>) -> Seq<DiskRecordView> {
    snapshot.map_values(|s: DiskSampleView| disk_record_of(s))
}

/// Renders one disk sample into its record.
pub fn make_disk_record(s: DiskSample) -> (r: DiskRecord)
    ensures
        r@ == disk_record_of(s@),
{
    let used: u64 = if s.available <= s.total {
        s.total - s.available
    } else {
        0
    };
    DiskRecord {
        device: s.device,
        mount_point: s.mount_point,
        filesystem_type: s.filesystem_type,
        total: format_memory_size(s.total),
        available: format_memory_size(s.available),
        used: format_memory_size(used),
    }
}

/// Renders a snapshot of disk samples, in enumeration order.
pub fn build_disk_records(samples: Vec<DiskSample>) -> (r: Vec<DiskRecord>)
    ensures
        disk_record_views(r@) == disk_pipeline(disk_sample_views(samples@)),
{
    let ghost svs = disk_sample_views(samples@);
    let ghost mapped = svs.map_values(|s: DiskSampleView| disk_record_of(s));
    let mut v = samples;
    let mut out: Vec<DiskRecord> = Vec::new();
    let ghost mut done: int = 0;
    proof {
        assert(disk_record_views(out@) =~= mapped.take(0));
        assert(disk_sample_views(v@) =~= svs.skip(0));
    }
    while v.len() > 0
        invariant
            0 <= done <= svs.len(),
            v@.len() == svs.len() - done,
            mapped == svs.map_values(|s: DiskSampleView| disk_record_of(s)),
            disk_sample_views(v@) =~= svs.skip(done),
            disk_record_views(out@) == mapped.take(done),
        decreases v@.len(),
    {
        let ghost v_before = v@;
        let s = v.remove(0);
        proof {
            assert(s@ == disk_sample_views(v_before)[0]);
            assert(s@ == svs[done]);
            assert(disk_sample_views(v@) =~= svs.skip(done + 1)) by {
                assert forall|k: int| 0 <= k < v@.len() implies disk_sample_views(v@)[k]
                    == svs.skip(done + 1)[k] by {
                    assert(v@[k] == v_before[k + 1]);
                    assert(disk_sample_views(v_before)[k + 1] == svs.skip(done)[k + 1]);
                }
            }
        }
        let ghost out_before = out@;
        let rec = make_disk_record(s);
        out.push(rec);
        proof {
            assert(disk_record_views(out_before).len() == out_before.len());
            assert(out_before.len() == done);
            assert(out@ == out_before.push(rec));
            assert(rec@ == mapped[done]);
            assert(disk_record_views(out@) =~= mapped.take(done + 1)) by {
                assert forall|k: int| 0 <= k < out@.len() implies disk_record_views(out@)[k]
                    == mapped.take(done + 1)[k] by {
                    if k < done {
                        assert(out@[k] == out_before[k]);
                        assert(disk_record_views(out_before)[k] == mapped.take(done)[k]);
                    } else {
                        assert(out@[k]@ == mapped[done]);
                    }
                }
            }
            done = done + 1;
        }
    }
    proof {
        assert(mapped.take(done) =~= mapped);
    }
    out
}

/// Law: a disk's used space is its total minus its available space,
/// computed on raw bytes before any formatting, and is never negative:
/// should available exceed total, used clamps to zero.
pub proof fn lemma_disk_used_accounting(s: DiskSampleView)
    ensures
        s.available <= s.total ==> used_bytes_of(s.total, s.available) + s.available == s.total,
        s.available > s.total ==> used_bytes_of(s.total, s.available) == 0,
        disk_record_of(s).used == format_spec(used_bytes_of(s.total, s.available)),
{
}

} // verus!
