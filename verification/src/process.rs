//! The process query engine: shaping a snapshot of the process table into
//! response records, with optional name-prefix filtering and a stable sort
//! ascending by name.
//!
//! A record's numeric fields carry raw byte counts; CPU load, a fractional
//! percentage the verified core cannot hold as a number, is carried through
//! as the string the probe rendered. The whole pipeline is a pure function
//! of the snapshot, pinned by `process_pipeline`.
use vstd::prelude::*;
use vstd::string::*;
use crate::magnitude::dec_str;
use crate::magnitude::u64_to_dec;
use crate::order::is_prefix;
use crate::order::lemma_lex_le_total;
use crate::order::lemma_lex_le_trans;
use crate::order::lex_le;
use crate::order::str_le;
use crate::order::str_starts_with;

verus! {

/// One process as the probe sampled it: plain counters, no OS handles.
#[derive(Clone, Debug)]
pub struct ProcessSample {
    /// The OS process identifier.
    pub pid: u64,
    /// The process name, as the OS reports it.
    pub name: String,
    /// CPU load in percent, pre-rendered by the probe.
    pub cpu: String,
    /// Resident memory in bytes.
    pub memory_bytes: u64,
    /// Bytes read from disk since the previous OS-level sample.
    pub disk_read_bytes: u64,
    /// Bytes written to disk since the previous OS-level sample.
    pub disk_write_bytes: u64,
}

/// The mathematical value of a `ProcessSample`.
pub ghost struct ProcessSampleView {
    pub pid: nat,
    pub name: Seq<char>,
    pub cpu: Seq<char>,
    pub memory_bytes: nat,
    pub disk_read_bytes: nat,
    pub disk_write_bytes: nat,
}

impl View for ProcessSample {
    type V = ProcessSampleView;

    open spec fn view(&self) -> ProcessSampleView {
        ProcessSampleView {
            pid: self.pid as nat,
            name: self.name@,
            cpu: self.cpu@,
            memory_bytes: self.memory_bytes as nat,
            disk_read_bytes: self.disk_read_bytes as nat,
            disk_write_bytes: self.disk_write_bytes as nat,
        }
    }
}

/// One row of a process listing, as handed to the caller.
#[derive(Clone, Debug, PartialEq, Eq)]
pub struct ProcessRecord {
    /// The OS process identifier, rendered in decimal.
    pub id: String,
    /// The process name.
    pub name: String,
    /// CPU load in percent, as the probe rendered it.
    pub cpu_percent: String,
    /// Resident memory in bytes.
    pub memory_bytes: u64,
    /// Bytes read from disk since the previous OS-level sample.
    pub disk_read_bytes: u64,
    /// Bytes written to disk since the previous OS-level sample.
    pub disk_write_bytes: u64,
}

/// The mathematical value of a `ProcessRecord`.
pub ghost struct ProcessRecordView {
    pub id: Seq<char>,
    pub name: Seq<char>,
    pub cpu_percent: Seq<char>,
    pub memory_bytes: nat,
    pub disk_read_bytes: nat,
    pub disk_write_bytes: nat,
}

impl View for ProcessRecord {
    type V = ProcessRecordView;

    open spec fn view(&self) -> ProcessRecordView {
        ProcessRecordView {
            id: self.id@,
            name: self.name@,
            cpu_percent: self.cpu_percent@,
            memory_bytes: self.memory_bytes as nat,
            disk_read_bytes: self.disk_read_bytes as nat,
            disk_write_bytes: self.disk_write_bytes as nat,
        }
    }
}

/// The record a sample is rendered into: the identifier in decimal, every
/// other field carried through unchanged.
pub open spec fn record_of(s: ProcessSampleView) -> ProcessRecordView {
    ProcessRecordView {
        id: dec_str(s.pid),
        name: s.name,
        cpu_percent: s.cpu,
        memory_bytes: s.memory_bytes,
        disk_read_bytes: s.disk_read_bytes,
        disk_write_bytes: s.disk_write_bytes,
    }
}

pub open spec fn sample_views(s: Seq<ProcessSample>) -> Seq<ProcessSampleView> {
    s.map_values(|x: ProcessSample| x@)
}

pub open spec fn record_views(s: Seq<ProcessRecord>) -> Seq<ProcessRecordView> {
    s.map_values(|x: ProcessRecord| x@)
}

/// The value of an optional filter string.
pub open spec fn opt_view(f: Option<String>) -> Option<Seq<char>> {
    match f {
        Option::None => Option::None,
        Option::Some(p) => Option::Some(p@),
    }
}

/// Whether a record passes the optional name-prefix filter.
pub open spec fn keep_record(r: ProcessRecordView, f: Option<Seq<char>>) -> bool {
    match f {
        Option::None => true,
        Option::Some(p) => is_prefix(p, r.name),
    }
}

pub open spec fn filter_records(
    s: Seq<ProcessRecordView>,
    f: Option<Seq<char>>,
) -> Seq<ProcessRecordView> {
    s.filter(|r: ProcessRecordView| keep_record(r, f))
}

/// Stable insertion by name: the new record goes after every record whose
/// name is less than or equal to its own, so equal names keep their order.
pub open spec fn insert_sorted(
    x: ProcessRecordView,
    s: Seq<ProcessRecordView>,
) -> Seq<ProcessRecordView>
    decreases s.len(),
{
    if s.len() == 0 {
        seq![x]
    } else if lex_le(s[0].name, x.name) {
        seq![s[0]] + insert_sorted(x, s.skip(1))
    } else {
        seq![x] + s
    }
}

/// Stable sort ascending by name: each record, in order of appearance, is
/// inserted behind its equals.
pub open spec fn sort_records(s: Seq<ProcessRecordView>) -> Seq<ProcessRecordView>
    decreases s.len(),
{
    if s.len() == 0 {
        Seq::empty()
    } else {
        insert_sorted(s.last(), sort_records(s.drop_last()))
    }
}

/// Names are non-decreasing under byte-wise comparison.
pub open spec fn sorted_by_name(s: Seq<ProcessRecordView>) -> bool {
    forall|i: int, j: int|
        #![trigger s[i], s[j]]
        0 <= i < j < s.len() ==> lex_le(s[i].name, s[j].name)
}

/// What a process listing returns, as a function of the snapshot: render
/// each sample, keep those passing the filter, sort ascending by name.
pub open spec fn process_pipeline(
    samples: Seq<ProcessSampleView>,
    f: Option<Seq<char>>,
) -> Seq<ProcessRecordView> {
    sort_records(filter_records(samples.map_values(|s: ProcessSampleView| record_of(s)), f))
}

/// Renders one sample into its record.
pub fn make_record(s: ProcessSample) -> (r: ProcessRecord)
    ensures
        r@ == record_of(s@),
{
    ProcessRecord {
        id: u64_to_dec(s.pid),
        name: s.name,
        cpu_percent: s.cpu,
        memory_bytes: s.memory_bytes,
        disk_read_bytes: s.disk_read_bytes,
        disk_write_bytes: s.disk_write_bytes,
    }
}

proof fn lemma_insert_sorted_at(x: ProcessRecordView, s: Seq<ProcessRecordView>, j: int)
    requires
        0 <= j <= s.len(),
        forall|k: int| 0 <= k < j ==> lex_le(#[trigger] s[k].name, x.name),
        j < s.len() ==> !lex_le(s[j].name, x.name),
    ensures
        insert_sorted(x, s) =~= s.insert(j, x),
    decreases s.len(),
{
    if s.len() == 0 {
    } else if j == 0 {
        assert(s.insert(0, x) =~= seq![x] + s);
    } else {
        lemma_insert_sorted_at(x, s.skip(1), j - 1);
        assert(insert_sorted(x, s) == seq![s[0]] + insert_sorted(x, s.skip(1)));
        assert(seq![s[0]] + s.skip(1).insert(j - 1, x) =~= s.insert(j, x));
    }
}

fn find_insert_pos(v: &Vec<ProcessRecord>, x: &ProcessRecord) -> (j: usize)
    ensures
        j <= v@.len(),
        forall|k: int| 0 <= k < j ==> lex_le(#[trigger] record_views(v@)[k].name, x@.name),
        (j as int) < v@.len() ==> !lex_le(record_views(v@)[j as int].name, x@.name),
{
    let n = v.len();
    let mut j: usize = 0;
    while j < n
        invariant
            j <= n,
            n == v@.len(),
            forall|k: int| 0 <= k < j ==> lex_le(#[trigger] record_views(v@)[k].name, x@.name),
        decreases n - j,
    {
        if !str_le(v[j].name.as_str(), x.name.as_str()) {
            return j;
        }
        j = j + 1;
    }
    j
}

fn insert_record(v: &mut Vec<ProcessRecord>, x: ProcessRecord)
    ensures
        record_views(final(v)@) == insert_sorted(x@, record_views(old(v)@)),
{
    let j = find_insert_pos(v, &x);
    let ghost s = record_views(v@);
    let ghost xv = x@;
    v.insert(j, x);
    proof {
        lemma_insert_sorted_at(xv, s, j as int);
        assert(record_views(v@) =~= s.insert(j as int, xv));
    }
}

/// Sorts records ascending by name, stably, matching `sort_records`.
pub fn sorted_records(records: Vec<ProcessRecord>) -> (r: Vec<ProcessRecord>)
    ensures
        record_views(r@) == sort_records(record_views(records@)),
{
    let ghost orig = record_views(records@);
    let mut v = records;
    let mut out: Vec<ProcessRecord> = Vec::new();
    let ghost mut done: int = 0;
    proof {
        assert(record_views(out@) =~= Seq::<ProcessRecordView>::empty());
        assert(orig.take(0) =~= Seq::<ProcessRecordView>::empty());
        assert(record_views(v@) =~= orig.skip(0));
    }
    while v.len() > 0
        invariant
            0 <= done <= orig.len(),
            v@.len() == orig.len() - done,
            record_views(v@) =~= orig.skip(done),
            record_views(out@) == sort_records(orig.take(done)),
        decreases v@.len(),
    {
        let ghost v_before = v@;
        let x = v.remove(0);
        insert_record(&mut out, x);
        proof {
            assert(x@ == record_views(v_before)[0]);
            assert(x@ == orig[done]);
            assert(record_views(v@) =~= orig.skip(done + 1)) by {
                assert(v@ =~= v_before.remove(0));
                assert forall|k: int| 0 <= k < v@.len() implies record_views(v@)[k] == orig.skip(
                    done + 1,
                )[k] by {
                    assert(v@[k] == v_before[k + 1]);
                    assert(record_views(v_before)[k + 1] == orig.skip(done)[k + 1]);
                }
            }
            assert(orig.take(done + 1).drop_last() =~= orig.take(done));
            assert(orig.take(done + 1).last() == orig[done]);
            assert(sort_records(orig.take(done + 1)) == insert_sorted(
                orig[done],
                sort_records(orig.take(done)),
            ));
            done = done + 1;
        }
    }
    proof {
        assert(orig.take(done) =~= orig);
    }
    out
}

/// Renders, filters and sorts a snapshot of process samples: the result is
/// exactly `process_pipeline` applied to the snapshot and the filter.
pub fn build_process_records(samples: Vec<ProcessSample>, name_filter: &Option<String>) -> (r: Vec<
    ProcessRecord,
>)
    ensures
        record_views(r@) == process_pipeline(sample_views(samples@), opt_view(*name_filter)),
{
    let ghost svs = sample_views(samples@);
    let ghost f = opt_view(*name_filter);
    let ghost mapped = svs.map_values(|s: ProcessSampleView| record_of(s));
    let mut v = samples;
    let mut kept: Vec<ProcessRecord> = Vec::new();
    let ghost mut done: int = 0;
    proof {
        assert(record_views(kept@) =~= Seq::<ProcessRecordView>::empty());
        assert(mapped.take(0) =~= Seq::<ProcessRecordView>::empty());
        assert(filter_records(mapped.take(0), f) =~= Seq::<ProcessRecordView>::empty());
        assert(sample_views(v@) =~= svs.skip(0));
    }
    while v.len() > 0
        invariant
            0 <= done <= svs.len(),
            v@.len() == svs.len() - done,
            mapped == svs.map_values(|s: ProcessSampleView| record_of(s)),
            f == opt_view(*name_filter),
            sample_views(v@) =~= svs.skip(done),
            record_views(kept@) == filter_records(mapped.take(done), f),
        decreases v@.len(),
    {
        let ghost v_before = v@;
        let ghost kept_before = kept@;
        let s = v.remove(0);
        proof {
            assert(s@ == sample_views(v_before)[0]);
            assert(s@ == svs[done]);
            assert(sample_views(v@) =~= svs.skip(done + 1)) by {
                assert forall|k: int| 0 <= k < v@.len() implies sample_views(v@)[k] == svs.skip(
                    done + 1,
                )[k] by {
                    assert(v@[k] == v_before[k + 1]);
                    assert(sample_views(v_before)[k + 1] == svs.skip(done)[k + 1]);
                }
            }
        }
        let rec = make_record(s);
        let keep = match name_filter {
            Option::None => true,
            Option::Some(p) => str_starts_with(rec.name.as_str(), p.as_str()),
        };
        proof {
            assert(rec@ == mapped[done]);
            assert(keep == keep_record(mapped[done], f));
        }
        if keep {
            kept.push(rec);
            proof {
                assert(record_views(kept@) =~= record_views(kept_before).push(mapped[done]));
            }
        }
        proof {
            let prev = mapped.take(done);
            let cur = mapped.take(done + 1);
            assert(cur.drop_last() =~= prev);
            assert(cur.last() == mapped[done]);
            reveal_with_fuel(Seq::filter, 2);
            assert(filter_records(cur, f) == if keep_record(mapped[done], f) {
                filter_records(prev, f).push(mapped[done])
            } else {
                filter_records(prev, f)
            });
            done = done + 1;
        }
    }
    proof {
        assert(mapped.take(done) =~= mapped);
    }
    sorted_records(kept)
}

proof fn lemma_insert_sorted_multiset(x: ProcessRecordView, s: Seq<ProcessRecordView>)
    ensures
        insert_sorted(x, s).to_multiset() =~= s.to_multiset().insert(x),
    decreases s.len(),
{
    broadcast use vstd::seq_lib::group_to_multiset_ensures;
    broadcast use vstd::multiset::group_multiset_axioms;

    if s.len() == 0 {
        assert(insert_sorted(x, s) =~= s.push(x));
    } else if lex_le(s[0].name, x.name) {
        lemma_insert_sorted_multiset(x, s.skip(1));
        vstd::seq_lib::lemma_multiset_commutative(seq![s[0]], insert_sorted(x, s.skip(1)));
        vstd::seq_lib::lemma_multiset_commutative(seq![s[0]], s.skip(1));
        assert(s =~= seq![s[0]] + s.skip(1));
        assert(seq![s[0]] =~= Seq::<ProcessRecordView>::empty().push(s[0]));
    } else {
        vstd::seq_lib::lemma_multiset_commutative(seq![x], s);
        assert(seq![x] =~= Seq::<ProcessRecordView>::empty().push(x));
    }
}

proof fn lemma_same_multiset_contains(a: Seq<ProcessRecordView>, b: Seq<ProcessRecordView>)
    requires
        a.to_multiset() == b.to_multiset(),
    ensures
        forall|e: ProcessRecordView| #[trigger] a.contains(e) <==> b.contains(e),
{
    broadcast use vstd::seq_lib::group_to_multiset_ensures;

    assert forall|e: ProcessRecordView| #[trigger] a.contains(e) <==> b.contains(e) by {
        assert(a.contains(e) <==> a.to_multiset().count(e) > 0);
        assert(b.contains(e) <==> b.to_multiset().count(e) > 0);
    }
}

proof fn lemma_insert_sorted_contains(x: ProcessRecordView, s: Seq<ProcessRecordView>)
    ensures
        forall|e: ProcessRecordView|
            #[trigger] insert_sorted(x, s).contains(e) <==> e == x || s.contains(e),
{
    broadcast use vstd::seq_lib::group_to_multiset_ensures;
    broadcast use vstd::multiset::group_multiset_axioms;

    lemma_insert_sorted_multiset(x, s);
    assert forall|e: ProcessRecordView|
        #[trigger] insert_sorted(x, s).contains(e) <==> e == x || s.contains(e) by {
        assert(insert_sorted(x, s).contains(e) <==> insert_sorted(x, s).to_multiset().count(e)
            > 0);
        assert(s.contains(e) <==> s.to_multiset().count(e) > 0);
        vstd::multiset::lemma_insert_increases_count_by_1(s.to_multiset(), x);
        if e != x {
            vstd::multiset::lemma_insert_other_elements_unchanged(s.to_multiset(), x, e);
        }
    }
}

proof fn lemma_insert_sorted_sorted(x: ProcessRecordView, s: Seq<ProcessRecordView>)
    requires
        sorted_by_name(s),
    ensures
        sorted_by_name(insert_sorted(x, s)),
    decreases s.len(),
{
    if s.len() == 0 {
    } else if lex_le(s[0].name, x.name) {
        let t = insert_sorted(x, s.skip(1));
        let r = seq![s[0]] + t;
        assert(sorted_by_name(s.skip(1)));
        lemma_insert_sorted_sorted(x, s.skip(1));
        lemma_insert_sorted_contains(x, s.skip(1));
        assert forall|j: int| 1 <= j < r.len() implies lex_le(s[0].name, r[j].name) by {
            assert(r[j] == t[j - 1]);
            assert(t.contains(t[j - 1]));
            if t[j - 1] == x {
            } else {
                let k = choose|k: int| 0 <= k < s.skip(1).len() && s.skip(1)[k] == t[j - 1];
                assert(s[k + 1] == t[j - 1]);
            }
        }
        assert forall|i: int, j: int|
            #![trigger r[i], r[j]]
            0 <= i < j < r.len() implies lex_le(r[i].name, r[j].name) by {
            if i == 0 {
                assert(lex_le(s[0].name, r[j].name));
            } else {
                assert(r[i] == t[i - 1] && r[j] == t[j - 1]);
            }
        }
    } else {
        lemma_lex_le_total(s[0].name, x.name);
        let r = seq![x] + s;
        assert forall|i: int, j: int|
            #![trigger r[i], r[j]]
            0 <= i < j < r.len() implies lex_le(r[i].name, r[j].name) by {
            if i == 0 {
                assert(r[j] == s[j - 1]);
                if j == 1 {
                    assert(lex_le(x.name, s[0].name));
                } else {
                    assert(lex_le(s[0].name, s[j - 1].name));
                    lemma_lex_le_trans(x.name, s[0].name, s[j - 1].name);
                }
            } else {
                assert(r[i] == s[i - 1] && r[j] == s[j - 1]);
            }
        }
    }
}

/// Law helper: sorting neither loses, adds nor duplicates records.
pub proof fn lemma_sort_records_multiset(s: Seq<ProcessRecordView>)
    ensures
        sort_records(s).to_multiset() =~= s.to_multiset(),
    decreases s.len(),
{
    broadcast use vstd::seq_lib::group_to_multiset_ensures;
    broadcast use vstd::multiset::group_multiset_axioms;

    if s.len() > 0 {
        lemma_sort_records_multiset(s.drop_last());
        lemma_insert_sorted_multiset(s.last(), sort_records(s.drop_last()));
        assert(s =~= s.drop_last().push(s.last()));
    }
}

/// Law helper: sorting yields names non-decreasing under byte-wise order.
pub proof fn lemma_sort_records_sorted(s: Seq<ProcessRecordView>)
    ensures
        sorted_by_name(sort_records(s)),
    decreases s.len(),
{
    if s.len() > 0 {
        lemma_sort_records_sorted(s.drop_last());
        lemma_insert_sorted_sorted(s.last(), sort_records(s.drop_last()));
    }
}

proof fn lemma_filter_none_id(s: Seq<ProcessRecordView>)
    ensures
        filter_records(s, Option::None) == s,
    decreases s.len(),
{
    reveal_with_fuel(Seq::filter, 2);
    if s.len() == 0 {
        assert(filter_records(s, Option::None) =~= s);
    } else {
        lemma_filter_none_id(s.drop_last());
        assert(filter_records(s, Option::None) =~= s.drop_last().push(s.last()));
        assert(s.drop_last().push(s.last()) =~= s);
    }
}

/// Law: every listing comes out sorted ascending by name, whatever the
/// snapshot and the filter.
pub proof fn lemma_pipeline_sorted(samples: Seq<ProcessSampleView>, f: Option<Seq<char>>)
    ensures
        sorted_by_name(process_pipeline(samples, f)),
{
    let mapped = samples.map_values(|s: ProcessSampleView| record_of(s));
    lemma_sort_records_sorted(filter_records(mapped, f));
}

/// Law: every record a listing returns passes its filter: under a prefix
/// filter, every returned name starts with the prefix.
pub proof fn lemma_pipeline_filtered(samples: Seq<ProcessSampleView>, f: Option<Seq<char>>)
    ensures
        forall|i: int|
            0 <= i < process_pipeline(samples, f).len() ==> keep_record(
                #[trigger] process_pipeline(samples, f)[i],
                f,
            ),
{
    broadcast use vstd::seq_lib::group_to_multiset_ensures;
    broadcast use vstd::multiset::group_multiset_axioms;

    let mapped = samples.map_values(|s: ProcessSampleView| record_of(s));
    let fil = filter_records(mapped, f);
    let pred = |r: ProcessRecordView| keep_record(r, f);
    let pipe = process_pipeline(samples, f);
    lemma_sort_records_multiset(fil);
    lemma_same_multiset_contains(sort_records(fil), fil);
    assert forall|i: int| 0 <= i < pipe.len() implies keep_record(#[trigger] pipe[i], f) by {
        assert(sort_records(fil).contains(pipe[i]));
        assert(fil.contains(pipe[i]));
        let j = fil.lemma_contains_to_index(pipe[i]);
        mapped.lemma_filter_pred(pred, j);
    }
}

/// Law: the filtered listing is exactly the subset of the unfiltered one
/// whose names start with the prefix: no record is wrongly kept or dropped.
pub proof fn lemma_prefix_filter_exact(samples: Seq<ProcessSampleView>, p: Seq<char>)
    ensures
        forall|r: ProcessRecordView|
            #[trigger] process_pipeline(samples, Option::Some(p)).contains(r) <==> (
            process_pipeline(samples, Option::None).contains(r) && is_prefix(p, r.name)),
{
    broadcast use vstd::seq_lib::group_to_multiset_ensures;
    broadcast use vstd::multiset::group_multiset_axioms;

    let mapped = samples.map_values(|s: ProcessSampleView| record_of(s));
    let fil = filter_records(mapped, Option::Some(p));
    let pred = |r: ProcessRecordView| keep_record(r, Option::Some(p));
    lemma_filter_none_id(mapped);
    lemma_sort_records_multiset(fil);
    lemma_sort_records_multiset(mapped);
    lemma_same_multiset_contains(sort_records(fil), fil);
    lemma_same_multiset_contains(sort_records(mapped), mapped);
    assert forall|r: ProcessRecordView|
        #[trigger] process_pipeline(samples, Option::Some(p)).contains(r) implies (
    process_pipeline(samples, Option::None).contains(r) && is_prefix(p, r.name)) by {
        assert(fil.contains(r));
        mapped.lemma_filter_contains_rev(pred, r);
        let i = fil.lemma_contains_to_index(r);
        mapped.lemma_filter_pred(pred, i);
    }
    assert forall|r: ProcessRecordView|
        process_pipeline(samples, Option::None).contains(r) && is_prefix(
            p,
            r.name,
        ) implies #[trigger] process_pipeline(samples, Option::Some(p)).contains(r) by {
        assert(mapped.contains(r));
        let i = mapped.lemma_contains_to_index(r);
        mapped.lemma_filter_contains(pred, i);
        assert(fil.contains(r));
    }
}

/// Law: a listing is a pure function of the snapshot: two calls over equal
/// snapshots with equal filters return equal records, so immediate repeats
/// with no OS state change are deterministic.
pub proof fn lemma_pipeline_deterministic(
    s1: Seq<ProcessSampleView>,
    s2: Seq<ProcessSampleView>,
    f1: Option<Seq<char>>,
    f2: Option<Seq<char>>,
)
    requires
        s1 == s2,
        f1 == f2,
    ensures
        process_pipeline(s1, f1) == process_pipeline(s2, f2),
{
}

} // verus!
