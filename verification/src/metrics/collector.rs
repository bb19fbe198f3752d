//! Storage of the metric batches received during a benchmark session.
use vstd::prelude::*;
use crate::metrics::protocol::{HostMessage, message_batch};
use crate::metrics::types::{MetricBatch, MetricBatchView, batches_view, clone_batches};
use crate::text::str_eq;

verus! {

/// The name under which the batches of `vmm` running `scenario` are logged: `{vmm}_{scenario}`.
pub open spec fn batch_key(vmm: Seq<char>, scenario: Seq<char>) -> Seq<char> {
    vmm + seq!['_'] + scenario
}

/// The key of a batch: its VMM and its scenario.
pub type BatchKey = (Seq<char>, Seq<char>);

/// The name of the log file of a key: `metrics_{key}.jsonl`.
pub open spec fn log_file_name(key: Seq<char>) -> Seq<char> {
    seq!['m', 'e', 't', 'r', 'i', 'c', 's', '_'] + key + seq!['.', 'j', 's', 'o', 'n', 'l']
}

/// Computes [`batch_key`].
pub fn make_batch_key(vmm: &str, scenario: &str) -> (r: String)
    ensures
        r@ == batch_key(vmm@, scenario@),
{
    let mut r = vmm.to_owned();
    crate::text::push_char(&mut r, '_');
    r.append(scenario);
    r
}

/// Computes [`log_file_name`].
pub fn make_log_file_name(key: &str) -> (r: String)
    ensures
        r@ == log_file_name(key@),
{
    let mut r = String::new();
    crate::text::push_char(&mut r, 'm');
    crate::text::push_char(&mut r, 'e');
    crate::text::push_char(&mut r, 't');
    crate::text::push_char(&mut r, 'r');
    crate::text::push_char(&mut r, 'i');
    crate::text::push_char(&mut r, 'c');
    crate::text::push_char(&mut r, 's');
    crate::text::push_char(&mut r, '_');
    r.append(key);
    crate::text::push_char(&mut r, '.');
    crate::text::push_char(&mut r, 'j');
    crate::text::push_char(&mut r, 's');
    crate::text::push_char(&mut r, 'o');
    crate::text::push_char(&mut r, 'n');
    crate::text::push_char(&mut r, 'l');
    assert(r@ =~= log_file_name(key@));
    r
}

/// Metric batches stored by VMM and scenario, in the order they arrived under each.
pub struct MetricsCollector {
    keys: Vec<(String, String)>,
    batches: Vec<Vec<MetricBatch>>,
    logs_enabled: bool,
    logs_dir: String,
}

/// The keys of a list of (VMM, scenario) pairs.
pub open spec fn key_views(v: Seq<(String, String)>) -> Seq<BatchKey> {
    v.map_values(|k: (String, String)| (k.0@, k.1@))
}

impl MetricsCollector {
    /// The stored batches of each key that has any.
    pub closed spec fn view(&self) -> Map<BatchKey, Seq<MetricBatchView>> {
        let ks = key_views(self.keys@);
        Map::new(
            |k: BatchKey| ks.contains(k),
            |k: BatchKey| batches_view(self.batches@[ks.index_of(k)]@),
        )
    }

    /// The keys are distinct and each has its list of batches.
    pub closed spec fn wf(&self) -> bool {
        &&& key_views(self.keys@).no_duplicates()
        &&& self.keys.len() == self.batches.len()
        &&& keyed_by_pair(self.view())
    }

    pub closed spec fn spec_logs_enabled(&self) -> bool {
        self.logs_enabled
    }

    pub closed spec fn spec_logs_dir(&self) -> Seq<char> {
        self.logs_dir@
    }

    /// An empty collector that writes batch logs to `logs_dir` when `logs_enabled`.
    pub fn new(logs_enabled: bool, logs_dir: String) -> (r: Self)
        ensures
            r.wf(),
            r.view() == Map::<BatchKey, Seq<MetricBatchView>>::empty(),
            r.spec_logs_enabled() == logs_enabled,
            r.spec_logs_dir() == logs_dir@,
    {
        let r = MetricsCollector { keys: Vec::new(), batches: Vec::new(), logs_enabled, logs_dir };
        assert(r.view() =~= Map::<BatchKey, Seq<MetricBatchView>>::empty());
        r
    }

    /// Whether batches are also appended to log files.
    pub fn logs_enabled(&self) -> (r: bool)
        ensures
            r == self.spec_logs_enabled(),
    {
        self.logs_enabled
    }

    /// The directory of the batch log files.
    pub fn logs_dir(&self) -> (r: &str)
        ensures
            r@ == self.spec_logs_dir(),
    {
        self.logs_dir.as_str()
    }

    /// The position of the key (`vmm`, `scenario`) among the keys, if stored.
    fn find(&self, vmm: &str, scenario: &str) -> (r: Option<usize>)
        requires
            self.wf(),
        ensures
            match r {
                Some(i) => i < self.keys.len() && key_views(self.keys@)[i as int] == (vmm@, scenario@),
                None => !key_views(self.keys@).contains((vmm@, scenario@)),
            },
    {
        let n = self.keys.len();
        let mut i: usize = 0;
        while i < n
            invariant
                n == self.keys.len(),
                i <= n,
                forall|j: int| 0 <= j < i ==> key_views(self.keys@)[j] != (vmm@, scenario@),
            decreases n - i,
        {
            assert(key_views(self.keys@)[i as int] == (self.keys@[i as int].0@, self.keys@[i as int].1@));
            if str_eq(self.keys[i].0.as_str(), vmm) && str_eq(self.keys[i].1.as_str(), scenario) {
                return Some(i);
            }
            i = i + 1;
        }
        None
    }

    /// Stores `batch` after the batches already stored under its key.
    pub fn ingest(&mut self, batch: MetricBatch) -> (r: Result<(), String>)
        requires
            old(self).wf(),
        ensures
            final(self).wf(),
            r.is_ok(),
            final(self).view() == stored_after(old(self).view(), batch@),
            final(self).spec_logs_enabled() == old(self).spec_logs_enabled(),
            final(self).spec_logs_dir() == old(self).spec_logs_dir(),
    {
        let ghost k = (batch.vmm@, batch.scenario@);
        let ghost b = batch@;
        let ghost bval = batch;
        let ghost before = self.view();
        let ghost old_keys = key_views(self.keys@);
        proof {
            lemma_stored_after_keyed(before, b);
        }
        match self.find(batch.vmm.as_str(), batch.scenario.as_str()) {
            Some(i) => {
                let mut list = clone_batches(&self.batches[i]);
                let ghost old_list = list@;
                list.push(batch);
                self.batches.set(i, list);
                let ghost i = i as int;
                proof {
                    assert(key_views(self.keys@) == old_keys);
                    assert(old_keys[i] == k);
                    assert(old_keys.index_of(k) == i) by {
                        let j = old_keys.index_of(k);
                        assert(old_keys.contains(k));
                        assert(old_keys[j] == k);
                    }
                    assert(batches_view(old_list.push(bval)) =~= batches_view(old_list).push(b));
                    assert forall|kk: BatchKey| old_keys.contains(kk) && kk != k implies
                        old_keys.index_of(kk) != i by {
                        assert(old_keys[old_keys.index_of(kk)] == kk);
                    }
                    assert(self.view() =~= stored_after(before, b));
                }
            },
            None => {
                let key = (batch.vmm.clone(), batch.scenario.clone());
                let mut list = Vec::new();
                list.push(batch);
                self.keys.push(key);
                self.batches.push(list);
                proof {
                    let ks = key_views(self.keys@);
                    assert(ks =~= old_keys.push(k));
                    let n = old_keys.len() as int;
                    assert(ks.no_duplicates()) by {
                        assert forall|a: int, c: int| 0 <= a < ks.len() && 0 <= c < ks.len() && a != c
                            implies ks[a] != ks[c] by {
                            if a == n {
                                assert(old_keys[c] == ks[c]);
                            } else if c == n {
                                assert(old_keys[a] == ks[a]);
                            }
                        }
                    }
                    assert(ks[n] == k);
                    assert(ks.index_of(k) == n) by {
                        assert(ks.contains(k));
                        let j = ks.index_of(k);
                        assert(ks[j] == k);
                    }
                    assert(batches_view(list@) =~= seq![b]);
                    assert forall|kk: BatchKey| old_keys.contains(kk) implies
                        ks.index_of(kk) == old_keys.index_of(kk) by {
                        let j = old_keys.index_of(kk);
                        assert(old_keys[j] == kk);
                        assert(ks[j] == kk);
                        assert(ks.contains(kk));
                        let j2 = ks.index_of(kk);
                        assert(ks[j2] == kk);
                    }
                    assert forall|kk: BatchKey| ks.contains(kk) <==> (old_keys.contains(kk) || kk == k) by {
                        if ks.contains(kk) && kk != k {
                            let j = choose|j: int| 0 <= j < ks.len() && ks[j] == kk;
                            assert(old_keys[j] == kk);
                        }
                        if old_keys.contains(kk) {
                            let j = choose|j: int| 0 <= j < old_keys.len() && old_keys[j] == kk;
                            assert(ks[j] == kk);
                        }
                    }
                    assert(self.view() =~= stored_after(before, b));
                }
            },
        }
        Ok(())
    }

    /// Stores the batch that a metric message carries; other messages store nothing.
    pub fn ingest_message(&mut self, msg: HostMessage) -> (r: Result<(), String>)
        requires
            old(self).wf(),
        ensures
            final(self).wf(),
            r.is_ok(),
            final(self).view() == match message_batch(msg) {
                Some(b) => stored_after(old(self).view(), b),
                None => old(self).view(),
            },
            final(self).spec_logs_enabled() == old(self).spec_logs_enabled(),
            final(self).spec_logs_dir() == old(self).spec_logs_dir(),
    {
        match msg.into_metric_batch() {
            Some(batch) => self.ingest(batch),
            None => Ok(()),
        }
    }

    /// The batches stored for `vmm` running `scenario`, oldest first, if any; each
    /// of them is a batch of that VMM and that scenario.
    pub fn query(&self, vmm: &str, scenario: &str) -> (r: Option<Vec<MetricBatch>>)
        requires
            self.wf(),
        ensures
            match r {
                Some(v) => self.view().contains_key((vmm@, scenario@))
                    && batches_view(v@) == self.view()[(vmm@, scenario@)]
                    && forall|i: int| 0 <= i < v.len() ==> (#[trigger] v@[i]).vmm@ == vmm@ && v@[i].scenario@ == scenario@,
                None => !self.view().contains_key((vmm@, scenario@)),
            },
    {
        let ghost k = (vmm@, scenario@);
        match self.find(vmm, scenario) {
            Some(i) => {
                proof {
                    let ks = key_views(self.keys@);
                    assert(ks.contains(k));
                    let j = ks.index_of(k);
                    assert(ks[j] == k);
                }
                let v = clone_batches(&self.batches[i]);
                proof {
                    assert forall|x: int| 0 <= x < v.len() implies (#[trigger] v@[x]).vmm@ == vmm@ && v@[x].scenario@ == scenario@ by {
                        assert(batches_view(v@)[x] == v@[x]@);
                        assert(self.view()[k][x] == v@[x]@);
                    }
                }
                Some(v)
            },
            None => None,
        }
    }

    /// Every key (VMM and scenario) with its batches, in the order the keys were first stored.
    pub fn get_all(&self) -> (r: Vec<((String, String), Vec<MetricBatch>)>)
        requires
            self.wf(),
        ensures
            r.len() == self.view().dom().len(),
            forall|i: int| 0 <= i < r.len() ==> {
                &&& self.view().contains_key(#[trigger] pair_view(r@[i].0))
                &&& batches_view(r@[i].1@) == self.view()[pair_view(r@[i].0)]
            },
            forall|i: int, j: int| 0 <= i < j < r.len() ==> pair_view(r@[i].0) != pair_view(r@[j].0),
    {
        let mut r: Vec<((String, String), Vec<MetricBatch>)> = Vec::new();
        let n = self.keys.len();
        let ghost ks = key_views(self.keys@);
        let mut i: usize = 0;
        while i < n
            invariant
                n == self.keys.len() == self.batches.len(),
                ks == key_views(self.keys@),
                ks.no_duplicates(),
                i <= n,
                r.len() == i,
                forall|j: int| 0 <= j < i ==> pair_view(r@[j].0) == ks[j] && batches_view(r@[j].1@) == batches_view(self.batches@[j]@),
            decreases n - i,
        {
            let k = (self.keys[i].0.clone(), self.keys[i].1.clone());
            let b = clone_batches(&self.batches[i]);
            assert(pair_view(k) == ks[i as int]);
            r.push((k, b));
            i = i + 1;
        }
        proof {
            assert forall|i: int| 0 <= i < r.len() implies {
                &&& self.view().contains_key(#[trigger] pair_view(r@[i].0))
                &&& batches_view(r@[i].1@) == self.view()[pair_view(r@[i].0)]
            } by {
                assert(ks[i] == pair_view(r@[i].0));
                assert(ks.contains(ks[i]));
                let j = ks.index_of(ks[i]);
                assert(ks[j] == ks[i]);
            }
            assert forall|i: int, j: int| 0 <= i < j < r.len() implies pair_view(r@[i].0) != pair_view(r@[j].0) by {
                assert(pair_view(r@[i].0) == ks[i]);
                assert(pair_view(r@[j].0) == ks[j]);
            }
            ks.unique_seq_to_set();
            assert(self.view().dom() =~= ks.to_set());
        }
        r
    }
}

/// The key of a (VMM, scenario) pair of strings.
pub open spec fn pair_view(k: (String, String)) -> BatchKey {
    (k.0@, k.1@)
}

/// Every stored batch sits under its own VMM and scenario.
pub open spec fn keyed_by_pair(m: Map<BatchKey, Seq<MetricBatchView>>) -> bool {
    forall|k: BatchKey, j: int| m.contains_key(k) && 0 <= j < m[k].len() ==>
        (#[trigger] m[k][j]).vmm == k.0 && m[k][j].scenario == k.1
}

/// The stored batches after `b` is stored: appended to those of its VMM and scenario.
pub open spec fn stored_after(m: Map<BatchKey, Seq<MetricBatchView>>, b: MetricBatchView) -> Map<BatchKey, Seq<MetricBatchView>> {
    let k = (b.vmm, b.scenario);
    if m.contains_key(k) {
        m.insert(k, m[k].push(b))
    } else {
        m.insert(k, seq![b])
    }
}

/// Storing keeps every batch under its own VMM and scenario.
pub proof fn lemma_stored_after_keyed(m: Map<BatchKey, Seq<MetricBatchView>>, b: MetricBatchView)
    requires
        keyed_by_pair(m),
    ensures
        keyed_by_pair(stored_after(m, b)),
{
    let m2 = stored_after(m, b);
    let k0 = (b.vmm, b.scenario);
    assert forall|k: BatchKey, j: int| m2.contains_key(k) && 0 <= j < m2[k].len() implies
        (#[trigger] m2[k][j]).vmm == k.0 && m2[k][j].scenario == k.1 by {
        if k == k0 {
            if m.contains_key(k0) && j < m[k0].len() {
                assert(m2[k][j] == m[k][j]);
            }
        } else {
            assert(m2[k] == m[k]);
        }
    }
}

/// Reading back what was stored: after a batch is stored, the key of its VMM and
/// scenario holds the batches stored under it before, oldest first, followed by the
/// new batch; every other key holds exactly what it held, and no key is added but
/// that of the batch.
pub proof fn law_query_after_ingest(m: Map<BatchKey, Seq<MetricBatchView>>, b: MetricBatchView, other: BatchKey)
    ensures
        stored_after(m, b).contains_key((b.vmm, b.scenario)),
        stored_after(m, b)[(b.vmm, b.scenario)] == (if m.contains_key((b.vmm, b.scenario)) {
            m[(b.vmm, b.scenario)]
        } else {
            Seq::empty()
        }).push(b),
        other != (b.vmm, b.scenario) ==> (
            stored_after(m, b).contains_key(other) == m.contains_key(other)
            && (m.contains_key(other) ==> stored_after(m, b)[other] == m[other])),
{
    let k = (b.vmm, b.scenario);
    if !m.contains_key(k) {
        assert(Seq::<MetricBatchView>::empty().push(b) =~= seq![b]);
    }
}

/// Storing never loses a batch: what a key held before is a prefix of what it holds after.
pub proof fn law_ingest_keeps_batches(m: Map<BatchKey, Seq<MetricBatchView>>, b: MetricBatchView, k: BatchKey)
    requires
        m.contains_key(k),
    ensures
        stored_after(m, b).contains_key(k),
        stored_after(m, b)[k].len() >= m[k].len(),
        stored_after(m, b)[k].take(m[k].len() as int) == m[k],
{
    if k == (b.vmm, b.scenario) {
        assert(m[k].push(b).take(m[k].len() as int) =~= m[k]);
    } else {
        assert(m[k].take(m[k].len() as int) =~= m[k]);
    }
}

} // verus!
