//! The request-latency histogram: one series per label set, with fixed
//! bucket boundaries, and the functions the application listener and the
//! metrics route call on it.
use vstd::prelude::*;
use vstd::string::StringSliceAdditionalSpecFns;
use crate::http::exposition::{
    bound,
    bucket_bound,
    count_le,
    exposition,
    decimal,
    fixed_digits,
    seconds_text,
    zero_series_text,
    push_zero_series,
    all_series_text,
    series_text,
    bucket_line,
    bucket_lines,
    sum_line,
    count_line,
    label_text,
    total,
    push_decimal,
    push_escaped,
    push_seconds,
    push_str,
    BUCKET_COUNT,
    BUCKET_PREFIX,
    COUNT_PREFIX,
    INFINITY,
    LABELS_CLOSE,
    LE_OPEN,
    LINE_END,
    METHOD_OPEN,
    METRIC_HEADER,
    PATH_OPEN,
    STATUS_OPEN,
    SUM_PREFIX,
};
use crate::http::labels::{bytes_equal, method_of, observation_labels, LabelKey, Labels};

verus! {

/// What a series stands for: its labels and its observations in order.
pub type SeriesView = (LabelKey, Seq<u64>);

/// No two series carry the same labels.
pub open spec fn keys_unique(v: Seq<SeriesView>) -> bool {
    forall|i: int, j: int| 0 <= i < v.len() && 0 <= j < v.len() && i != j ==> v[i].0 != v[j].0
}

/// Whether some series carries the labels `k`.
pub open spec fn has_key(v: Seq<SeriesView>, k: LabelKey) -> bool {
    exists|i: int| 0 <= i < v.len() && v[i].0 == k
}

/// The position of the series with labels `k`, where there is one.
pub open spec fn key_index(v: Seq<SeriesView>, k: LabelKey) -> int {
    choose|i: int| 0 <= i < v.len() && v[i].0 == k
}

/// The observations recorded under the labels `k` (none if no series has them).
pub open spec fn observations(v: Seq<SeriesView>, k: LabelKey) -> Seq<u64> {
    if has_key(v, k) {
        v[key_index(v, k)].1
    } else {
        seq![]
    }
}

/// The registry after recording one observation `d` under the labels `k`:
/// appended to the series with those labels, or a new series at the end.
pub open spec fn record(v: Seq<SeriesView>, k: LabelKey, d: u64) -> Seq<SeriesView> {
    if has_key(v, k) {
        v.update(key_index(v, k), (k, v[key_index(v, k)].1.push(d)))
    } else {
        v.push((k, seq![d]))
    }
}

/// Whether one more observation `d` under `k` keeps the series' count and
/// sum within 64 bits.
pub open spec fn fits(v: Seq<SeriesView>, k: LabelKey, d: u64) -> bool {
    observations(v, k).len() < u64::MAX && total(observations(v, k)) + d <= u64::MAX
}

/// One series of the histogram.
pub struct Series {
    labels: Labels,
    buckets: Vec<u64>,
    sum: u64,
    count: u64,
    obs: Ghost<Seq<u64>>,
}

impl Series {
    /// The labels and the observations of this series.
    pub closed spec fn view(&self) -> SeriesView {
        (self.labels@, self.obs@)
    }

    /// The counters agree with the observations: bucket `i` holds how many
    /// are at most its boundary, `sum` their sum and `count` their number.
    pub closed spec fn wf(&self) -> bool {
        &&& self.buckets@.len() == BUCKET_COUNT
        &&& forall|i: int|
            0 <= i < BUCKET_COUNT ==> #[trigger] self.buckets@[i] == count_le(self.obs@, bound(i))
        &&& self.sum == total(self.obs@)
        &&& self.count == self.obs@.len()
    }
}

/// A registry with nothing recorded still encodes the whole histogram:
/// every bucket, the sum and the count, each written as zero.
pub proof fn lemma_empty_exposition()
    ensures
        exposition(seq![]) == METRIC_HEADER.spec_bytes() + zero_series_text(),
        decimal(0) == seq![48u8],
        seconds_text(0) == seq![48u8, 46u8, 48u8, 48u8, 48u8, 48u8, 48u8, 48u8],
{
    reveal_with_fuel(fixed_digits, 7);
    assert(decimal(0) =~= seq![48u8]);
    assert(fixed_digits(0, 6) =~= seq![48u8, 48u8, 48u8, 48u8, 48u8, 48u8]);
    assert(seconds_text(0) =~= seq![48u8, 46u8, 48u8, 48u8, 48u8, 48u8, 48u8, 48u8]);
}

/// A well-formed registry holds one series per label set.
pub proof fn lemma_wf_keys_unique(r: &Registry)
    requires
        r.wf(),
    ensures
        keys_unique(r@),
{
}

proof fn lemma_count_le_push(obs: Seq<u64>, d: u64, b: u64)
    ensures
        count_le(obs.push(d), b) == count_le(obs, b) + if d <= b {
            1nat
        } else {
            0nat
        },
        total(obs.push(d)) == total(obs) + d,
{
    assert(obs.push(d).drop_last() =~= obs);
}

/// No bucket counts more observations than there are.
pub proof fn lemma_count_le_bounded(obs: Seq<u64>, b: u64)
    ensures
        count_le(obs, b) <= obs.len(),
    decreases obs.len(),
{
    if obs.len() > 0 {
        lemma_count_le_bounded(obs.drop_last(), b);
    }
}

/// Cumulative bucket counts never decrease as the boundary grows, and the
/// widest bucket holds at most the total count.
pub proof fn lemma_buckets_monotone(obs: Seq<u64>, a: u64, b: u64)
    requires
        a <= b,
    ensures
        count_le(obs, a) <= count_le(obs, b),
        count_le(obs, b) <= obs.len(),
    decreases obs.len(),
{
    lemma_count_le_bounded(obs, b);
    if obs.len() > 0 {
        lemma_buckets_monotone(obs.drop_last(), a, b);
    }
}

/// In the text of any series, the cumulative count of a bucket is at most
/// that of every later bucket, and at most the series' count.
pub proof fn lemma_cumulative_buckets(obs: Seq<u64>, i: int, j: int)
    requires
        0 <= i <= j < BUCKET_COUNT,
    ensures
        count_le(obs, bound(i)) <= count_le(obs, bound(j)),
        count_le(obs, bound(j)) <= obs.len(),
{
    crate::http::exposition::lemma_bound_increasing(i, j);
    lemma_buckets_monotone(obs, bound(i), bound(j));
}

/// A series with no observation encodes every bucket, its sum and its count as zero.
pub proof fn lemma_empty_series(b: u64)
    ensures
        count_le(seq![], b) == 0,
        total(seq![]) == 0,
{
}

/// Every series of the histogram, held with the counters that a scrape reads.
pub struct Registry {
    series: Vec<Series>,
}

impl View for Registry {
    type V = Seq<SeriesView>;

    closed spec fn view(&self) -> Seq<SeriesView> {
        Seq::new(self.series@.len(), |i: int| self.series@[i].view())
    }
}

impl Registry {
    /// Each series is consistent and no two share their labels.
    pub closed spec fn wf(&self) -> bool {
        &&& forall|i: int| 0 <= i < self.series@.len() ==> #[trigger] self.series@[i].wf()
        &&& keys_unique(self@)
    }

    /// A registry with no series.
    pub fn new() -> (r: Registry)
        ensures
            r.wf(),
            r@ == Seq::<SeriesView>::empty(),
    {
        let r = Registry { series: Vec::new() };
        assert(r@ =~= Seq::<SeriesView>::empty());
        r
    }

    /// How many observations carry the labels `labels`.
    pub fn count(&self, labels: &Labels) -> (n: u64)
        requires
            self.wf(),
        ensures
            n == observations(self@, labels@).len(),
    {
        match self.find(labels) {
            Some(i) => {
                assert(self.series@[i as int].wf());
                self.series[i].count
            },
            None => 0,
        }
    }

    /// The number of series.
    pub fn series_count(&self) -> (n: usize)
        ensures
            n == self@.len(),
    {
        self.series.len()
    }

    /// The position of the series with the given labels, if any.
    fn find(&self, labels: &Labels) -> (r: Option<usize>)
        requires
            self.wf(),
        ensures
            r.is_some() <==> has_key(self@, labels@),
            r.is_some() ==> r.unwrap() == key_index(self@, labels@) && r.unwrap()
                < self.series@.len(),
    {
        let mut i: usize = 0;
        while i < self.series.len()
            invariant
                self.wf(),
                i <= self.series@.len(),
                forall|j: int| 0 <= j < i ==> self@[j].0 != labels@,
            decreases self.series@.len() - i,
        {
            let s = &self.series[i];
            if s.labels.method == labels.method && s.labels.status == labels.status
                && bytes_equal(s.labels.path.as_slice(), labels.path.as_slice()) {
                assert(self@[i as int].0 == labels@);
                assert(has_key(self@, labels@));
                let ghost k = key_index(self@, labels@);
                assert(0 <= k < self@.len() && self@[k].0 == labels@);
                assert(keys_unique(self@));
                assert(k == i as int) by {
                    if k != i as int {
                        assert(self@[k].0 != self@[i as int].0);
                    }
                }
                return Some(i);
            }
            i = i + 1;
        }
        None
    }

    /// Records one observation of `micros` microseconds under `labels`.
    ///
    /// Returns whether it was recorded; it is not only when the series'
    /// count or sum would no longer fit in 64 bits.
    pub fn observe(&mut self, labels: Labels, micros: u64) -> (recorded: bool)
        requires
            old(self).wf(),
        ensures
            final(self).wf(),
            recorded == fits(old(self)@, labels@, micros),
            recorded ==> final(self)@ == record(old(self)@, labels@, micros),
            recorded ==> observations(final(self)@, labels@) == observations(
                old(self)@,
                labels@,
            ).push(micros),
            recorded ==> forall|other: LabelKey|
                other != labels@ ==> #[trigger] observations(final(self)@, other)
                    == observations(old(self)@, other),
            !recorded ==> final(self)@ == old(self)@,
    {
        proof {
            assert forall|other: LabelKey| other != labels@ implies #[trigger] observations(
                record(old(self)@, labels@, micros),
                other,
            ) == observations(old(self)@, other) by {
                lemma_record_one(old(self)@, labels@, micros, other);
            }
            lemma_record_one(old(self)@, labels@, micros, labels@);
        }
        let ghost k = labels@;
        match self.find(&labels) {
            Some(i) => {
                let ghost obs = self.series@[i as int].obs@;
                assert(self.series@[i as int].wf());
                assert(observations(self@, k) == obs);
                let s = &self.series[i];
                if s.count == u64::MAX || s.sum > u64::MAX - micros {
                    return false;
                }
                let mut buckets: Vec<u64> = Vec::new();
                let mut j: usize = 0;
                while j < BUCKET_COUNT
                    invariant
                        j <= BUCKET_COUNT,
                        s.wf(),
                        s.obs@ == obs,
                        s.count < u64::MAX,
                        buckets@.len() == j,
                        forall|m: int|
                            0 <= m < j ==> #[trigger] buckets@[m] == count_le(
                                obs.push(micros),
                                bound(m),
                            ),
                    decreases BUCKET_COUNT - j,
                {
                    proof {
                        lemma_count_le_bounded(obs, bound(j as int));
                        lemma_count_le_push(obs, micros, bound(j as int));
                    }
                    let c = s.buckets[j];
                    let b = bucket_bound(j);
                    if micros <= b {
                        buckets.push(c + 1);
                    } else {
                        buckets.push(c);
                    }
                    j = j + 1;
                }
                proof {
                    lemma_count_le_push(obs, micros, 0);
                }
                let updated = Series {
                    labels: Labels {
                        method: s.labels.method,
                        path: crate::http::labels::copy_bytes(s.labels.path.as_slice()),
                        status: s.labels.status,
                    },
                    buckets,
                    sum: s.sum + micros,
                    count: s.count + 1,
                    obs: Ghost(obs.push(micros)),
                };
                let ghost before = self@;
                self.series.set(i, updated);
                assert(self@ =~= before.update(i as int, (k, obs.push(micros))));
                true
            },
            None => {
                let mut buckets: Vec<u64> = Vec::new();
                let mut j: usize = 0;
                while j < BUCKET_COUNT
                    invariant
                        j <= BUCKET_COUNT,
                        buckets@.len() == j,
                        forall|m: int|
                            0 <= m < j ==> #[trigger] buckets@[m] == count_le(
                                seq![micros],
                                bound(m),
                            ),
                    decreases BUCKET_COUNT - j,
                {
                    proof {
                        lemma_count_le_push(seq![], micros, bound(j as int));
                        assert(Seq::<u64>::empty().push(micros) =~= seq![micros]);
                    }
                    let b = bucket_bound(j);
                    if micros <= b {
                        buckets.push(1);
                    } else {
                        buckets.push(0);
                    }
                    j = j + 1;
                }
                proof {
                    lemma_count_le_push(seq![], micros, 0);
                    assert(Seq::<u64>::empty().push(micros) =~= seq![micros]);
                }
                let fresh = Series {
                    labels,
                    buckets,
                    sum: micros,
                    count: 1,
                    obs: Ghost(Seq::empty().push(micros)),
                };
                let ghost before = self@;
                self.series.push(fresh);
                assert(self@ =~= before.push((k, seq![micros])));
                true
            },
        }
    }
}

/// Appends the label pairs of a series.
fn push_labels(out: &mut Vec<u8>, labels: &Labels)
    ensures
        final(out)@ == old(out)@ + label_text(labels@),
{
    push_str(out, METHOD_OPEN);
    let m = labels.method.text();
    push_bytes(out, m.as_slice());
    push_str(out, PATH_OPEN);
    push_escaped(out, labels.path.as_slice());
    push_str(out, STATUS_OPEN);
    push_decimal(out, labels.status as u64);
    assert(out@ =~= old(out)@ + label_text(labels@));
}

/// Appends the bytes of `s` unchanged.
fn push_bytes(out: &mut Vec<u8>, s: &[u8])
    ensures
        final(out)@ == old(out)@ + s@,
{
    let ghost start = out@;
    let mut i: usize = 0;
    while i < s.len()
        invariant
            i <= s@.len(),
            out@ == start + s@.subrange(0, i as int),
        decreases s@.len() - i,
    {
        out.push(s[i]);
        i = i + 1;
        assert(out@ =~= start + s@.subrange(0, i as int));
    }
    assert(s@.subrange(0, s@.len() as int) =~= s@);
}

/// Appends one bucket line; the boundary is finite bucket `j`, or `+Inf`
/// where `j` is `None`.
fn push_bucket_line(out: &mut Vec<u8>, labels: &Labels, j: Option<usize>, c: u64)
    requires
        j.is_some() ==> j.unwrap() < BUCKET_COUNT,
    ensures
        final(out)@ == old(out)@ + bucket_line(
            labels@,
            match j {
                Some(j) => seconds_text(bound(j as int) as nat),
                None => INFINITY.spec_bytes(),
            },
            c as nat,
        ),
{
    push_str(out, BUCKET_PREFIX);
    push_labels(out, labels);
    push_str(out, LE_OPEN);
    match j {
        Some(j) => push_seconds(out, bucket_bound(j)),
        None => push_str(out, INFINITY),
    }
    push_str(out, LABELS_CLOSE);
    push_decimal(out, c);
    push_str(out, LINE_END);
    assert(out@ =~= old(out)@ + bucket_line(
        labels@,
        match j {
            Some(j) => seconds_text(bound(j as int) as nat),
            None => INFINITY.spec_bytes(),
        },
        c as nat,
    ));
}

/// Appends every line of one series.
fn push_series(out: &mut Vec<u8>, s: &Series)
    requires
        s.wf(),
    ensures
        final(out)@ == old(out)@ + series_text(s.view().0, s.view().1),
{
    let ghost start = out@;
    let ghost k = s.labels@;
    let ghost obs = s.obs@;
    let mut j: usize = 0;
    while j < BUCKET_COUNT
        invariant
            s.wf(),
            k == s.labels@,
            obs == s.obs@,
            j <= BUCKET_COUNT,
            out@ == start + bucket_lines(k, obs, j as nat),
        decreases BUCKET_COUNT - j,
    {
        push_bucket_line(out, &s.labels, Some(j), s.buckets[j]);
        j = j + 1;
        assert(out@ =~= start + bucket_lines(k, obs, j as nat));
    }
    let ghost finite = out@;
    push_bucket_line(out, &s.labels, None, s.count);
    push_str(out, SUM_PREFIX);
    push_labels(out, &s.labels);
    push_str(out, LABELS_CLOSE);
    push_seconds(out, s.sum);
    push_str(out, LINE_END);
    let ghost summed = out@;
    assert(summed =~= finite + bucket_line(k, INFINITY.spec_bytes(), obs.len()) + sum_line(k, obs));
    push_str(out, COUNT_PREFIX);
    push_labels(out, &s.labels);
    push_str(out, LABELS_CLOSE);
    push_decimal(out, s.count);
    push_str(out, LINE_END);
    assert(out@ =~= summed + count_line(k, obs));
    assert(out@ =~= start + series_text(k, obs));
}

/// The body of a scrape of the metrics route: the exposition text of
/// every series. It is well formed whatever has been recorded, also when
/// nothing has.
pub fn handler(registry: &Registry) -> (text: Vec<u8>)
    requires
        registry.wf(),
    ensures
        text@ == exposition(registry@),
{
    let mut out: Vec<u8> = Vec::new();
    push_str(&mut out, METRIC_HEADER);
    let mut i: usize = 0;
    while i < registry.series.len()
        invariant
            registry.wf(),
            i <= registry.series@.len(),
            out@ == METRIC_HEADER.spec_bytes() + all_series_text(
                registry@.subrange(0, i as int),
            ),
        decreases registry.series@.len() - i,
    {
        assert(registry.series@[i as int].wf());
        push_series(&mut out, &registry.series[i]);
        let ghost done = registry@.subrange(0, i + 1);
        assert(done.drop_last() =~= registry@.subrange(0, i as int));
        assert(done.last() == registry.series@[i as int].view());
        i = i + 1;
        assert(out@ =~= METRIC_HEADER.spec_bytes() + all_series_text(
            registry@.subrange(0, i as int),
        ));
    }
    assert(registry@.subrange(0, registry@.len() as int) =~= registry@);
    if registry.series.len() == 0 {
        push_zero_series(&mut out);
    }
    out
}

/// Records a completed request: its labels are the method, the template of
/// the route it matched and its status. A request that matched no declared
/// route is not recorded. Returns whether an observation was recorded.
pub fn middleware(
    registry: &mut Registry,
    method: &[u8],
    matched: Option<&[u8]>,
    status: u16,
    micros: u64,
) -> (recorded: bool)
    requires
        old(registry).wf(),
    ensures
        final(registry).wf(),
        matched.is_none() ==> !recorded && final(registry)@ == old(registry)@,
        matched.is_some() ==> ({
            let k = (method_of(method@), matched.unwrap()@, status);
            &&& recorded == fits(old(registry)@, k, micros)
            &&& recorded ==> final(registry)@ == record(old(registry)@, k, micros)
            &&& recorded ==> observations(final(registry)@, k) == observations(
                old(registry)@,
                k,
            ).push(micros)
            &&& recorded ==> forall|other: LabelKey|
                other != k ==> #[trigger] observations(final(registry)@, other) == observations(
                    old(registry)@,
                    other,
                )
            &&& !recorded ==> final(registry)@ == old(registry)@
        }),
{
    match observation_labels(method, matched, status) {
        None => false,
        Some(labels) => registry.observe(labels, micros),
    }
}

/// Recording one observation under `k` adds exactly that observation to
/// the series of `k` and leaves every other series' observations as they were.
pub proof fn lemma_record_one(v: Seq<SeriesView>, k: LabelKey, d: u64, other: LabelKey)
    requires
        keys_unique(v),
    ensures
        keys_unique(record(v, k, d)),
        observations(record(v, k, d), k) == observations(v, k).push(d),
        other != k ==> observations(record(v, k, d), other) == observations(v, other),
{
    let r = record(v, k, d);
    if has_key(v, k) {
        let i = key_index(v, k);
        assert(r[i].0 == k);
        assert(has_key(r, k));
        let ri = key_index(r, k);
        assert(ri == i) by {
            if ri != i {
                assert(r[ri].0 == v[ri].0);
            }
        }
        if other != k {
            if has_key(v, other) {
                let o = key_index(v, other);
                assert(r[o].0 == other);
                assert(has_key(r, other));
                let ro = key_index(r, other);
                assert(ro == o) by {
                    if ro != o {
                        assert(r[ro].0 == v[ro].0);
                    }
                }
            } else {
                assert(!has_key(r, other)) by {
                    if has_key(r, other) {
                        let ro = key_index(r, other);
                        assert(v[ro].0 == other);
                    }
                }
            }
        }
    } else {
        let i = v.len() as int;
        assert(r[i].0 == k);
        assert(has_key(r, k));
        let ri = key_index(r, k);
        assert(ri == i) by {
            if ri != i {
                assert(r[ri] == v[ri]);
            }
        }
        assert(r[i].1 =~= Seq::<u64>::empty().push(d));
        if other != k {
            if has_key(v, other) {
                let o = key_index(v, other);
                assert(r[o] == v[o]);
                assert(has_key(r, other));
                let ro = key_index(r, other);
                assert(ro == o) by {
                    if ro != o {
                        assert(r[ro].0 == v[ro].0);
                    }
                }
            } else {
                assert(!has_key(r, other)) by {
                    if has_key(r, other) {
                        let ro = key_index(r, other);
                        assert(v[ro].0 == other);
                    }
                }
            }
        }
    }
}

/// The registry after recording each observation of `os` in turn.
pub open spec fn record_all(v: Seq<SeriesView>, os: Seq<(LabelKey, u64)>) -> Seq<SeriesView>
    decreases os.len(),
{
    if os.len() == 0 {
        v
    } else {
        record(record_all(v, os.drop_last()), os.last().0, os.last().1)
    }
}

/// How many of the observations `os` carry the labels `k`.
pub open spec fn count_key(os: Seq<(LabelKey, u64)>, k: LabelKey) -> nat
    decreases os.len(),
{
    if os.len() == 0 {
        0
    } else {
        count_key(os.drop_last(), k) + if os.last().0 == k {
            1nat
        } else {
            0nat
        }
    }
}

/// After any number of recorded observations, each label set holds exactly
/// the observations it held before plus one for each of those that carry it:
/// none is lost, none is counted twice, none lands under other labels.
pub proof fn lemma_record_all_counts(v: Seq<SeriesView>, os: Seq<(LabelKey, u64)>, k: LabelKey)
    requires
        keys_unique(v),
    ensures
        keys_unique(record_all(v, os)),
        observations(record_all(v, os), k).len() == observations(v, k).len() + count_key(os, k),
    decreases os.len(),
{
    if os.len() > 0 {
        let prev = os.drop_last();
        lemma_record_all_counts(v, prev, k);
        lemma_record_one(record_all(v, prev), os.last().0, os.last().1, k);
    }
}

/// Every series' path label is one of the templates in `declared`.
pub open spec fn paths_declared(v: Seq<SeriesView>, declared: Set<Seq<u8>>) -> bool {
    forall|i: int| 0 <= i < v.len() ==> declared.contains(#[trigger] v[i].0.1)
}

/// Recording under a declared template keeps every path label declared.
pub proof fn lemma_record_keeps_paths_declared(
    v: Seq<SeriesView>,
    k: LabelKey,
    d: u64,
    declared: Set<Seq<u8>>,
)
    requires
        paths_declared(v, declared),
        declared.contains(k.1),
    ensures
        paths_declared(record(v, k, d), declared),
{
    let r = record(v, k, d);
    assert forall|i: int| 0 <= i < r.len() implies declared.contains(#[trigger] r[i].0.1) by {
        if i < v.len() && r[i].0 != k {
            assert(r[i] == v[i]);
        }
    }
}

/// Path labels only ever come from the declared templates: starting from a
/// registry whose paths are declared (an empty one), recording any run of
/// observations whose templates are declared leaves every path declared, so
/// a request path that matched no route never becomes a label value.
pub proof fn lemma_paths_stay_declared(
    v: Seq<SeriesView>,
    os: Seq<(LabelKey, u64)>,
    declared: Set<Seq<u8>>,
)
    requires
        paths_declared(v, declared),
        forall|i: int| 0 <= i < os.len() ==> declared.contains(#[trigger] os[i].0.1),
    ensures
        paths_declared(record_all(v, os), declared),
    decreases os.len(),
{
    if os.len() > 0 {
        let prev = os.drop_last();
        assert forall|i: int| 0 <= i < prev.len() implies declared.contains(
            #[trigger] prev[i].0.1,
        ) by {
            assert(prev[i] == os[i]);
        }
        lemma_paths_stay_declared(v, prev, declared);
        assert(declared.contains(os[os.len() - 1].0.1));
        lemma_record_keeps_paths_declared(
            record_all(v, prev),
            os.last().0,
            os.last().1,
            declared,
        );
    }
}

} // verus!
