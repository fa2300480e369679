//! Text exposition of the request-latency histogram.
//!
//! The spec functions here say byte for byte what a scrape returns; the
//! exec functions append those bytes to a buffer.
use vstd::prelude::*;
use vstd::string::StringSliceAdditionalSpecFns;
use crate::http::labels::{method_text, LabelKey};

verus! {

/// Number of finite bucket boundaries.
pub const BUCKET_COUNT: usize = 11;

/// Upper boundary of finite bucket `i`, in microseconds (5 ms up to 10 s).
pub open spec fn bound(i: int) -> u64 {
    if i <= 0 {
        5_000
    } else if i == 1 {
        10_000
    } else if i == 2 {
        25_000
    } else if i == 3 {
        50_000
    } else if i == 4 {
        100_000
    } else if i == 5 {
        250_000
    } else if i == 6 {
        500_000
    } else if i == 7 {
        1_000_000
    } else if i == 8 {
        2_500_000
    } else if i == 9 {
        5_000_000
    } else {
        10_000_000
    }
}

/// The boundaries increase with the bucket index.
pub proof fn lemma_bound_increasing(i: int, j: int)
    requires
        0 <= i <= j < BUCKET_COUNT,
    ensures
        bound(i) <= bound(j),
{
}

/// Upper boundary of finite bucket `i`, in microseconds.
pub fn bucket_bound(i: usize) -> (b: u64)
    requires
        i < BUCKET_COUNT,
    ensures
        b == bound(i as int),
{
    if i == 0 {
        5_000
    } else if i == 1 {
        10_000
    } else if i == 2 {
        25_000
    } else if i == 3 {
        50_000
    } else if i == 4 {
        100_000
    } else if i == 5 {
        250_000
    } else if i == 6 {
        500_000
    } else if i == 7 {
        1_000_000
    } else if i == 8 {
        2_500_000
    } else if i == 9 {
        5_000_000
    } else {
        10_000_000
    }
}

/// How many observations are at most `b`.
pub open spec fn count_le(obs: Seq<u64>, b: u64) -> nat
    decreases obs.len(),
{
    if obs.len() == 0 {
        0
    } else {
        count_le(obs.drop_last(), b) + if obs.last() <= b {
            1nat
        } else {
            0nat
        }
    }
}

/// The sum of all observations.
pub open spec fn total(obs: Seq<u64>) -> nat
    decreases obs.len(),
{
    if obs.len() == 0 {
        0
    } else {
        total(obs.drop_last()) + obs.last() as nat
    }
}

pub const METRIC_HEADER: &'static str = "# HELP servus_http_request_duration HTTP request duration in seconds as a histogram, by method, path, and status\n# TYPE servus_http_request_duration histogram\n";

pub const BUCKET_PREFIX: &'static str = "servus_http_request_duration_bucket{";

pub const SUM_PREFIX: &'static str = "servus_http_request_duration_sum{";

pub const COUNT_PREFIX: &'static str = "servus_http_request_duration_count{";

pub const BARE_BUCKET_OPEN: &'static str = "servus_http_request_duration_bucket{le=\"";

pub const BARE_SUM: &'static str = "servus_http_request_duration_sum ";

pub const BARE_COUNT: &'static str = "servus_http_request_duration_count ";

pub const METHOD_OPEN: &'static str = "method=\"";

pub const PATH_OPEN: &'static str = "\",path=\"";

pub const STATUS_OPEN: &'static str = "\",status=\"";

pub const LE_OPEN: &'static str = "\",le=\"";

pub const LABELS_CLOSE: &'static str = "\"} ";

pub const INFINITY: &'static str = "+Inf";

pub const LINE_END: &'static str = "\n";

/// The ASCII digit of `n % 10`.
pub open spec fn digit(n: nat) -> u8 {
    (48 + n % 10) as u8
}

/// `n` in decimal, without leading zeros.
pub open spec fn decimal(n: nat) -> Seq<u8>
    decreases n,
{
    if n < 10 {
        seq![digit(n)]
    } else {
        decimal(n / 10).push(digit(n))
    }
}

/// The last `k` decimal digits of `n`, padded with zeros.
pub open spec fn fixed_digits(n: nat, k: nat) -> Seq<u8>
    decreases k,
{
    if k == 0 {
        seq![]
    } else {
        fixed_digits(n / 10, (k - 1) as nat).push(digit(n))
    }
}

/// A number of microseconds written as seconds with six decimals.
pub open spec fn seconds_text(micros: nat) -> Seq<u8> {
    decimal(micros / 1_000_000) + seq![46u8] + fixed_digits(micros % 1_000_000, 6)
}

/// A byte of a label value as it stands between quotes: backslash, double
/// quote and line feed are escaped.
pub open spec fn escape_byte(b: u8) -> Seq<u8> {
    if b == 92 {
        seq![92u8, 92u8]
    } else if b == 34 {
        seq![92u8, 34u8]
    } else if b == 10 {
        seq![92u8, 110u8]
    } else {
        seq![b]
    }
}

/// A label value with each byte escaped.
pub open spec fn escaped(s: Seq<u8>) -> Seq<u8>
    decreases s.len(),
{
    if s.len() == 0 {
        seq![]
    } else {
        escaped(s.drop_last()) + escape_byte(s.last())
    }
}

/// The label pairs of a series, without the braces.
pub open spec fn label_text(k: LabelKey) -> Seq<u8> {
    METHOD_OPEN.spec_bytes() + method_text(k.0) + PATH_OPEN.spec_bytes() + escaped(k.1)
        + STATUS_OPEN.spec_bytes() + decimal(k.2 as nat)
}

/// One bucket line: cumulative count `c` of the bucket with boundary text `le`.
pub open spec fn bucket_line(k: LabelKey, le: Seq<u8>, c: nat) -> Seq<u8> {
    BUCKET_PREFIX.spec_bytes() + label_text(k) + LE_OPEN.spec_bytes() + le
        + LABELS_CLOSE.spec_bytes() + decimal(c) + LINE_END.spec_bytes()
}

/// The first `n` finite bucket lines of a series.
pub open spec fn bucket_lines(k: LabelKey, obs: Seq<u64>, n: nat) -> Seq<u8>
    decreases n,
{
    if n == 0 {
        seq![]
    } else {
        bucket_lines(k, obs, (n - 1) as nat) + bucket_line(
            k,
            seconds_text(bound(n - 1) as nat),
            count_le(obs, bound(n - 1)),
        )
    }
}

/// The sum line of a series.
pub open spec fn sum_line(k: LabelKey, obs: Seq<u64>) -> Seq<u8> {
    SUM_PREFIX.spec_bytes() + label_text(k) + LABELS_CLOSE.spec_bytes() + seconds_text(total(obs))
        + LINE_END.spec_bytes()
}

/// The count line of a series.
pub open spec fn count_line(k: LabelKey, obs: Seq<u64>) -> Seq<u8> {
    COUNT_PREFIX.spec_bytes() + label_text(k) + LABELS_CLOSE.spec_bytes() + decimal(obs.len())
        + LINE_END.spec_bytes()
}

/// All lines of one series: finite buckets, the `+Inf` bucket, sum, count.
pub open spec fn series_text(k: LabelKey, obs: Seq<u64>) -> Seq<u8> {
    bucket_lines(k, obs, BUCKET_COUNT as nat) + bucket_line(k, INFINITY.spec_bytes(), obs.len())
        + sum_line(k, obs) + count_line(k, obs)
}

/// The lines of every series, in order.
pub open spec fn all_series_text(v: Seq<(LabelKey, Seq<u64>)>) -> Seq<u8>
    decreases v.len(),
{
    if v.len() == 0 {
        seq![]
    } else {
        all_series_text(v.drop_last()) + series_text(v.last().0, v.last().1)
    }
}

/// A bucket line without labels, holding zero.
pub open spec fn zero_bucket_line(le: Seq<u8>) -> Seq<u8> {
    BARE_BUCKET_OPEN.spec_bytes() + le + LABELS_CLOSE.spec_bytes() + decimal(0)
        + LINE_END.spec_bytes()
}

/// The first `n` finite bucket lines without labels, each holding zero.
pub open spec fn zero_bucket_lines(n: nat) -> Seq<u8>
    decreases n,
{
    if n == 0 {
        seq![]
    } else {
        zero_bucket_lines((n - 1) as nat) + zero_bucket_line(seconds_text(bound(n - 1) as nat))
    }
}

/// The lines of the histogram before anything is recorded: every bucket,
/// the sum and the count, without labels and at zero.
pub open spec fn zero_series_text() -> Seq<u8> {
    zero_bucket_lines(BUCKET_COUNT as nat) + zero_bucket_line(INFINITY.spec_bytes())
        + BARE_SUM.spec_bytes() + seconds_text(0) + LINE_END.spec_bytes() + BARE_COUNT.spec_bytes()
        + decimal(0) + LINE_END.spec_bytes()
}

/// The whole exposition: help and type lines, then every series; with no
/// series, one unlabelled series at zero.
pub open spec fn exposition(v: Seq<(LabelKey, Seq<u64>)>) -> Seq<u8> {
    METRIC_HEADER.spec_bytes() + if v.len() == 0 {
        zero_series_text()
    } else {
        all_series_text(v)
    }
}

/// Appends the bytes of `s`.
pub fn push_str(out: &mut Vec<u8>, s: &str)
    ensures
        final(out)@ == old(out)@ + s.spec_bytes(),
{
    let b = s.as_bytes();
    let ghost start = out@;
    let mut i: usize = 0;
    while i < b.len()
        invariant
            b@ == s.spec_bytes(),
            i <= b@.len(),
            out@ == start + b@.subrange(0, i as int),
        decreases b@.len() - i,
    {
        out.push(b[i]);
        i = i + 1;
        assert(out@ =~= start + b@.subrange(0, i as int));
    }
    assert(b@.subrange(0, b@.len() as int) =~= b@);
}

/// Appends `n` in decimal.
pub fn push_decimal(out: &mut Vec<u8>, n: u64)
    ensures
        final(out)@ == old(out)@ + decimal(n as nat),
    decreases n,
{
    if n >= 10 {
        push_decimal(out, n / 10);
    }
    out.push((48 + n % 10) as u8);
    assert(out@ =~= old(out)@ + decimal(n as nat));
}

/// Appends the last `k` decimal digits of `n`, padded with zeros.
pub fn push_fixed_digits(out: &mut Vec<u8>, n: u64, k: u64)
    ensures
        final(out)@ == old(out)@ + fixed_digits(n as nat, k as nat),
    decreases k,
{
    if k > 0 {
        push_fixed_digits(out, n / 10, k - 1);
        out.push((48 + n % 10) as u8);
    }
    assert(out@ =~= old(out)@ + fixed_digits(n as nat, k as nat));
}

/// Appends a number of microseconds as seconds with six decimals.
pub fn push_seconds(out: &mut Vec<u8>, micros: u64)
    ensures
        final(out)@ == old(out)@ + seconds_text(micros as nat),
{
    push_decimal(out, micros / 1_000_000);
    out.push(46u8);
    push_fixed_digits(out, micros % 1_000_000, 6);
    assert(out@ =~= old(out)@ + seconds_text(micros as nat));
}

/// Appends a label value with its special bytes escaped.
pub fn push_escaped(out: &mut Vec<u8>, s: &[u8])
    ensures
        final(out)@ == old(out)@ + escaped(s@),
{
    let ghost start = out@;
    let mut i: usize = 0;
    while i < s.len()
        invariant
            i <= s@.len(),
            out@ == start + escaped(s@.subrange(0, i as int)),
        decreases s@.len() - i,
    {
        let b = s[i];
        let ghost before = out@;
        if b == 92u8 {
            out.push(92u8);
            out.push(92u8);
        } else if b == 34u8 {
            out.push(92u8);
            out.push(34u8);
        } else if b == 10u8 {
            out.push(92u8);
            out.push(110u8);
        } else {
            out.push(b);
        }
        assert(out@ =~= before + escape_byte(b));
        assert(s@.subrange(0, i + 1).drop_last() =~= s@.subrange(0, i as int));
        i = i + 1;
        assert(out@ =~= start + escaped(s@.subrange(0, i as int)));
    }
    assert(s@.subrange(0, s@.len() as int) =~= s@);
}

/// Appends the unlabelled series at zero.
pub fn push_zero_series(out: &mut Vec<u8>)
    ensures
        final(out)@ == old(out)@ + zero_series_text(),
{
    let ghost start = out@;
    let mut j: usize = 0;
    while j < BUCKET_COUNT
        invariant
            j <= BUCKET_COUNT,
            out@ == start + zero_bucket_lines(j as nat),
        decreases BUCKET_COUNT - j,
    {
        let ghost before = out@;
        push_str(out, BARE_BUCKET_OPEN);
        push_seconds(out, bucket_bound(j));
        push_str(out, LABELS_CLOSE);
        push_decimal(out, 0);
        push_str(out, LINE_END);
        assert(out@ =~= before + zero_bucket_line(seconds_text(bound(j as int) as nat)));
        j = j + 1;
        assert(out@ =~= start + zero_bucket_lines(j as nat));
    }
    let ghost finite = out@;
    push_str(out, BARE_BUCKET_OPEN);
    push_str(out, INFINITY);
    push_str(out, LABELS_CLOSE);
    push_decimal(out, 0);
    push_str(out, LINE_END);
    assert(out@ =~= finite + zero_bucket_line(INFINITY.spec_bytes()));
    push_str(out, BARE_SUM);
    push_seconds(out, 0);
    push_str(out, LINE_END);
    push_str(out, BARE_COUNT);
    push_decimal(out, 0);
    push_str(out, LINE_END);
    assert(out@ =~= start + zero_series_text());
}

} // verus!
