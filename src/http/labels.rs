//! Label values of the request-latency histogram.
//!
//! Every label value comes from a closed or caller-declared set: the method
//! is one of a fixed list of HTTP methods, the path is the template of the
//! route that matched (never the raw request path) and the status is the
//! numeric response code.
use vstd::prelude::*;

verus! {

/// The HTTP methods the histogram distinguishes. Any other method is
/// folded into `Other`, so that an unusual method cannot add label values.
#[derive(Clone, Copy, Debug, PartialEq, Eq, Structural)]
pub enum Method {
    Get,
    Head,
    Post,
    Put,
    Delete,
    Connect,
    Options,
    Trace,
    Patch,
    Other,
}

/// The label text of a method.
pub open spec fn method_text(m: Method) -> Seq<u8> {
    match m {
        Method::Get => seq![71u8, 69, 84],
        Method::Head => seq![72u8, 69, 65, 68],
        Method::Post => seq![80u8, 79, 83, 84],
        Method::Put => seq![80u8, 85, 84],
        Method::Delete => seq![68u8, 69, 76, 69, 84, 69],
        Method::Connect => seq![67u8, 79, 78, 78, 69, 67, 84],
        Method::Options => seq![79u8, 80, 84, 73, 79, 78, 83],
        Method::Trace => seq![84u8, 82, 65, 67, 69],
        Method::Patch => seq![80u8, 65, 84, 67, 72],
        Method::Other => seq![79u8, 84, 72, 69, 82],
    }
}

/// The method whose name is exactly `name`, or `Other`.
pub open spec fn method_of(name: Seq<u8>) -> Method {
    if name == method_text(Method::Get) {
        Method::Get
    } else if name == method_text(Method::Head) {
        Method::Head
    } else if name == method_text(Method::Post) {
        Method::Post
    } else if name == method_text(Method::Put) {
        Method::Put
    } else if name == method_text(Method::Delete) {
        Method::Delete
    } else if name == method_text(Method::Connect) {
        Method::Connect
    } else if name == method_text(Method::Options) {
        Method::Options
    } else if name == method_text(Method::Trace) {
        Method::Trace
    } else if name == method_text(Method::Patch) {
        Method::Patch
    } else {
        Method::Other
    }
}

pub fn bytes_equal(a: &[u8], b: &[u8]) -> (r: bool)
    ensures
        r == (a@ == b@),
{
    if a.len() != b.len() {
        return false;
    }
    let mut i: usize = 0;
    while i < a.len()
        invariant
            a@.len() == b@.len(),
            i <= a@.len(),
            forall|j: int| 0 <= j < i ==> a@[j] == b@[j],
        decreases a@.len() - i,
    {
        if a[i] != b[i] {
            return false;
        }
        i = i + 1;
    }
    assert(a@ =~= b@);
    true
}

/// A fresh vector holding the bytes of `s`.
pub fn copy_bytes(s: &[u8]) -> (r: Vec<u8>)
    ensures
        r@ == s@,
{
    let mut r: Vec<u8> = Vec::new();
    let mut i: usize = 0;
    while i < s.len()
        invariant
            i <= s@.len(),
            r@ == s@.subrange(0, i as int),
        decreases s@.len() - i,
    {
        r.push(s[i]);
        i = i + 1;
    }
    assert(r@ =~= s@);
    r
}

impl Method {
    /// Reads a method from its name as sent on the wire (case-sensitive).
    pub fn parse(name: &[u8]) -> (m: Method)
        ensures
            m == method_of(name@),
    {
        let candidates: [Method; 9] = [
            Method::Get,
            Method::Head,
            Method::Post,
            Method::Put,
            Method::Delete,
            Method::Connect,
            Method::Options,
            Method::Trace,
            Method::Patch,
        ];
        let mut k: usize = 0;
        while k < 9
            invariant
                k <= 9,
                candidates@ == seq![
                    Method::Get,
                    Method::Head,
                    Method::Post,
                    Method::Put,
                    Method::Delete,
                    Method::Connect,
                    Method::Options,
                    Method::Trace,
                    Method::Patch,
                ],
                forall|j: int| 0 <= j < k ==> name@ != method_text(#[trigger] candidates@[j]),
            decreases 9 - k,
        {
            let c = candidates[k];
            let text = c.text();
            if bytes_equal(name, text.as_slice()) {
                return c;
            }
            k = k + 1;
        }
        Method::Other
    }

    /// The label text of this method.
    pub fn text(&self) -> (r: Vec<u8>)
        ensures
            r@ == method_text(*self),
    {
        let r = match self {
            Method::Get => vec![71u8, 69, 84],
            Method::Head => vec![72u8, 69, 65, 68],
            Method::Post => vec![80u8, 79, 83, 84],
            Method::Put => vec![80u8, 85, 84],
            Method::Delete => vec![68u8, 69, 76, 69, 84, 69],
            Method::Connect => vec![67u8, 79, 78, 78, 69, 67, 84],
            Method::Options => vec![79u8, 80, 84, 73, 79, 78, 83],
            Method::Trace => vec![84u8, 82, 65, 67, 69],
            Method::Patch => vec![80u8, 65, 84, 67, 72],
            Method::Other => vec![79u8, 84, 72, 69, 82],
        };
        assert(r@ =~= method_text(*self));
        r
    }
}

/// The label set of one series: method, route template and status code.
#[derive(Debug)]
pub struct Labels {
    pub method: Method,
    pub path: Vec<u8>,
    pub status: u16,
}

/// What a label set stands for: method, template bytes and status.
pub type LabelKey = (Method, Seq<u8>, u16);

impl View for Labels {
    type V = LabelKey;

    open spec fn view(&self) -> LabelKey {
        (self.method, self.path@, self.status)
    }
}

/// Decides whether a completed request is observed, and under which labels.
///
/// `matched` is the template of the declared route the router dispatched the
/// request to, or `None` when it fell through to the default "not found"
/// response. Only matched requests are observed, and the path label is the
/// template, so label values stay within the declared routes.
pub fn observation_labels(method: &[u8], matched: Option<&[u8]>, status: u16) -> (r: Option<
    Labels,
>)
    ensures
        matched.is_none() ==> r.is_none(),
        matched.is_some() ==> r.is_some() && r.unwrap()@ == (
            method_of(method@),
            matched.unwrap()@,
            status,
        ),
{
    match matched {
        None => None,
        Some(template) => Some(
            Labels { method: Method::parse(method), path: copy_bytes(template), status },
        ),
    }
}

} // verus!
