//! Per-request validation and response construction.
//!
//! Each inbound request is reduced to its method and target path. The rules
//! are fixed: only `GET` is answered with content, and only on the one
//! metrics path; a wrong method gets `405`, a wrong path `404`, both with an
//! empty body. The functions here decide a whole request from plain values;
//! the listener that produces those values lives outside this crate.

use vstd::prelude::*;
use vstd::string::StrSliceExecFns;

verus! {

/// An HTTP request method. `Other` stands for any non-standard method.
#[derive(Clone, Copy, PartialEq, Eq, Structural, Debug)]
pub enum Method {
    Get,
    Head,
    Post,
    Put,
    Delete,
    Connect,
    Options,
    Trace,
    Patch,
    Other,
}

/// A response computed for one request: a status code and the body bytes.
pub struct HttpResponse {
    pub status: u16,
    pub body: Vec<u8>,
}

/// The one path that is served with content.
pub open spec fn spec_metrics_path() -> Seq<char> {
    "/metrics"@
}

/// The status code owed to a request: `405` for any method but `GET`,
/// `404` for any path but the metrics path, `200` otherwise.
pub open spec fn spec_status(method: Method, path: Seq<char>) -> int {
    if method != Method::Get {
        405
    } else if path != spec_metrics_path() {
        404
    } else {
        200
    }
}

/// The body owed to a request: the current snapshot on success, empty on
/// any rejection.
pub open spec fn spec_body(method: Method, path: Seq<char>, snapshot: Seq<u8>) -> Seq<u8> {
    if spec_status(method, path) == 200 {
        snapshot
    } else {
        Seq::<u8>::empty()
    }
}

/// Character-for-character equality of two string slices.
fn str_eq(a: &str, b: &str) -> (r: bool)
    ensures
        r == (a@ == b@),
{
    let a_len = a.unicode_len();
    let b_len = b.unicode_len();
    if a_len != b_len {
        return false;
    }
    let mut i: usize = 0;
    while i < a_len
        invariant
            a_len == a@.len(),
            b_len == b@.len(),
            a_len == b_len,
            i <= a_len,
            forall|j: int| 0 <= j < i ==> a@[j] == b@[j],
        decreases a@.len() - i,
    {
        if a.get_char(i) != b.get_char(i) {
            return false;
        }
        i = i + 1;
    }
    proof {
        assert(a@ =~= b@);
    }
    true
}

/// Decides one whole request: validates the method and the path, and builds
/// the response around the given snapshot of the metrics payload.
pub fn respond_to(method: Method, path: &str, snapshot: Vec<u8>) -> (r: HttpResponse)
    ensures
        r.status as int == spec_status(method, path@),
        r.body@ == spec_body(method, path@, snapshot@),
{
    if method != Method::Get {
        HttpResponse { status: 405, body: Vec::new() }
    } else if !str_eq(path, "/metrics") {
        HttpResponse { status: 404, body: Vec::new() }
    } else {
        HttpResponse { status: 200, body: snapshot }
    }
}

/// Law: a `GET` for any path other than the metrics path is answered `404`
/// with an empty body, whatever the buffer holds.
pub proof fn lemma_unknown_path_rejected(path: Seq<char>, snapshot: Seq<u8>)
    requires
        path != spec_metrics_path(),
    ensures
        spec_status(Method::Get, path) == 404,
        spec_body(Method::Get, path, snapshot) == Seq::<u8>::empty(),
{
}

/// Law: a request with any method other than `GET` is answered `405` with
/// an empty body, whatever the path and whatever the buffer holds.
pub proof fn lemma_non_get_rejected(method: Method, path: Seq<char>, snapshot: Seq<u8>)
    requires
        method != Method::Get,
    ensures
        spec_status(method, path) == 405,
        spec_body(method, path, snapshot) == Seq::<u8>::empty(),
{
}

/// Law: with nothing stored yet — an empty snapshot — a `GET` for the
/// metrics path is answered `200` with an empty body.
pub proof fn lemma_fresh_buffer_served_empty()
    ensures
        spec_status(Method::Get, spec_metrics_path()) == 200,
        spec_body(Method::Get, spec_metrics_path(), Seq::<u8>::empty()) == Seq::<u8>::empty(),
{
}

} // verus!
