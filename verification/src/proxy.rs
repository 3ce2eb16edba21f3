//! Rewriting rules of the local reverse proxy.
//!
//! Every inbound request is re-issued to `http://127.0.0.1:<upstream_port>`
//! with its method and path/query verbatim. The outbound client decompresses
//! transparently, so the proxy always holds a decoded body; the
//! `content-encoding` and `content-length` fields would be stale on both
//! legs and are dropped, everything else is copied. A request that cannot be
//! served from upstream becomes an HTTP 502 with a diagnostic body and never
//! escapes its connection.

use vstd::prelude::*;
use crate::numfmt::{spec_udec, u16_to_dec};
use crate::strutil::{lower_seq, eq_ignore_ascii_case};

verus! {

/// The two header fields that are recomputed rather than copied: the body is
/// decoded in transit, so its encoding and length change.
pub open spec fn is_stripped_header(name: Seq<char>) -> bool {
    lower_seq(name) == "content-encoding"@ || lower_seq(name) == "content-length"@
}

/// Whether a header field is kept when copying.
pub open spec fn keep_header() -> spec_fn((String, String)) -> bool {
    |h: (String, String)| !is_stripped_header(h.0@)
}

/// The header list with the recomputed fields dropped; order and everything
/// else kept.
pub open spec fn spec_sanitize(hs: Seq<(String, String)>) -> Seq<(String, String)> {
    hs.filter(keep_header())
}

/// The URL a request is re-issued to: fixed loopback host, the upstream
/// port, and the original path and query verbatim (`/` when absent).
pub open spec fn spec_upstream_url(port: u16, path_and_query: Option<Seq<char>>) -> Seq<char> {
    "http://127.0.0.1:"@ + spec_udec(port as nat) + (match path_and_query {
        Some(p) => p,
        None => "/"@,
    })
}

/// The diagnostic body of a synthesized 502.
pub open spec fn spec_error_body(detail: Seq<char>) -> Seq<char> {
    "Proxy error: "@ + detail
}

/// What came back from the upstream exchange for one request.
#[derive(Debug)]
pub enum UpstreamOutcome {
    /// Upstream answered; body already decoded by the transport.
    Delivered { status: u16, headers: Vec<(String, String)>, body: String },
    /// Upstream could not be reached or read; `detail` says why.
    Unreachable { detail: String },
}

/// The response handed back on the inbound connection.
#[derive(Debug)]
pub struct BridgeResponse {
    /// Status code: upstream's own, or 502 when upstream failed.
    pub status: u16,
    /// Upstream headers with the recomputed fields dropped; empty on a 502.
    pub headers: Vec<(String, String)>,
    /// Decoded body, or the diagnostic on a 502.
    pub body: String,
}

/// True iff this header field is dropped when copying.
pub fn is_dropped_field(name: &str) -> (r: bool)
    ensures
        r == is_stripped_header(name@),
{
    eq_ignore_ascii_case(name, "content-encoding") || eq_ignore_ascii_case(
        name,
        "content-length",
    )
}

/// Copies a header list, dropping the recomputed fields.
pub fn sanitize_headers(headers: &Vec<(String, String)>) -> (r: Vec<(String, String)>)
    ensures
        r@ == spec_sanitize(headers@),
{
    let mut out: Vec<(String, String)> = Vec::new();
    let n = headers.len();
    let mut i: usize = 0;
    proof {
        reveal_with_fuel(Seq::filter, 2);
        assert(headers@.take(0int) =~= Seq::<(String, String)>::empty());
    }
    while i < n
        invariant
            n == headers@.len(),
            i <= n,
            out@ == spec_sanitize(headers@.take(i as int)),
        decreases n - i,
    {
        let h = &headers[i];
        let keep = !is_dropped_field(h.0.as_str());
        if keep {
            out.push((h.0.clone(), h.1.clone()));
        }
        proof {
            reveal_with_fuel(Seq::filter, 2);
            let x = headers@[i as int];
            let prefix = headers@.take(i as int);
            let next = headers@.take(i as int + 1);
            assert(next =~= prefix + seq![x]);
            Seq::filter_distributes_over_add(prefix, seq![x], keep_header());
            assert(seq![x].drop_last() =~= Seq::<(String, String)>::empty());
            assert(seq![x].filter(keep_header()) == if keep_header()(x) {
                seq![x]
            } else {
                Seq::<(String, String)>::empty()
            });
            if keep {
                assert(out@ =~= spec_sanitize(prefix) + seq![x]);
            } else {
                assert(out@ =~= spec_sanitize(prefix) + Seq::<(String, String)>::empty());
            }
        }
        i += 1;
    }
    proof {
        assert(headers@.take(n as int) =~= headers@);
    }
    out
}

/// Builds the upstream URL for one request.
pub fn build_upstream_url(upstream_port: u16, path_and_query: Option<&str>) -> (r: String)
    ensures
        r@ == spec_upstream_url(
            upstream_port,
            match path_and_query {
                Some(p) => Some(p@),
                None => None,
            },
        ),
{
    let mut url = String::from_str("http://127.0.0.1:");
    let port_dec = u16_to_dec(upstream_port);
    url.append(port_dec.as_str());
    match path_and_query {
        Some(p) => url.append(p),
        None => url.append("/"),
    }
    url
}

/// Builds the response for one proxied request. Upstream's answer keeps its
/// status and decoded body, with the recomputed header fields dropped; a
/// failed exchange becomes an HTTP 502 whose body is a nonempty diagnostic.
/// No other outcome exists: a request never escapes as an error.
pub fn synthesize_response(outcome: UpstreamOutcome) -> (r: BridgeResponse)
    ensures
        outcome matches UpstreamOutcome::Delivered { status, headers, body } ==> ({
            &&& r.status == status
            &&& r.headers@ == spec_sanitize(headers@)
            &&& r.body == body
        }),
        outcome matches UpstreamOutcome::Unreachable { detail } ==> ({
            &&& r.status == 502
            &&& r.headers@.len() == 0
            &&& r.body@ == spec_error_body(detail@)
            &&& r.body@.len() > 0
        }),
{
    match outcome {
        UpstreamOutcome::Delivered { status, headers, body } => {
            let sanitized = sanitize_headers(&headers);
            BridgeResponse { status, headers: sanitized, body }
        },
        UpstreamOutcome::Unreachable { detail } => {
            let mut body = String::from_str("Proxy error: ");
            body.append(detail.as_str());
            proof {
                reveal_strlit("Proxy error: ");
            }
            BridgeResponse { status: 502, headers: Vec::new(), body }
        },
    }
}

/// Nothing stripped survives sanitizing: the copied list never carries a
/// `content-encoding` or `content-length` field, and everything it carries
/// stood in the original list.
pub proof fn lemma_sanitize_strips(hs: Seq<(String, String)>)
    ensures
        forall|i: int|
            0 <= i < spec_sanitize(hs).len() ==> !is_stripped_header(
                #[trigger] spec_sanitize(hs)[i].0@,
            ),
        forall|i: int| 0 <= i < spec_sanitize(hs).len() ==> hs.contains(#[trigger] spec_sanitize(hs)[i]),
        forall|i: int|
            0 <= i < hs.len() && !is_stripped_header(hs[i].0@) ==> spec_sanitize(hs).contains(
                hs[i],
            ),
{
    let pred = keep_header();
    assert forall|i: int| 0 <= i < spec_sanitize(hs).len() implies !is_stripped_header(
        #[trigger] spec_sanitize(hs)[i].0@,
    ) by {
        hs.lemma_filter_pred(pred, i);
    }
    assert forall|i: int| 0 <= i < spec_sanitize(hs).len() implies hs.contains(
        #[trigger] spec_sanitize(hs)[i],
    ) by {
        lemma_filter_elems(hs, pred, i);
    }
    assert forall|i: int| 0 <= i < hs.len() && !is_stripped_header(hs[i].0@) implies spec_sanitize(
        hs,
    ).contains(hs[i]) by {
        assert(pred(hs[i]));
        hs.lemma_filter_contains(pred, i);
    }
}

/// Every element of a filtered sequence is an element of the original.
proof fn lemma_filter_elems(hs: Seq<(String, String)>, pred: spec_fn((String, String)) -> bool, i: int)
    requires
        0 <= i < hs.filter(pred).len(),
    ensures
        hs.contains(hs.filter(pred)[i]),
    decreases hs.len(),
{
    reveal(Seq::filter);
    hs.lemma_filter_len(pred);
    if hs.len() > 0 {
        let prefix = hs.drop_last();
        if pred(hs.last()) && i == hs.filter(pred).len() - 1 {
            assert(hs.filter(pred)[i] == hs.last());
            assert(hs[hs.len() - 1] == hs.last());
        } else {
            lemma_filter_elems(prefix, pred, i);
            let j = choose|j: int| 0 <= j < prefix.len() && prefix[j] == prefix.filter(pred)[i];
            assert(hs[j] == prefix[j]);
            assert(hs.filter(pred)[i] == prefix.filter(pred)[i]);
        }
    }
}

} // verus!
