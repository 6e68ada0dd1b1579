//! The forward handler: given the upstream response for an absolute
//! URI, it stamps the diagnostic header, leaves status, body and every
//! other header untouched, and decides whether the body is mirrored.
use vstd::prelude::*;
use crate::policy::decide;
use crate::policy::file_segment;
use crate::policy::save_directory;
use crate::policy::should_save;
use crate::policy::MirrorDecision;
use crate::registry::lookup;
use crate::registry::MirrorRegistry;

verus! {

/// One response header: a name and a value.
pub struct Header {
    pub name: String,
    pub value: String,
}

impl View for Header {
    type V = (Seq<char>, Seq<char>);

    open spec fn view(&self) -> (Seq<char>, Seq<char>) {
        (self.name@, self.value@)
    }
}

/// A fully buffered upstream response: status code, headers, and the
/// materialized body bytes.
pub struct ProxyResponse {
    pub status: u16,
    pub headers: Vec<Header>,
    pub body: Vec<u8>,
}

/// The views of a sequence of headers.
pub open spec fn headers_view(hs: Seq<Header>) -> Seq<(Seq<char>, Seq<char>)> {
    hs.map_values(|h: Header| h@)
}

/// The name of the diagnostic header every forwarded response carries.
pub open spec fn diagnostic_header_name() -> Seq<char> {
    "X-Proxy-Server"@
}

/// The exact diagnostic value: `yes; https-proxy-rs v.` followed by
/// the version, or by `unknown` when version metadata is absent.
pub open spec fn diagnostic_header_value(version: Option<Seq<char>>) -> Seq<char> {
    "yes; https-proxy-rs v."@ + match version {
        Some(v) => v,
        None => "unknown"@,
    }
}

/// The view of an optional version string.
pub open spec fn version_view(version: Option<&str>) -> Option<Seq<char>> {
    match version {
        Some(v) => Some(v@),
        None => None,
    }
}

/// The headers that survive stamping: every header whose name is not
/// the diagnostic name, in their original order.
pub open spec fn kept_headers(hs: Seq<(Seq<char>, Seq<char>)>) -> Seq<(Seq<char>, Seq<char>)>
    decreases hs.len(),
{
    if hs.len() == 0 {
        Seq::empty()
    } else if hs.last().0 == diagnostic_header_name() {
        kept_headers(hs.drop_last())
    } else {
        kept_headers(hs.drop_last()).push(hs.last())
    }
}

/// Headers after stamping: the kept headers followed by the diagnostic
/// header, any preexisting value for that name overwritten.
pub open spec fn stamped_headers(
    hs: Seq<(Seq<char>, Seq<char>)>,
    version: Option<Seq<char>>,
) -> Seq<(Seq<char>, Seq<char>)> {
    kept_headers(hs).push((diagnostic_header_name(), diagnostic_header_value(version)))
}

/// Stamping keeps exactly the headers whose name differs from the
/// diagnostic name.
pub proof fn lemma_kept_headers_is_filter(hs: Seq<(Seq<char>, Seq<char>)>)
    ensures
        kept_headers(hs) =~= hs.filter(
            (|p: (Seq<char>, Seq<char>)| p.0 != diagnostic_header_name()),
        ),
    decreases hs.len(),
{
    reveal(Seq::filter);
    if hs.len() > 0 {
        lemma_kept_headers_is_filter(hs.drop_last());
    }
}

/// No kept header carries the diagnostic name.
pub proof fn lemma_kept_headers_no_diagnostic(hs: Seq<(Seq<char>, Seq<char>)>)
    ensures
        forall|i: int|
            0 <= i < kept_headers(hs).len() ==> (#[trigger] kept_headers(hs)[i]).0
                != diagnostic_header_name(),
    decreases hs.len(),
{
    if hs.len() > 0 {
        lemma_kept_headers_no_diagnostic(hs.drop_last());
        if hs.last().0 != diagnostic_header_name() {
            assert(forall|i: int|
                0 <= i < kept_headers(hs).len() - 1 ==> kept_headers(hs)[i]
                    == kept_headers(hs.drop_last())[i]);
        }
    }
}

/// A sequence without the diagnostic name is kept whole.
pub proof fn lemma_kept_headers_identity(hs: Seq<(Seq<char>, Seq<char>)>)
    requires
        forall|i: int| 0 <= i < hs.len() ==> (#[trigger] hs[i]).0 != diagnostic_header_name(),
    ensures
        kept_headers(hs) =~= hs,
    decreases hs.len(),
{
    if hs.len() > 0 {
        assert(forall|i: int| 0 <= i < hs.len() - 1 ==> hs.drop_last()[i] == hs[i]);
        lemma_kept_headers_identity(hs.drop_last());
    }
}

/// Law: when the upstream response carries no diagnostic header,
/// stamping appends the diagnostic header and leaves every original
/// header in place, in order.
pub proof fn lemma_stamp_preserves_other_headers(
    hs: Seq<(Seq<char>, Seq<char>)>,
    version: Option<Seq<char>>,
)
    requires
        forall|i: int| 0 <= i < hs.len() ==> (#[trigger] hs[i]).0 != diagnostic_header_name(),
    ensures
        stamped_headers(hs, version) =~= hs.push(
            (diagnostic_header_name(), diagnostic_header_value(version)),
        ),
{
    lemma_kept_headers_identity(hs);
}

/// Law: after stamping, the diagnostic header is present, is the only
/// header with the diagnostic name, and has the exact specified value.
pub proof fn lemma_stamp_sets_diagnostic(
    hs: Seq<(Seq<char>, Seq<char>)>,
    version: Option<Seq<char>>,
)
    ensures
        stamped_headers(hs, version).len() >= 1,
        stamped_headers(hs, version).last() == (
            diagnostic_header_name(),
            diagnostic_header_value(version),
        ),
        forall|i: int|
            0 <= i < stamped_headers(hs, version).len() - 1 ==> (#[trigger] stamped_headers(
                hs,
                version,
            )[i]).0 != diagnostic_header_name(),
{
    lemma_kept_headers_no_diagnostic(hs);
    assert(forall|i: int|
        0 <= i < kept_headers(hs).len() ==> stamped_headers(hs, version)[i] == kept_headers(
            hs,
        )[i]);
}

/// Builds the diagnostic header announcing proxy identity and version.
pub fn make_proxy_header(version: Option<&str>) -> (h: Header)
    ensures
        h@.0 == diagnostic_header_name(),
        h@.1 == diagnostic_header_value(version_view(version)),
{
    let name = "X-Proxy-Server".to_owned();
    let mut value = "yes; https-proxy-rs v.".to_owned();
    match version {
        Some(v) => value.append(v),
        None => value.append("unknown"),
    }
    Header { name, value }
}

/// Replaces every header named like the diagnostic header with the
/// single diagnostic header, appended last.
pub fn stamp_proxy_header(headers: Vec<Header>, version: Option<&str>) -> (r: Vec<Header>)
    ensures
        headers_view(r@) =~= stamped_headers(headers_view(headers@), version_view(version)),
{
    let ghost orig = headers@;
    let mut rest = headers;
    let mut kept: Vec<Header> = Vec::new();
    proof {
        assert(orig.subrange(0, 0).len() == 0);
        assert(headers_view(kept@) =~= kept_headers(headers_view(orig.subrange(0, 0))));
    }
    while rest.len() > 0
        invariant
            rest@.len() <= orig.len(),
            rest@ =~= orig.subrange(orig.len() - rest@.len(), orig.len() as int),
            headers_view(kept@) =~= kept_headers(
                headers_view(orig.subrange(0, orig.len() - rest@.len())),
            ),
        decreases rest@.len(),
    {
        let ghost done = orig.len() - rest@.len();
        let ghost prev = rest@;
        let h = rest.remove(0);
        proof {
            assert(prev[0] == orig.subrange(done, orig.len() as int)[0]);
            assert(h == orig[done]);
            assert(rest@ =~= orig.subrange(done + 1, orig.len() as int));
            assert(orig.subrange(0, done + 1).drop_last() =~= orig.subrange(0, done));
            assert(orig.subrange(0, done + 1).last() == orig[done]);
            assert(headers_view(orig.subrange(0, done + 1)).drop_last() =~= headers_view(
                orig.subrange(0, done),
            ));
            assert(headers_view(orig.subrange(0, done + 1)).last() == orig[done]@);
        }
        if !crate::text::str_eq(h.name.as_str(), "X-Proxy-Server") {
            kept.push(h);
        }
        proof {
            assert(headers_view(kept@) =~= kept_headers(
                headers_view(orig.subrange(0, done + 1)),
            ));
        }
    }
    proof {
        assert(orig.subrange(0, orig.len() as int) =~= orig);
    }
    let diagnostic = make_proxy_header(version);
    kept.push(diagnostic);
    kept
}

/// The host a mirror is looked up under: the URI's host component, or
/// the literal loopback fallback when the URI has none.
pub open spec fn effective_host(host: Option<Seq<char>>) -> Seq<char> {
    match host {
        Some(h) => h,
        None => "127.0.0.1"@,
    }
}

/// The view of an optional host string.
pub open spec fn host_view(host: Option<&str>) -> Option<Seq<char>> {
    match host {
        Some(h) => Some(h@),
        None => None,
    }
}

/// The forward handler's pure part: stamps the diagnostic header onto
/// the upstream response, leaving status, body and all other headers
/// byte-identical, and decides whether and where the body is mirrored.
/// An unknown host yields no mirror target and no further effect.
pub fn forward(
    registry: &MirrorRegistry,
    host: Option<&str>,
    path: &str,
    response: ProxyResponse,
    version: Option<&str>,
) -> (r: (ProxyResponse, MirrorDecision))
    ensures
        r.0.status == response.status,
        r.0.body@ == response.body@,
        headers_view(r.0.headers@) =~= stamped_headers(
            headers_view(response.headers@),
            version_view(version),
        ),
        lookup(registry@, effective_host(host_view(host))) is None ==> r.1 is Skip,
        lookup(registry@, effective_host(host_view(host))) matches Some(m) ==> (if should_save(
            m,
            path@,
        ) {
            &&& r.1 matches MirrorDecision::Save { directory, file_name }
            &&& directory@ == save_directory(m, path@)
            &&& file_name@ == file_segment(path@)
        } else {
            r.1 is Skip
        }),
{
    let ProxyResponse { status, headers, body } = response;
    let stamped = stamp_proxy_header(headers, version);
    let effective = match host {
        Some(h) => h,
        None => "127.0.0.1",
    };
    let decision = match registry.get(effective) {
        Some(mirror) => decide(mirror, path),
        None => MirrorDecision::Skip,
    };
    (ProxyResponse { status, headers: stamped, body }, decision)
}

} // verus!
