//! Upstream resolution, per-rule timeouts, header hygiene and the decisions
//! of the request pipeline.

use vstd::prelude::*;
use vstd::string::*;

use crate::config::{CaptureConfig, Config, DropResponse, RequestInfo, ResponseCaptureConfig};
use crate::rules::{
    capture_chosen, drop_body_text, drop_status, drops, logs_request, logs_response,
    response_capture_chosen, timeout_for,
};
use crate::text::{eq_ignore_case, str_eq_ignore_case};

verus! {

/// A decimal digit.
pub open spec fn is_digit(c: char) -> bool {
    '0' <= c && c <= '9'
}

/// A non-empty run of decimal digits.
pub open spec fn is_numeral(s: Seq<char>) -> bool {
    s.len() > 0 && forall|i: int| 0 <= i < s.len() ==> is_digit(s[i])
}

/// The value of a run of decimal digits.
pub open spec fn numeral_value(s: Seq<char>) -> int
    decreases s.len(),
{
    if s.len() == 0 {
        0
    } else {
        numeral_value(s.drop_last()) * 10 + (s.last() as int - '0' as int)
    }
}

/// A duration literal, as its number and unit.
#[derive(Debug, Clone, Copy, PartialEq, Eq)]
pub enum DurationLiteral {
    Seconds(u64),
    Millis(u64),
}

/// A numeral whose value fits in a `u64`.
pub open spec fn small_numeral(s: Seq<char>) -> bool {
    is_numeral(s) && numeral_value(s) <= u64::MAX
}

/// What a duration literal denotes: a numeral followed by `ms` or `s`.
/// Anything else denotes no duration.
pub open spec fn duration_literal(s: Seq<char>) -> Option<DurationLiteral> {
    if s.len() >= 2 && s.subrange(s.len() - 2, s.len() as int) == "ms"@ && small_numeral(
        s.subrange(0, s.len() - 2),
    ) {
        Some(DurationLiteral::Millis(numeral_value(s.subrange(0, s.len() - 2)) as u64))
    } else if s.len() >= 1 && s.last() == 's' && small_numeral(s.subrange(0, s.len() - 1)) {
        Some(DurationLiteral::Seconds(numeral_value(s.subrange(0, s.len() - 1)) as u64))
    } else {
        None
    }
}

proof fn lemma_numeral_grows(s: Seq<char>, k: int)
    requires
        0 <= k <= s.len(),
        forall|i: int| 0 <= i < s.len() ==> is_digit(s[i]),
    ensures
        numeral_value(s.subrange(0, k)) <= numeral_value(s),
    decreases s.len(),
{
    if k < s.len() {
        let t = s.drop_last();
        assert(s.subrange(0, k) =~= t.subrange(0, k));
        lemma_numeral_grows(t, k);
        assert(numeral_value(t) >= 0) by {
            lemma_numeral_nonneg(t);
        }
    } else {
        assert(s.subrange(0, k) =~= s);
    }
}

proof fn lemma_numeral_nonneg(s: Seq<char>)
    requires
        forall|i: int| 0 <= i < s.len() ==> is_digit(s[i]),
    ensures
        numeral_value(s) >= 0,
    decreases s.len(),
{
    if s.len() > 0 {
        lemma_numeral_nonneg(s.drop_last());
    }
}

/// Reads the characters `from..to` of `s` as a decimal numeral that fits in
/// a `u64`.
fn read_numeral(s: &str, from: usize, to: usize) -> (r: Option<u64>)
    requires
        from <= to <= s@.len(),
    ensures
        r matches Some(v) ==> small_numeral(s@.subrange(from as int, to as int)) && v
            == numeral_value(s@.subrange(from as int, to as int)),
        r is None ==> !small_numeral(s@.subrange(from as int, to as int)),
{
    let ghost t = s@.subrange(from as int, to as int);
    if from == to {
        return None;
    }
    let mut value: u64 = 0;
    let mut i: usize = from;
    while i < to
        invariant
            from <= i <= to <= s@.len(),
            t == s@.subrange(from as int, to as int),
            forall|j: int| 0 <= j < i - from ==> is_digit(t[j]),
            value == numeral_value(t.subrange(0, i - from)),
        decreases to - i,
    {
        let c = s.get_char(i);
        if !('0' <= c && c <= '9') {
            assert(t[i - from] == c);
            return None;
        }
        let d = (c as u32 - '0' as u32) as u64;
        let ghost next = t.subrange(0, i + 1 - from);
        assert(next.drop_last() =~= t.subrange(0, i - from));
        assert(next.last() == c);
        if value > (u64::MAX - d) / 10 {
            proof {
                assert(numeral_value(next) > u64::MAX) by (nonlinear_arith)
                    requires
                        numeral_value(next) == value * 10 + d,
                        value > (u64::MAX - d) / 10,
                        d <= 9,
                ;
                if forall|j: int| 0 <= j < t.len() ==> is_digit(t[j]) {
                    lemma_numeral_grows(t, i + 1 - from);
                }
            }
            return None;
        }
        value = value * 10 + d;
        i = i + 1;
    }
    assert(t.subrange(0, to - from) =~= t);
    Some(value)
}

/// Reads a duration literal: a numeral followed by `ms` (milliseconds) or
/// `s` (seconds). Any other text, an empty one included, is no duration.
pub fn parse_duration_literal(s: &str) -> (r: Option<DurationLiteral>)
    ensures
        r == duration_literal(s@),
{
    proof {
        reveal_strlit("ms");
    }
    let n = s.unicode_len();
    if n >= 2 && s.get_char(n - 2) == 'm' && s.get_char(n - 1) == 's' {
        assert(s@.subrange(n - 2, n as int) =~= "ms"@);
        if let Some(v) = read_numeral(s, 0, n - 2) {
            return Some(DurationLiteral::Millis(v));
        }
    } else if n >= 2 {
        assert(s@.subrange(n - 2, n as int)[0] == s@[n - 2]);
        assert(s@.subrange(n - 2, n as int)[1] == s@[n - 1]);
    }
    if n >= 1 && s.get_char(n - 1) == 's' {
        match read_numeral(s, 0, n - 1) {
            Some(v) => Some(DurationLiteral::Seconds(v)),
            None => None,
        }
    } else {
        None
    }
}

/// The length of time that `Duration::from_secs(secs)` is.
pub uninterp spec fn secs_duration(secs: u64) -> std::time::Duration;

/// The length of time that `Duration::from_millis(millis)` is.
pub uninterp spec fn millis_duration(millis: u64) -> std::time::Duration;

/// The length of time a duration literal denotes.
pub open spec fn literal_duration(l: DurationLiteral) -> std::time::Duration {
    match l {
        DurationLiteral::Seconds(n) => secs_duration(n),
        DurationLiteral::Millis(n) => millis_duration(n),
    }
}

/// Relies on `std::time::Duration::from_secs`: `secs` whole seconds, a
/// value that depends on `secs` alone.
#[verifier::external_body]
fn duration_from_secs(secs: u64) -> (r: std::time::Duration)
    ensures
        r == secs_duration(secs),
{
    std::time::Duration::from_secs(secs)
}

/// Relies on `std::time::Duration::from_millis`: `millis` milliseconds, a
/// value that depends on `millis` alone.
#[verifier::external_body]
fn duration_from_millis(millis: u64) -> (r: std::time::Duration)
    ensures
        r == millis_duration(millis),
{
    std::time::Duration::from_millis(millis)
}

impl DurationLiteral {
    /// The length of time the literal denotes.
    pub fn to_duration(&self) -> (r: std::time::Duration)
        ensures
            r == literal_duration(*self),
    {
        match self {
            DurationLiteral::Seconds(n) => duration_from_secs(*n),
            DurationLiteral::Millis(n) => duration_from_millis(*n),
        }
    }
}

/// Parses a per-rule timeout such as `"30s"` or `"5000ms"`; a missing or
/// unknown unit, or an empty string, gives no timeout.
pub fn parse_duration_string(s: &str) -> (r: Option<std::time::Duration>)
    ensures
        r is Some <==> duration_literal(s@) is Some,
        r matches Some(d) ==> (duration_literal(s@) matches Some(l) && d == literal_duration(l)),
{
    match parse_duration_literal(s) {
        Some(lit) => Some(lit.to_duration()),
        None => None,
    }
}

/// The ways a proxied request can fail.
#[derive(Debug, Clone, PartialEq, Eq)]
pub enum ProxyError {
    /// The path names no upstream.
    NoUpstreamUrl,
    /// The path names something that is not an absolute URL with a host; it
    /// holds that text.
    InvalidUpstreamUrl(String),
    /// The inbound body could not be read in full.
    BodyReadError,
    /// The upstream could not be reached, or the exchange failed; it holds
    /// the transport's account of why.
    UpstreamRequestFailed(String),
    /// The upstream did not answer within the rule's timeout.
    TimeoutError,
}

/// Whether `s` parses as an absolute URL.
pub uninterp spec fn url_parses(s: Seq<char>) -> bool;

/// Whether the URL that `s` parses to has a host.
pub uninterp spec fn url_has_host(s: Seq<char>) -> bool;

/// Relies on `url::Url::parse` (re-exported as `reqwest::Url`), which fails
/// unless the text is an absolute URL, and on `url::Url::has_host`.
#[verifier::external_body]
fn check_absolute_url(s: &str) -> (r: Option<bool>)
    ensures
        r is Some <==> url_parses(s@),
        r matches Some(h) ==> h == url_has_host(s@),
{
    match reqwest::Url::parse(s) {
        Ok(url) => Some(url.has_host()),
        Err(_) => None,
    }
}

/// What follows the leading `/` of a path; a path without one names nothing.
pub open spec fn path_remainder(path: Seq<char>) -> Seq<char> {
    if path.len() > 0 && path[0] == '/' {
        path.drop_first()
    } else {
        Seq::empty()
    }
}

/// An upstream URL: absolute, with a scheme and a host.
pub open spec fn valid_upstream(u: Seq<char>) -> bool {
    url_parses(u) && url_has_host(u)
}

/// Decides on the remainder `rest` of a path, given what URL parsing said
/// of it (`None`: not an absolute URL; `Some(h)`: one, with a host iff `h`).
pub fn resolve_upstream(rest: &str, parsed: Option<bool>) -> (r: Result<String, ProxyError>)
    ensures
        rest@.len() == 0 ==> r == Err::<String, ProxyError>(ProxyError::NoUpstreamUrl),
        rest@.len() > 0 && parsed == Some(true) ==> (r matches Ok(u) && u@ == rest@),
        rest@.len() > 0 && parsed != Some(true) ==> (r matches Err(
            ProxyError::InvalidUpstreamUrl(u),
        ) && u@ == rest@),
{
    if rest.unicode_len() == 0 {
        return Err(ProxyError::NoUpstreamUrl);
    }
    match parsed {
        Some(true) => Ok(String::from_str(rest)),
        _ => Err(ProxyError::InvalidUpstreamUrl(String::from_str(rest))),
    }
}

/// The upstream URL named by an inbound path: the path without its leading
/// `/`, which must be an absolute URL with a host.
pub fn extract_upstream_url(path: &str) -> (r: Result<String, ProxyError>)
    ensures
        path_remainder(path@).len() == 0 ==> r == Err::<String, ProxyError>(
            ProxyError::NoUpstreamUrl,
        ),
        path_remainder(path@).len() > 0 && valid_upstream(path_remainder(path@)) ==> (r matches Ok(
            u,
        ) && u@ == path_remainder(path@)),
        path_remainder(path@).len() > 0 && !valid_upstream(path_remainder(path@)) ==> (r matches Err(
            ProxyError::InvalidUpstreamUrl(u),
        ) && u@ == path_remainder(path@)),
{
    let n = path.unicode_len();
    let rest: &str = if n > 0 && path.get_char(0) == '/' {
        path.substring_char(1, n)
    } else {
        path.substring_char(0, 0)
    };
    assert(rest@ =~= path_remainder(path@));
    if rest.unicode_len() == 0 {
        return Err(ProxyError::NoUpstreamUrl);
    }
    resolve_upstream(rest, check_absolute_url(rest))
}

/// The URL to forward to: the upstream, followed by the inbound query
/// string when there is one.
pub fn target_url(upstream: &str, query: Option<&str>) -> (r: String)
    ensures
        r@ == match query {
            Some(q) => upstream@ + "?"@ + q@,
            None => upstream@,
        },
{
    let base = String::from_str(upstream);
    match query {
        Some(q) => base.concat("?").concat(q),
        None => base,
    }
}

/// `name` is a hop-by-hop header name, in any ASCII case: a
/// connection-scoped header, which never crosses the proxy.
pub open spec fn is_hop_by_hop(name: Seq<char>) -> bool {
    ||| eq_ignore_case(name, "connection"@)
    ||| eq_ignore_case(name, "keep-alive"@)
    ||| eq_ignore_case(name, "proxy-authenticate"@)
    ||| eq_ignore_case(name, "proxy-authorization"@)
    ||| eq_ignore_case(name, "te"@)
    ||| eq_ignore_case(name, "trailers"@)
    ||| eq_ignore_case(name, "transfer-encoding"@)
    ||| eq_ignore_case(name, "upgrade"@)
}

/// The headers that are not hop-by-hop, in their order.
pub open spec fn end_to_end(headers: Seq<(String, String)>) -> Seq<(String, String)> {
    headers.filter(|h: (String, String)| !is_hop_by_hop(h.0@))
}

/// Whether `name` is a hop-by-hop header name.
pub fn is_hop_by_hop_header(name: &str) -> (r: bool)
    ensures
        r == is_hop_by_hop(name@),
{
    str_eq_ignore_case(name, "connection") || str_eq_ignore_case(name, "keep-alive")
        || str_eq_ignore_case(name, "proxy-authenticate") || str_eq_ignore_case(
        name,
        "proxy-authorization",
    ) || str_eq_ignore_case(name, "te") || str_eq_ignore_case(name, "trailers")
        || str_eq_ignore_case(name, "transfer-encoding") || str_eq_ignore_case(name, "upgrade")
}

/// Removes the hop-by-hop headers, keeping the others in their order.
pub fn strip_hop_by_hop(headers: &Vec<(String, String)>) -> (r: Vec<(String, String)>)
    ensures
        r@ == end_to_end(headers@),
{
    let ghost keep = |h: (String, String)| !is_hop_by_hop(h.0@);
    let mut r: Vec<(String, String)> = Vec::new();
    let mut i: usize = 0;
    proof {
        assert(headers@.subrange(0, 0) =~= Seq::<(String, String)>::empty());
        reveal_with_fuel(Seq::filter, 1);
    }
    while i < headers.len()
        invariant
            i <= headers@.len(),
            keep == (|h: (String, String)| !is_hop_by_hop(h.0@)),
            r@ == headers@.subrange(0, i as int).filter(keep),
        decreases headers@.len() - i,
    {
        let ghost before = headers@.subrange(0, i as int);
        proof {
            assert(headers@.subrange(0, i + 1) =~= before.push(headers@[i as int]));
            before.lemma_filter_push(headers@[i as int], keep);
        }
        if !is_hop_by_hop_header(headers[i].0.as_str()) {
            r.push((headers[i].0.clone(), headers[i].1.clone()));
        }
        i = i + 1;
    }
    assert(headers@.subrange(0, headers@.len() as int) =~= headers@);
    r
}

/// The status with which each failure is answered.
pub open spec fn error_status(e: ProxyError) -> u16 {
    match e {
        ProxyError::NoUpstreamUrl => 400,
        ProxyError::InvalidUpstreamUrl(_) => 400,
        ProxyError::BodyReadError => 400,
        ProxyError::UpstreamRequestFailed(_) => 502,
        ProxyError::TimeoutError => 504,
    }
}

/// The fields, in order, of the JSON object with which each failure is
/// answered.
pub open spec fn error_payload(e: ProxyError) -> Seq<(Seq<char>, Seq<char>)> {
    match e {
        ProxyError::NoUpstreamUrl => seq![
            ("error"@, "No upstream URL"@),
            (
                "message"@,
                "Missing target URL in path - example: http://localhost:3000/https://httpbin.org/post"@,
            ),
        ],
        ProxyError::InvalidUpstreamUrl(u) => seq![
            ("error"@, "Invalid upstream URL"@),
            ("url"@, u@),
        ],
        ProxyError::BodyReadError => seq![("error"@, "Failed to read request body"@)],
        ProxyError::UpstreamRequestFailed(d) => seq![
            ("error"@, "Upstream request failed"@),
            ("details"@, d@),
        ],
        ProxyError::TimeoutError => seq![("error"@, "Upstream timeout"@)],
    }
}

/// The text of each name and value of a list of pairs.
pub open spec fn pair_views(fields: Seq<(String, String)>) -> Seq<(Seq<char>, Seq<char>)> {
    fields.map_values(|f: (String, String)| (f.0@, f.1@))
}

fn pair(name: &str, value: &str) -> (r: (String, String))
    ensures
        r.0@ == name@,
        r.1@ == value@,
{
    (String::from_str(name), String::from_str(value))
}

impl ProxyError {
    /// The HTTP status of the error response.
    pub fn status_code(&self) -> (r: u16)
        ensures
            r == error_status(*self),
    {
        match self {
            ProxyError::NoUpstreamUrl => 400,
            ProxyError::InvalidUpstreamUrl(_) => 400,
            ProxyError::BodyReadError => 400,
            ProxyError::UpstreamRequestFailed(_) => 502,
            ProxyError::TimeoutError => 504,
        }
    }

    /// The fields of the JSON object that the error response carries.
    pub fn error_fields(&self) -> (r: Vec<(String, String)>)
        ensures
            pair_views(r@) == error_payload(*self),
    {
        let r = match self {
            ProxyError::NoUpstreamUrl => vec![
                pair("error", "No upstream URL"),
                pair(
                    "message",
                    "Missing target URL in path - example: http://localhost:3000/https://httpbin.org/post",
                ),
            ],
            ProxyError::InvalidUpstreamUrl(u) => vec![
                pair("error", "Invalid upstream URL"),
                pair("url", u.as_str()),
            ],
            ProxyError::BodyReadError => vec![pair("error", "Failed to read request body")],
            ProxyError::UpstreamRequestFailed(d) => vec![
                pair("error", "Upstream request failed"),
                pair("details", d.as_str()),
            ],
            ProxyError::TimeoutError => vec![pair("error", "Upstream timeout")],
        };
        assert(pair_views(r@) =~= error_payload(*self));
        r
    }
}

/// What the pipeline does with a request whose upstream and body are known.
#[derive(Debug)]
pub enum RequestPlan {
    /// Answer at once, without contacting the upstream; log the answer with
    /// `response_capture` if there is one.
    Drop { status_code: u16, body: String, response_capture: Option<ResponseCaptureConfig> },
    /// Send `method` to `url` with `headers` and the body bytes `payload`,
    /// waiting at most `timeout`; log the exchange with `capture` if there
    /// is one.
    Forward {
        method: String,
        url: String,
        payload: Vec<u8>,
        headers: Vec<(String, String)>,
        timeout: Option<DurationLiteral>,
        capture: Option<CaptureConfig>,
    },
}

/// `p` is the plan for a dropped request: the dropping rule's (or the
/// default) status and body, with the response-logging decision taken on
/// that answer.
pub open spec fn drop_plan_for(c: Config, req: RequestInfo, body: Seq<char>, p: RequestPlan) -> bool {
    p matches RequestPlan::Drop { status_code, body: b, response_capture } && {
        &&& status_code == drop_status(c, req, body)
        &&& b@ == drop_body_text(c, req, body)
        &&& (response_capture is Some <==> logs_response(c, status_code, Seq::empty(), b@))
        &&& (response_capture matches Some(rc) ==> response_capture_chosen(
            c,
            status_code,
            Seq::empty(),
            b@,
            rc,
        ))
    }
}

/// `p` is the plan that forwards a request to `url`: with its method and
/// body bytes `payload` unchanged, without hop-by-hop headers, under the
/// timeout and the logging decision of the first logging rule that matches.
pub open spec fn forward_plan_for(
    c: Config,
    req: RequestInfo,
    body: Seq<char>,
    payload: Seq<u8>,
    url: Seq<char>,
    p: RequestPlan,
) -> bool {
    p matches RequestPlan::Forward { method, url: u, payload: sent, headers, timeout, capture } && {
        &&& method@ == req.method@
        &&& u@ == url
        &&& sent@ == payload
        &&& headers@ == end_to_end(req.headers@)
        &&& timeout == timeout_for(c, req, body)
        &&& (capture is Some <==> logs_request(c, req, body))
        &&& (capture matches Some(cap) ==> capture_chosen(c, req, body, cap))
    }
}

fn drop_plan(config: &Config, d: DropResponse) -> (r: RequestPlan)
    ensures
        r matches RequestPlan::Drop { status_code, body: b, response_capture } && {
            &&& status_code == d.status_code
            &&& b@ == match d.body {
                Some(t) => t@,
                None => Seq::<char>::empty(),
            }
            &&& (response_capture is Some <==> logs_response(*config, status_code, Seq::empty(), b@))
            &&& (response_capture matches Some(rc) ==> response_capture_chosen(
                *config,
                status_code,
                Seq::empty(),
                b@,
                rc,
            ))
        },
{
    let text = match d.body {
        Some(b) => b,
        None => String::new(),
    };
    let no_headers: Vec<(String, String)> = Vec::new();
    let response_capture = config.should_log_response(d.status_code, &no_headers, text.as_str());
    assert(no_headers@ =~= Seq::<(String, String)>::empty());
    RequestPlan::Drop { status_code: d.status_code, body: text, response_capture }
}

fn forward_plan(config: &Config, req: &RequestInfo, url: String, body: &str, payload: Vec<u8>) -> (r:
    RequestPlan)
    ensures
        forward_plan_for(*config, *req, body@, payload@, url@, r),
{
    RequestPlan::Forward {
        method: req.method.clone(),
        url,
        payload,
        headers: strip_hop_by_hop(&req.headers),
        timeout: config.request_timeout(req, body),
        capture: config.should_log_request(req, body),
    }
}

/// Decides the fate of a request to upstream `url` with body bytes
/// `payload`, whose text is `body`: the drop rules come first; a request
/// that none of them drops is forwarded with its method and body unchanged,
/// without its hop-by-hop headers, under the timeout and the logging
/// decision of the first logging rule that matches.
pub fn plan_request(
    config: &Config,
    req: &RequestInfo,
    url: &str,
    body: &str,
    payload: Vec<u8>,
) -> (r: RequestPlan)
    ensures
        r is Drop <==> drops(*config, *req, body@),
        r is Drop ==> drop_plan_for(*config, *req, body@, r),
        r is Forward ==> forward_plan_for(*config, *req, body@, payload@, url@, r),
{
    match config.should_drop_request(req, body) {
        Some(d) => drop_plan(config, d),
        None => forward_plan(config, req, String::from_str(url), body, payload),
    }
}

/// Decides the fate of an inbound request from its path, query string,
/// body bytes `payload` and their text `body`, in this order:
/// - a path that names no upstream (nothing after the leading `/`) fails
///   with `NoUpstreamUrl`, whatever the drop rules say;
/// - then the drop rules: a dropped request needs no valid upstream and
///   never reaches one;
/// - then the upstream must be an absolute URL with a host, else
///   `InvalidUpstreamUrl`; the request is forwarded there, with the query
///   string appended.
pub fn route_request(
    config: &Config,
    req: &RequestInfo,
    query: Option<&str>,
    body: &str,
    payload: Vec<u8>,
) -> (r: Result<RequestPlan, ProxyError>)
    ensures
        path_remainder(req.path@).len() == 0 ==> r == Err::<RequestPlan, ProxyError>(
            ProxyError::NoUpstreamUrl,
        ),
        path_remainder(req.path@).len() > 0 && drops(*config, *req, body@) ==> (r matches Ok(p)
            && drop_plan_for(*config, *req, body@, p)),
        path_remainder(req.path@).len() > 0 && !drops(*config, *req, body@) ==> {
            let rest = path_remainder(req.path@);
            &&& valid_upstream(rest) ==> (r matches Ok(p) && forward_plan_for(
                *config,
                *req,
                body@,
                payload@,
                match query {
                    Some(q) => rest + "?"@ + q@,
                    None => rest,
                },
                p,
            ))
            &&& !valid_upstream(rest) ==> (r matches Err(ProxyError::InvalidUpstreamUrl(u)) && u@
                == rest)
        },
{
    let n = req.path.as_str().unicode_len();
    if n == 0 || req.path.as_str().get_char(0) != '/' || n == 1 {
        return Err(ProxyError::NoUpstreamUrl);
    }
    match config.should_drop_request(req, body) {
        Some(d) => Ok(drop_plan(config, d)),
        None => match extract_upstream_url(req.path.as_str()) {
            Ok(upstream) => Ok(
                forward_plan(config, req, target_url(upstream.as_str(), query), body, payload),
            ),
            Err(e) => Err(e),
        },
    }
}

/// What came back from the upstream call.
#[derive(Debug)]
pub enum UpstreamOutcome {
    /// A response, with its body bytes `payload` and their text `body`.
    Response { status: u16, headers: Vec<(String, String)>, body: String, payload: Vec<u8> },
    /// The rule's timeout ran out first.
    TimedOut,
    /// The call could not be made or failed; with the transport's reason.
    Failed(String),
}

/// A response to relay to the caller: the upstream's status, end-to-end
/// headers and body bytes, and the response-logging decision.
#[derive(Debug)]
pub struct RelayedResponse {
    pub status: u16,
    pub headers: Vec<(String, String)>,
    pub body: Vec<u8>,
    pub response_capture: Option<ResponseCaptureConfig>,
}

/// Turns the outcome of the upstream call into what the caller receives: a
/// relayed response, or the failure that replaces it.
pub fn relay_upstream(config: &Config, outcome: UpstreamOutcome) -> (r: Result<
    RelayedResponse,
    ProxyError,
>)
    ensures
        outcome matches UpstreamOutcome::Response { status, headers, body, payload } ==> (r matches Ok(
            rel,
        ) && {
            &&& rel.status == status
            &&& rel.body@ == payload@
            &&& rel.headers@ == end_to_end(headers@)
            &&& (rel.response_capture is Some <==> logs_response(
                *config,
                status,
                rel.headers@,
                body@,
            ))
            &&& (rel.response_capture matches Some(rc) ==> response_capture_chosen(
                *config,
                status,
                rel.headers@,
                body@,
                rc,
            ))
        }),
        outcome is TimedOut ==> r == Err::<RelayedResponse, ProxyError>(ProxyError::TimeoutError),
        outcome matches UpstreamOutcome::Failed(d) ==> r == Err::<RelayedResponse, ProxyError>(
            ProxyError::UpstreamRequestFailed(d),
        ),
{
    match outcome {
        UpstreamOutcome::Response { status, headers, body, payload } => {
            let relayed = strip_hop_by_hop(&headers);
            let response_capture = config.should_log_response(status, &relayed, body.as_str());
            Ok(RelayedResponse { status, headers: relayed, body: payload, response_capture })
        },
        UpstreamOutcome::TimedOut => Err(ProxyError::TimeoutError),
        UpstreamOutcome::Failed(d) => Err(ProxyError::UpstreamRequestFailed(d)),
    }
}

/// The time the proxy itself added to an exchange: the total time less the
/// time spent waiting on the upstream, or zero if the clock readings
/// disagree.
pub fn proxy_overhead(total_micros: u64, upstream_micros: u64) -> (r: u64)
    ensures
        r == if total_micros >= upstream_micros {
            total_micros - upstream_micros
        } else {
            0
        },
{
    if total_micros >= upstream_micros {
        total_micros - upstream_micros
    } else {
        0
    }
}

} // verus!
