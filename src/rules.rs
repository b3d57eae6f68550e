//! First-match-wins rule evaluation, shared by drop rules, request-logging
//! rules and response-logging rules.

use vstd::prelude::*;

use crate::config::{
    CaptureConfig, Config, DropResponse, MatchConditions, RequestInfo, ResponseCaptureConfig,
};
use crate::handlers::proxy::{duration_literal, parse_duration_literal, DurationLiteral};
use crate::matcher::{
    request_conditions_hold, request_matches, response_conditions_hold, response_matches,
};

verus! {

/// The index of the first `true` in `hits`, if there is one.
pub open spec fn first_hit(hits: Seq<bool>) -> Option<int>
    decreases hits.len(),
{
    if hits.len() == 0 {
        None
    } else if hits[0] {
        Some(0)
    } else {
        match first_hit(hits.drop_first()) {
            Some(i) => Some(i + 1),
            None => None,
        }
    }
}

/// `first_hit` names the earliest hit, and is empty exactly when nothing hits.
pub proof fn lemma_first_hit(hits: Seq<bool>)
    ensures
        match first_hit(hits) {
            Some(i) => 0 <= i < hits.len() && hits[i] && forall|j: int| 0 <= j < i ==> !hits[j],
            None => forall|j: int| 0 <= j < hits.len() ==> !hits[j],
        },
    decreases hits.len(),
{
    if hits.len() > 0 && !hits[0] {
        let rest = hits.drop_first();
        lemma_first_hit(rest);
        assert forall|j: int| 0 < j < hits.len() implies hits[j] == rest[j - 1] by {}
    }
}

/// Rule order decides: when rule `i` matches and no earlier rule does, rule
/// `i` is the one chosen, whatever the later rules would say.
pub proof fn first_match_wins(hits: Seq<bool>, i: int)
    requires
        0 <= i < hits.len(),
        hits[i],
        forall|j: int| 0 <= j < i ==> !hits[j],
    ensures
        first_hit(hits) == Some(i),
{
    lemma_first_hit(hits);
}

/// The fallback is taken exactly when no rule matches.
pub proof fn fallback_only_without_match(hits: Seq<bool>)
    ensures
        first_hit(hits) is None <==> forall|j: int| 0 <= j < hits.len() ==> !hits[j],
{
    lemma_first_hit(hits);
    if first_hit(hits) is Some {
        let i = first_hit(hits)->0;
        assert(hits[i]);
    }
}

/// Which drop rules match a request.
pub open spec fn drop_hits(c: Config, req: RequestInfo, body: Seq<char>) -> Seq<bool> {
    Seq::new(
        c.drop.rules@.len(),
        |i: int| request_conditions_hold(c.drop.rules@[i].match_conditions, req, body),
    )
}

/// Which request-logging rules match a request.
pub open spec fn log_hits(c: Config, req: RequestInfo, body: Seq<char>) -> Seq<bool> {
    Seq::new(
        c.logging.rules@.len(),
        |i: int| request_conditions_hold(c.logging.rules@[i].match_conditions, req, body),
    )
}

/// Which response-logging rules match a response.
pub open spec fn response_hits(
    c: Config,
    status: u16,
    headers: Seq<(String, String)>,
    body: Seq<char>,
) -> Seq<bool> {
    Seq::new(
        c.response_logging.rules@.len(),
        |i: int|
            response_conditions_hold(
                c.response_logging.rules@[i].match_conditions,
                status,
                headers,
                body,
            ),
    )
}

/// The response used when no drop rule matches and dropping is the default.
pub open spec fn is_default_drop(d: DropResponse) -> bool {
    d.status_code == 403 && (d.body matches Some(b) && b@ == "Request dropped by default"@)
}

/// What is captured when no logging rule matches and logging is the default:
/// everything but headers.
pub open spec fn is_default_capture(c: CaptureConfig) -> bool {
    c.headers@.len() == 0 && c.body && c.method && c.path && c.timing
}

/// What is captured when no response-logging rule matches and logging is
/// the default: everything but headers.
pub open spec fn is_default_response_capture(c: ResponseCaptureConfig) -> bool {
    c.headers@.len() == 0 && c.body && c.status_code && c.timing
}

/// Two capture settings that select the same fields.
pub open spec fn same_capture(a: CaptureConfig, b: CaptureConfig) -> bool {
    a.headers@ == b.headers@ && a.body == b.body && a.method == b.method && a.path == b.path
        && a.timing == b.timing
}

/// Two response capture settings that select the same fields.
pub open spec fn same_response_capture(a: ResponseCaptureConfig, b: ResponseCaptureConfig) -> bool {
    a.headers@ == b.headers@ && a.body == b.body && a.status_code == b.status_code && a.timing
        == b.timing
}

/// Whether a request is dropped: some drop rule matches, or dropping is the
/// default.
pub open spec fn drops(c: Config, req: RequestInfo, body: Seq<char>) -> bool {
    first_hit(drop_hits(c, req, body)) is Some || c.drop.default
}

/// The status of the response that replaces a dropped request.
pub open spec fn drop_status(c: Config, req: RequestInfo, body: Seq<char>) -> u16 {
    match first_hit(drop_hits(c, req, body)) {
        Some(i) => c.drop.rules@[i].response.status_code,
        None => 403,
    }
}

/// The body of the response that replaces a dropped request.
pub open spec fn drop_body_text(c: Config, req: RequestInfo, body: Seq<char>) -> Seq<char> {
    match first_hit(drop_hits(c, req, body)) {
        Some(i) => match c.drop.rules@[i].response.body {
            Some(b) => b@,
            None => Seq::empty(),
        },
        None => "Request dropped by default"@,
    }
}

/// Whether a response is logged: some response-logging rule matches, or
/// logging is the default.
pub open spec fn logs_response(
    c: Config,
    status: u16,
    headers: Seq<(String, String)>,
    body: Seq<char>,
) -> bool {
    first_hit(response_hits(c, status, headers, body)) is Some || c.response_logging.default
}

/// `cap` is what the response-logging decision captures for a response.
pub open spec fn response_capture_chosen(
    c: Config,
    status: u16,
    headers: Seq<(String, String)>,
    body: Seq<char>,
    cap: ResponseCaptureConfig,
) -> bool {
    match first_hit(response_hits(c, status, headers, body)) {
        Some(i) => same_response_capture(cap, c.response_logging.rules@[i].capture),
        None => c.response_logging.default && is_default_response_capture(cap),
    }
}

/// Whether a request is logged: some logging rule matches, or logging is
/// the default.
pub open spec fn logs_request(c: Config, req: RequestInfo, body: Seq<char>) -> bool {
    first_hit(log_hits(c, req, body)) is Some || c.logging.default
}

/// `cap` is what the request-logging decision captures for a request.
pub open spec fn capture_chosen(
    c: Config,
    req: RequestInfo,
    body: Seq<char>,
    cap: CaptureConfig,
) -> bool {
    match first_hit(log_hits(c, req, body)) {
        Some(i) => same_capture(cap, c.logging.rules@[i].capture),
        None => c.logging.default && is_default_capture(cap),
    }
}

/// The timeout for a request: that of the first logging rule that matches,
/// if it names one that parses.
pub open spec fn timeout_for(c: Config, req: RequestInfo, body: Seq<char>) -> Option<
    DurationLiteral,
> {
    match first_hit(log_hits(c, req, body)) {
        Some(i) => match c.logging.rules@[i].timeout {
            Some(t) => duration_literal(t@),
            None => None,
        },
        None => None,
    }
}

/// Among the drop rules, the first that matches decides: its response is
/// used, whatever later rules would match.
pub proof fn first_matching_drop_rule_decides(c: Config, req: RequestInfo, body: Seq<char>, i: int)
    requires
        0 <= i < c.drop.rules@.len(),
        request_conditions_hold(c.drop.rules@[i].match_conditions, req, body),
        forall|j: int|
            0 <= j < i ==> !request_conditions_hold(
                #[trigger] c.drop.rules@[j].match_conditions,
                req,
                body,
            ),
    ensures
        drops(c, req, body),
        first_hit(drop_hits(c, req, body)) == Some(i),
        drop_status(c, req, body) == c.drop.rules@[i].response.status_code,
        drop_body_text(c, req, body) == match c.drop.rules@[i].response.body {
            Some(b) => b@,
            None => Seq::<char>::empty(),
        },
{
    let hits = drop_hits(c, req, body);
    assert forall|j: int| 0 <= j < i implies !hits[j] by {
        assert(!request_conditions_hold(c.drop.rules@[j].match_conditions, req, body));
    }
    first_match_wins(hits, i);
}

/// The default drop response is used only when no drop rule matches.
pub proof fn drop_default_only_without_match(c: Config, req: RequestInfo, body: Seq<char>)
    ensures
        first_hit(drop_hits(c, req, body)) is None <==> forall|j: int|
            0 <= j < c.drop.rules@.len() ==> !request_conditions_hold(
                #[trigger] c.drop.rules@[j].match_conditions,
                req,
                body,
            ),
{
    let hits = drop_hits(c, req, body);
    fallback_only_without_match(hits);
    assert(forall|j: int| 0 <= j < hits.len() ==> hits[j] == request_conditions_hold(
        #[trigger] c.drop.rules@[j].match_conditions, req, body));
}

fn copy_strings(v: &Vec<String>) -> (r: Vec<String>)
    ensures
        r@ == v@,
{
    let mut r: Vec<String> = Vec::new();
    let mut i: usize = 0;
    while i < v.len()
        invariant
            i <= v@.len(),
            r@ == v@.subrange(0, i as int),
        decreases v@.len() - i,
    {
        r.push(v[i].clone());
        i = i + 1;
    }
    assert(r@ =~= v@);
    r
}

fn copy_drop_response(d: &DropResponse) -> (r: DropResponse)
    ensures
        r == *d,
{
    let body = match &d.body {
        Some(b) => Some(b.clone()),
        None => None,
    };
    DropResponse { status_code: d.status_code, body }
}

fn copy_capture(c: &CaptureConfig) -> (r: CaptureConfig)
    ensures
        same_capture(r, *c),
{
    CaptureConfig {
        headers: copy_strings(&c.headers),
        body: c.body,
        method: c.method,
        path: c.path,
        timing: c.timing,
    }
}

fn copy_response_capture(c: &ResponseCaptureConfig) -> (r: ResponseCaptureConfig)
    ensures
        same_response_capture(r, *c),
{
    ResponseCaptureConfig {
        headers: copy_strings(&c.headers),
        body: c.body,
        status_code: c.status_code,
        timing: c.timing,
    }
}

impl Config {
    /// Whether `req`, with body text `body`, satisfies `conditions`.
    pub fn matches_rule(&self, req: &RequestInfo, conditions: &MatchConditions, body: &str) -> (r:
        bool)
        ensures
            r == request_conditions_hold(*conditions, *req, body@),
    {
        request_matches(conditions, req, body)
    }

    /// The index of the first request-logging rule that matches, if any.
    pub fn first_log_rule(&self, req: &RequestInfo, body: &str) -> (r: Option<usize>)
        ensures
            r matches Some(i) ==> i < self.logging.rules@.len() && first_hit(
                log_hits(*self, *req, body@),
            ) == Some(i as int),
            r is None ==> first_hit(log_hits(*self, *req, body@)) is None,
    {
        let ghost hits = log_hits(*self, *req, body@);
        proof {
            lemma_first_hit(hits);
        }
        let mut i: usize = 0;
        while i < self.logging.rules.len()
            invariant
                i <= self.logging.rules@.len(),
                hits == log_hits(*self, *req, body@),
                forall|j: int| 0 <= j < i ==> !hits[j],
            decreases self.logging.rules@.len() - i,
        {
            if request_matches(&self.logging.rules[i].match_conditions, req, body) {
                proof {
                    first_match_wins(hits, i as int);
                }
                return Some(i);
            }
            i = i + 1;
        }
        proof {
            fallback_only_without_match(hits);
        }
        None
    }

    /// The drop decision: the response of the first drop rule that matches,
    /// else the default drop response if dropping is the default, else none.
    pub fn should_drop_request(&self, req: &RequestInfo, body: &str) -> (r: Option<DropResponse>)
        ensures
            match first_hit(drop_hits(*self, *req, body@)) {
                Some(i) => r == Some(self.drop.rules@[i].response),
                None => if self.drop.default {
                    r matches Some(d) && is_default_drop(d)
                } else {
                    r is None
                },
            },
    {
        let ghost hits = drop_hits(*self, *req, body@);
        let mut i: usize = 0;
        while i < self.drop.rules.len()
            invariant
                i <= self.drop.rules@.len(),
                hits == drop_hits(*self, *req, body@),
                forall|j: int| 0 <= j < i ==> !hits[j],
            decreases self.drop.rules@.len() - i,
        {
            if request_matches(&self.drop.rules[i].match_conditions, req, body) {
                proof {
                    first_match_wins(hits, i as int);
                }
                return Some(copy_drop_response(&self.drop.rules[i].response));
            }
            i = i + 1;
        }
        proof {
            fallback_only_without_match(hits);
        }
        if self.drop.default {
            Some(DropResponse { status_code: 403, body: Some("Request dropped by default".to_string()) })
        } else {
            None
        }
    }

    /// The request-logging decision: the capture of the first logging rule
    /// that matches, else the default capture if logging is the default,
    /// else none.
    pub fn should_log_request(&self, req: &RequestInfo, body: &str) -> (r: Option<CaptureConfig>)
        ensures
            match first_hit(log_hits(*self, *req, body@)) {
                Some(i) => r matches Some(c) && same_capture(c, self.logging.rules@[i].capture),
                None => if self.logging.default {
                    r matches Some(c) && is_default_capture(c)
                } else {
                    r is None
                },
            },
    {
        match self.first_log_rule(req, body) {
            Some(i) => Some(copy_capture(&self.logging.rules[i].capture)),
            None => {
                if self.logging.default {
                    Some(
                        CaptureConfig {
                            headers: Vec::new(),
                            body: true,
                            method: true,
                            path: true,
                            timing: true,
                        },
                    )
                } else {
                    None
                }
            },
        }
    }

    /// The response-logging decision: the capture of the first
    /// response-logging rule that matches, else the default capture if
    /// logging is the default, else none.
    pub fn should_log_response(&self, status: u16, headers: &Vec<(String, String)>, body: &str) -> (r:
        Option<ResponseCaptureConfig>)
        ensures
            match first_hit(response_hits(*self, status, headers@, body@)) {
                Some(i) => r matches Some(c) && same_response_capture(
                    c,
                    self.response_logging.rules@[i].capture,
                ),
                None => if self.response_logging.default {
                    r matches Some(c) && is_default_response_capture(c)
                } else {
                    r is None
                },
            },
    {
        let ghost hits = response_hits(*self, status, headers@, body@);
        let mut i: usize = 0;
        while i < self.response_logging.rules.len()
            invariant
                i <= self.response_logging.rules@.len(),
                hits == response_hits(*self, status, headers@, body@),
                forall|j: int| 0 <= j < i ==> !hits[j],
            decreases self.response_logging.rules@.len() - i,
        {
            if response_matches(&self.response_logging.rules[i].match_conditions, status, headers, body) {
                proof {
                    first_match_wins(hits, i as int);
                }
                return Some(copy_response_capture(&self.response_logging.rules[i].capture));
            }
            i = i + 1;
        }
        proof {
            fallback_only_without_match(hits);
        }
        if self.response_logging.default {
            Some(
                ResponseCaptureConfig {
                    headers: Vec::new(),
                    body: true,
                    status_code: true,
                    timing: true,
                },
            )
        } else {
            None
        }
    }

    /// The upstream timeout for a request: the timeout of the first logging
    /// rule that matches it. No match, no timeout on that rule, or one that
    /// does not parse, means no deadline.
    pub fn request_timeout(&self, req: &RequestInfo, body: &str) -> (r: Option<DurationLiteral>)
        ensures
            r == timeout_for(*self, *req, body@),
    {
        match self.first_log_rule(req, body) {
            Some(i) => match &self.logging.rules[i].timeout {
                Some(t) => parse_duration_literal(t.as_str()),
                None => None,
            },
            None => None,
        }
    }
}

} // verus!
