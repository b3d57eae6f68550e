//! Regular-expression search, the one primitive that every rule is built on.

use vstd::prelude::*;

use crate::config::{MatchConditions, RequestInfo, ResponseMatchConditions};
use crate::text::{eq_ignore_case, str_eq, str_eq_ignore_case};

verus! {

/// Whether `pattern` compiles as a regular expression.
pub uninterp spec fn regex_compiles(pattern: Seq<char>) -> bool;

/// Whether the compiled `pattern` matches somewhere in `text` (a search,
/// not an anchored match).
pub uninterp spec fn regex_finds(pattern: Seq<char>, text: Seq<char>) -> bool;

/// Relies on `regex::Regex::new`, which returns an error for a pattern it
/// cannot compile, and on `regex::Regex::is_match`, which reports whether
/// the compiled pattern matches anywhere in the haystack.
#[verifier::external_body]
fn regex_search(pattern: &str, text: &str) -> (r: Option<bool>)
    ensures
        r.is_some() == regex_compiles(pattern@),
        r matches Some(b) ==> b == regex_finds(pattern@, text@),
{
    match regex::Regex::new(pattern) {
        Ok(re) => Some(re.is_match(text)),
        Err(_) => None,
    }
}

/// A pattern hits a text when it compiles and matches somewhere in it; a
/// pattern that does not compile hits nothing.
pub open spec fn pattern_hits(pattern: Seq<char>, text: Seq<char>) -> bool {
    regex_compiles(pattern) && regex_finds(pattern, text)
}

/// At least one of `patterns` hits `text`.
pub open spec fn any_pattern_hits(patterns: Seq<String>, text: Seq<char>) -> bool {
    exists|i: int| 0 <= i < patterns.len() && pattern_hits(#[trigger] patterns[i]@, text)
}

/// A list of patterns that is empty, or of which one hits `text`.
pub open spec fn patterns_admit(patterns: Seq<String>, text: Seq<char>) -> bool {
    patterns.len() == 0 || any_pattern_hits(patterns, text)
}

/// Searches `text` for `pattern`; a pattern that does not compile never
/// matches.
pub fn pattern_matches(pattern: &str, text: &str) -> (r: bool)
    ensures
        r == pattern_hits(pattern@, text@),
{
    match regex_search(pattern, text) {
        Some(found) => found,
        None => false,
    }
}

/// Whether any of `patterns` matches `text`, trying them in order and
/// stopping at the first that does.
pub fn any_pattern_matches(patterns: &Vec<String>, text: &str) -> (r: bool)
    ensures
        r == any_pattern_hits(patterns@, text@),
{
    let mut i: usize = 0;
    while i < patterns.len()
        invariant
            i <= patterns@.len(),
            forall|j: int| 0 <= j < i ==> !pattern_hits(#[trigger] patterns@[j]@, text@),
        decreases patterns@.len() - i,
    {
        if pattern_matches(patterns[i].as_str(), text) {
            return true;
        }
        i = i + 1;
    }
    false
}

/// The OR of a pattern category: an empty list admits every text.
pub fn patterns_allow(patterns: &Vec<String>, text: &str) -> (r: bool)
    ensures
        r == patterns_admit(patterns@, text@),
{
    patterns.len() == 0 || any_pattern_matches(patterns, text)
}

/// The method category: an empty list allows every method, otherwise the
/// method must equal one entry exactly (case counts).
pub open spec fn method_allowed(methods: Seq<String>, method: Seq<char>) -> bool {
    methods.len() == 0 || exists|i: int| 0 <= i < methods.len() && #[trigger] methods[i]@ == method
}

/// Header `h` carries the name `name`.
pub open spec fn names_header(h: (String, String), name: Seq<char>) -> bool {
    eq_ignore_case(h.0@, name)
}

/// The first header of `headers` named `name` is at index `i`.
pub open spec fn first_header_at(headers: Seq<(String, String)>, name: Seq<char>, i: int) -> bool {
    &&& 0 <= i < headers.len()
    &&& names_header(headers[i], name)
    &&& forall|j: int| 0 <= j < i ==> !names_header(#[trigger] headers[j], name)
}

/// A header named `name` is present and `pattern` hits the value of the
/// first one.
pub open spec fn header_requirement_met(
    headers: Seq<(String, String)>,
    name: Seq<char>,
    pattern: Seq<char>,
) -> bool {
    exists|i: int| #[trigger]
        first_header_at(headers, name, i) && pattern_hits(pattern, headers[i].1@)
}

/// The header category: every requirement (a name and a pattern) is met.
pub open spec fn headers_satisfied(
    required: Seq<(String, String)>,
    headers: Seq<(String, String)>,
) -> bool {
    forall|k: int|
        0 <= k < required.len() ==> header_requirement_met(
            headers,
            #[trigger] required[k].0@,
            required[k].1@,
        )
}

/// A request satisfies every category of `c`; `body` is the request body
/// as text.
pub open spec fn request_conditions_hold(c: MatchConditions, req: RequestInfo, body: Seq<char>) -> bool {
    &&& method_allowed(c.methods@, req.method@)
    &&& patterns_admit(c.path.patterns@, req.path@)
    &&& headers_satisfied(c.headers@, req.headers@)
    &&& patterns_admit(c.body.patterns@, body)
}

/// The status category: an empty list allows every status.
pub open spec fn status_allowed(codes: Seq<u16>, status: u16) -> bool {
    codes.len() == 0 || exists|i: int| 0 <= i < codes.len() && codes[i] == status
}

/// A response satisfies every category of `c`.
pub open spec fn response_conditions_hold(
    c: ResponseMatchConditions,
    status: u16,
    headers: Seq<(String, String)>,
    body: Seq<char>,
) -> bool {
    &&& status_allowed(c.status_codes@, status)
    &&& headers_satisfied(c.headers@, headers)
    &&& patterns_admit(c.body.patterns@, body)
}

/// Whether `method` is allowed by the method category.
pub fn method_matches(methods: &Vec<String>, method: &str) -> (r: bool)
    ensures
        r == method_allowed(methods@, method@),
{
    if methods.len() == 0 {
        return true;
    }
    let mut i: usize = 0;
    while i < methods.len()
        invariant
            i <= methods@.len(),
            forall|j: int| 0 <= j < i ==> #[trigger] methods@[j]@ != method@,
        decreases methods@.len() - i,
    {
        if str_eq(methods[i].as_str(), method) {
            return true;
        }
        i = i + 1;
    }
    false
}

/// Whether the first header named `name` exists and `pattern` matches its
/// value. A missing header, or a pattern that does not compile, fails.
pub fn header_matches(headers: &Vec<(String, String)>, name: &str, pattern: &str) -> (r: bool)
    ensures
        r == header_requirement_met(headers@, name@, pattern@),
{
    let mut i: usize = 0;
    while i < headers.len()
        invariant
            i <= headers@.len(),
            forall|j: int| 0 <= j < i ==> !names_header(#[trigger] headers@[j], name@),
        decreases headers@.len() - i,
    {
        if str_eq_ignore_case(headers[i].0.as_str(), name) {
            assert(first_header_at(headers@, name@, i as int));
            let hit = pattern_matches(pattern, headers[i].1.as_str());
            assert forall|k: int| #[trigger]
                first_header_at(headers@, name@, k) implies k == i by {
                if k < i {
                    assert(!names_header(headers@[k], name@));
                } else if k > i {
                    assert(!names_header(headers@[i as int], name@));
                }
            }
            return hit;
        }
        i = i + 1;
    }
    false
}

/// Whether every header requirement is met.
pub fn headers_match(required: &Vec<(String, String)>, headers: &Vec<(String, String)>) -> (r: bool)
    ensures
        r == headers_satisfied(required@, headers@),
{
    let mut k: usize = 0;
    while k < required.len()
        invariant
            k <= required@.len(),
            forall|j: int|
                0 <= j < k ==> header_requirement_met(
                    headers@,
                    #[trigger] required@[j].0@,
                    required@[j].1@,
                ),
        decreases required@.len() - k,
    {
        if !header_matches(headers, required[k].0.as_str(), required[k].1.as_str()) {
            return false;
        }
        k = k + 1;
    }
    true
}

/// Whether `status` is allowed by the status category.
pub fn status_matches(codes: &Vec<u16>, status: u16) -> (r: bool)
    ensures
        r == status_allowed(codes@, status),
{
    if codes.len() == 0 {
        return true;
    }
    let mut i: usize = 0;
    while i < codes.len()
        invariant
            i <= codes@.len(),
            forall|j: int| 0 <= j < i ==> codes@[j] != status,
        decreases codes@.len() - i,
    {
        if codes[i] == status {
            return true;
        }
        i = i + 1;
    }
    false
}

/// Evaluates request conditions: methods, then path, then headers, then
/// body, stopping at the first category that fails.
pub fn request_matches(c: &MatchConditions, req: &RequestInfo, body: &str) -> (r: bool)
    ensures
        r == request_conditions_hold(*c, *req, body@),
{
    method_matches(&c.methods, req.method.as_str()) && patterns_allow(
        &c.path.patterns,
        req.path.as_str(),
    ) && headers_match(&c.headers, &req.headers) && patterns_allow(&c.body.patterns, body)
}

/// Evaluates response conditions: status, then headers, then body.
pub fn response_matches(
    c: &ResponseMatchConditions,
    status: u16,
    headers: &Vec<(String, String)>,
    body: &str,
) -> (r: bool)
    ensures
        r == response_conditions_hold(*c, status, headers@, body@),
{
    status_matches(&c.status_codes, status) && headers_match(&c.headers, headers)
        && patterns_allow(&c.body.patterns, body)
}

/// A pattern that does not compile matches nothing.
pub proof fn invalid_pattern_never_matches(pattern: Seq<char>, text: Seq<char>)
    requires
        !regex_compiles(pattern),
    ensures
        !pattern_hits(pattern, text),
{
}

/// Conditions whose only path pattern does not compile match no request:
/// the bad pattern makes the rule fail to match, it raises no error.
pub proof fn invalid_path_pattern_fails_rule(c: MatchConditions, req: RequestInfo, body: Seq<char>)
    requires
        c.path.patterns@.len() == 1,
        !regex_compiles(c.path.patterns@[0]@),
    ensures
        !request_conditions_hold(c, req, body),
{
}

/// Conditions with every category empty match every request.
pub proof fn empty_conditions_match_all(c: MatchConditions, req: RequestInfo, body: Seq<char>)
    requires
        c.methods@.len() == 0,
        c.path.patterns@.len() == 0,
        c.headers@.len() == 0,
        c.body.patterns@.len() == 0,
    ensures
        request_conditions_hold(c, req, body),
{
}

} // verus!
