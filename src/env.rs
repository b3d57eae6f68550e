//! Substitution of `${NAME}` tokens by the values of environment variables,
//! applied to drop-rule response bodies when a configuration is loaded.

use vstd::prelude::*;
use vstd::string::*;

use crate::config::{Config, DropConfig, DropResponse, DropRule};
use crate::text::str_eq;

verus! {

/// The value of the first variable named `name` in `env`.
pub open spec fn env_lookup(env: Seq<(String, String)>, name: Seq<char>) -> Option<Seq<char>>
    decreases env.len(),
{
    if env.len() == 0 {
        None
    } else if env[0].0@ == name {
        Some(env[0].1@)
    } else {
        env_lookup(env.drop_first(), name)
    }
}

/// The index of the first `}` in `s` at or after `from`.
pub open spec fn close_brace(s: Seq<char>, from: int) -> Option<int>
    decreases s.len() - from,
{
    if from < 0 || from >= s.len() {
        None
    } else if s[from] == '}' {
        Some(from)
    } else {
        close_brace(s, from + 1)
    }
}

/// The end of a `${NAME}` token that starts at `i`: the index of its `}`.
pub open spec fn token_end(s: Seq<char>, i: int) -> Option<int> {
    if 0 <= i && i + 1 < s.len() && s[i] == '$' && s[i + 1] == '{' {
        close_brace(s, i + 2)
    } else {
        None
    }
}

/// What the token `s[i..=j]` becomes: the variable's value, or the token
/// itself, braces included, when the variable is unset.
pub open spec fn token_text(s: Seq<char>, env: Seq<(String, String)>, i: int, j: int) -> Seq<char> {
    match env_lookup(env, s.subrange(i + 2, j)) {
        Some(v) => v,
        None => s.subrange(i, j + 1),
    }
}

/// `s` from index `i` on, with every `${NAME}` token substituted.
pub open spec fn substitute_from(s: Seq<char>, env: Seq<(String, String)>, i: int) -> Seq<char>
    decreases s.len() - i,
{
    if i < 0 || i >= s.len() {
        Seq::empty()
    } else {
        let j = match token_end(s, i) {
            Some(j) => j,
            None => -1,
        };
        if i < j < s.len() {
            token_text(s, env, i, j) + substitute_from(s, env, j + 1)
        } else {
            seq![s[i]] + substitute_from(s, env, i + 1)
        }
    }
}

/// `s` with every `${NAME}` token substituted, left to right.
pub open spec fn substitute_env(s: Seq<char>, env: Seq<(String, String)>) -> Seq<char> {
    substitute_from(s, env, 0)
}

proof fn lemma_close_brace_bounds(s: Seq<char>, from: int)
    ensures
        close_brace(s, from) matches Some(j) ==> from <= j < s.len() && s[j] == '}',
    decreases s.len() - from,
{
    if 0 <= from < s.len() && s[from] != '}' {
        lemma_close_brace_bounds(s, from + 1);
    }
}

/// The value of the first variable named `name` in `env`.
fn lookup_var<'a>(env: &'a Vec<(String, String)>, name: &str) -> (r: Option<&'a String>)
    ensures
        r matches Some(v) ==> env_lookup(env@, name@) == Some(v@),
        r is None ==> env_lookup(env@, name@) is None,
{
    let mut i: usize = 0;
    assert(env@.subrange(0, env@.len() as int) =~= env@);
    while i < env.len()
        invariant
            i <= env@.len(),
            env_lookup(env@, name@) == env_lookup(env@.subrange(i as int, env@.len() as int), name@),
        decreases env@.len() - i,
    {
        let ghost rest = env@.subrange(i as int, env@.len() as int);
        assert(rest.drop_first() =~= env@.subrange(i + 1, env@.len() as int));
        if str_eq(env[i].0.as_str(), name) {
            return Some(&env[i].1);
        }
        i = i + 1;
    }
    None
}

/// The index of the first `}` in `s` at or after `from`.
fn find_close_brace(s: &str, from: usize) -> (r: Option<usize>)
    requires
        s@.len() <= usize::MAX,
    ensures
        r matches Some(j) ==> close_brace(s@, from as int) == Some(j as int),
        r is None ==> close_brace(s@, from as int) is None,
{
    let n = s.unicode_len();
    let mut k: usize = from;
    while k < n
        invariant
            n == s@.len(),
            from <= k,
            close_brace(s@, from as int) == close_brace(s@, k as int),
        decreases n - k,
    {
        if s.get_char(k) == '}' {
            return Some(k);
        }
        k = k + 1;
    }
    None
}

impl Config {
    /// Replaces each `${NAME}` token of `s` by the value of `NAME` in `env`
    /// (a list of variables, the first of a name counting); a token naming
    /// an unset variable stays as it is, braces included.
    pub fn substitute_env_in_string(s: &str, env: &Vec<(String, String)>) -> (r: String)
        ensures
            r@ == substitute_env(s@, env@),
    {
        let n = s.unicode_len();
        let mut out = String::new();
        let mut i: usize = 0;
        while i < n
            invariant
                n == s@.len(),
                i <= n,
                out@ + substitute_from(s@, env@, i as int) == substitute_env(s@, env@),
            decreases n - i,
        {
            let ghost j_spec = match token_end(s@, i as int) {
                Some(j) => j,
                None => -1,
            };
            let ghost before = out@;
            let mut end: Option<usize> = None;
            if i + 1 < n && s.get_char(i) == '$' && s.get_char(i + 1) == '{' {
                end = find_close_brace(s, i + 2);
                proof {
                    lemma_close_brace_bounds(s@, i + 2);
                }
            }
            match end {
                Some(j) => {
                    assert(j_spec == j as int);
                    let name = s.substring_char(i + 2, j);
                    match lookup_var(env, name) {
                        Some(v) => out.append(v.as_str()),
                        None => out.append(s.substring_char(i, j + 1)),
                    }
                    proof {
                        let piece = token_text(s@, env@, i as int, j as int);
                        let rest = substitute_from(s@, env@, j + 1);
                        assert(out@ == before + piece);
                        assert(substitute_from(s@, env@, i as int) == piece + rest);
                        assert(before + (piece + rest) =~= (before + piece) + rest);
                    }
                    i = j + 1;
                },
                None => {
                    assert(j_spec == -1 || !(i < j_spec < n)) by {
                        lemma_close_brace_bounds(s@, i + 2);
                    }
                    out.append(s.substring_char(i, i + 1));
                    proof {
                        let piece = seq![s@[i as int]];
                        let rest = substitute_from(s@, env@, i + 1);
                        assert(out@ =~= before + piece);
                        assert(substitute_from(s@, env@, i as int) == piece + rest);
                        assert(before + (piece + rest) =~= (before + piece) + rest);
                    }
                    i = i + 1;
                },
            }
        }
        assert(substitute_from(s@, env@, n as int) =~= Seq::<char>::empty());
        assert(out@ + Seq::<char>::empty() =~= out@);
        out
    }
}

/// `after` is `before` with `${NAME}` tokens substituted in its response
/// body, and nothing else changed.
pub open spec fn rule_substituted(before: DropRule, after: DropRule, env: Seq<(String, String)>) -> bool {
    &&& after.name == before.name
    &&& after.match_conditions == before.match_conditions
    &&& after.response.status_code == before.response.status_code
    &&& match before.response.body {
        Some(b) => after.response.body matches Some(a) && a@ == substitute_env(b@, env),
        None => after.response.body is None,
    }
}

/// `after` is `before` with `${NAME}` tokens substituted in every drop-rule
/// response body, and nothing else changed.
pub open spec fn env_applied(before: Config, after: Config, env: Seq<(String, String)>) -> bool {
    &&& after.server == before.server
    &&& after.logging == before.logging
    &&& after.response_logging == before.response_logging
    &&& after.drop.default == before.drop.default
    &&& after.drop.rules@.len() == before.drop.rules@.len()
    &&& forall|i: int|
        0 <= i < before.drop.rules@.len() ==> rule_substituted(
            #[trigger] before.drop.rules@[i],
            after.drop.rules@[i],
            env,
        )
}

fn substitute_rule(rule: DropRule, env: &Vec<(String, String)>) -> (r: DropRule)
    ensures
        rule_substituted(rule, r, env@),
{
    let DropRule { name, match_conditions, response } = rule;
    let body = match response.body {
        Some(b) => Some(Config::substitute_env_in_string(b.as_str(), env)),
        None => None,
    };
    DropRule {
        name,
        match_conditions,
        response: DropResponse { status_code: response.status_code, body },
    }
}

impl Config {
    /// The configuration with `${NAME}` tokens substituted in every
    /// drop-rule response body.
    pub fn substitute_env(self, env: &Vec<(String, String)>) -> (r: Config)
        ensures
            env_applied(self, r, env@),
    {
        let ghost before = self;
        let Config { server, logging, drop, response_logging } = self;
        let DropConfig { default, rules } = drop;
        let mut rest = rules;
        let mut done: Vec<DropRule> = Vec::new();
        let ghost n = rest@.len();
        while rest.len() > 0
            invariant
                before.drop.rules@.len() == n,
                done@.len() + rest@.len() == n,
                rest@ == before.drop.rules@.subrange(done@.len() as int, n as int),
                forall|j: int|
                    0 <= j < done@.len() ==> rule_substituted(
                        #[trigger] before.drop.rules@[j],
                        done@[j],
                        env@,
                    ),
            decreases rest@.len(),
        {
            let ghost k: int = done@.len() as int;
            let rule = rest.remove(0);
            assert(rule == before.drop.rules@[k]);
            done.push(substitute_rule(rule, env));
            assert(rest@ =~= before.drop.rules@.subrange(k + 1, n as int));
        }
        Config { server, logging, drop: DropConfig { default, rules: done }, response_logging }
    }
}

} // verus!
