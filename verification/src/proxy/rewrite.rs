use vstd::prelude::*;

use crate::db::entities::route_rules;
use crate::text::{chars_of, has_prefix, is_prefix_of, str_equal, string_of};

verus! {

// ---------------------------------------------------------------------------
// Regular expressions (the `regex` crate)
// ---------------------------------------------------------------------------

#[verifier::external_type_specification]
#[verifier::external_body]
pub struct ExRegex(regex::Regex);

#[verifier::external_type_specification]
#[verifier::external_body]
pub struct ExRegexError(regex::Error);

/// Whether `regex::Regex::new` accepts `pattern`.
pub uninterp spec fn regex_compiles(pattern: Seq<char>) -> bool;

/// What `Regex::is_match` answers for the regex compiled from `pattern` on `text`.
pub uninterp spec fn regex_is_match(pattern: Seq<char>, text: Seq<char>) -> bool;

/// What `Regex::replace` returns for the regex compiled from `pattern`, applied
/// to `text` with the replacement template `replacement` (first match only,
/// `$`-group references expanded).
pub uninterp spec fn regex_replace_first(
    pattern: Seq<char>,
    text: Seq<char>,
    replacement: Seq<char>,
) -> Seq<char>;

/// A compiled regular expression together with the pattern it was compiled
/// from. Values are only made by `compile_pattern`.
pub struct CompiledPattern {
    source: String,
    re: regex::Regex,
}

impl View for CompiledPattern {
    type V = Seq<char>;

    closed spec fn view(&self) -> Seq<char> {
        self.source@
    }
}

/// Compiles `pattern` with `regex::Regex::new`. Claims: the result is `Ok`
/// exactly when the pattern compiles, and an `Ok` value carries the pattern
/// it was compiled from.
#[verifier::external_body]
fn compile_pattern(pattern: &str) -> (r: Result<CompiledPattern, regex::Error>)
    ensures
        r is Ok <==> regex_compiles(pattern@),
        r matches Ok(p) ==> p@ == pattern@,
{
    match regex::Regex::new(pattern) {
        Ok(re) => Ok(CompiledPattern { source: pattern.to_string(), re }),
        Err(e) => Err(e),
    }
}

/// `regex::Regex::is_match` on a compiled pattern. Claims: the answer is
/// the named result for the pattern's source and `text`.
#[verifier::external_body]
fn pattern_is_match(p: &CompiledPattern, text: &str) -> (b: bool)
    ensures
        b == regex_is_match(p@, text@),
{
    p.re.is_match(text)
}

/// `regex::Regex::replace` (first match, template expansion) on a compiled
/// pattern. Claims: the result is the named result for the pattern's source,
/// `text` and `replacement`.
#[verifier::external_body]
fn pattern_replace_first(p: &CompiledPattern, text: &str, replacement: &str) -> (s: String)
    ensures
        s@ == regex_replace_first(p@, text@, replacement@),
{
    p.re.replace(text, replacement).into_owned()
}

// ---------------------------------------------------------------------------
// Specification of rewriting
// ---------------------------------------------------------------------------

/// Appends `suffix` to `outbound`, dropping one slash where `outbound` ends
/// with '/' and `suffix` starts with '/'.
pub open spec fn join_path(outbound: Seq<char>, suffix: Seq<char>) -> Seq<char> {
    if outbound.len() > 0 && outbound.last() == '/' && suffix.len() > 0 && suffix[0] == '/' {
        outbound + suffix.skip(1)
    } else {
        outbound + suffix
    }
}

/// The path one rule produces for `path`, or `None` when the rule does not apply.
pub open spec fn rule_outcome(
    match_type: Seq<char>,
    inbound: Seq<char>,
    outbound: Seq<char>,
    path: Seq<char>,
) -> Option<Seq<char>> {
    if match_type == "exact"@ {
        if path == inbound {
            Some(outbound)
        } else {
            None
        }
    } else if match_type == "prefix"@ {
        if is_prefix_of(inbound, path) {
            Some(join_path(outbound, path.skip(inbound.len() as int)))
        } else {
            None
        }
    } else if match_type == "regex"@ {
        if regex_compiles(inbound) && regex_is_match(inbound, path) {
            Some(regex_replace_first(inbound, path, outbound))
        } else {
            None
        }
    } else {
        None
    }
}

/// `rule_outcome` for a stored rule.
pub open spec fn rule_applies(rule: route_rules::Model, path: Seq<char>) -> Option<Seq<char>> {
    rule_outcome(rule.match_type@, rule.inbound_path@, rule.outbound_path@, path)
}

/// Result of a successful route match.
#[derive(Clone, Debug)]
pub struct RewriteResult {
    /// The new path to forward to the upstream.
    pub path: String,
    /// Upstream pinned by the rule (None = use the global load balancer).
    pub upstream_id: Option<i64>,
}

// ---------------------------------------------------------------------------
// Implementation
// ---------------------------------------------------------------------------

/// Match `request_path` against the rules, in the order given (expected:
/// priority descending), and rewrite it with the first rule that applies.
/// `None` when no rule applies.
pub fn rewrite(rules: &[route_rules::Model], request_path: &str) -> (r: Option<RewriteResult>)
    ensures
        r is None <==> (forall|i: int| 0 <= i < rules@.len() ==> rule_applies(#[trigger] rules@[i], request_path@) is None),
        r matches Some(res) ==> exists|i: int|
            0 <= i < rules@.len()
            && (forall|j: int| 0 <= j < i ==> rule_applies(#[trigger] rules@[j], request_path@) is None)
            && rule_applies(rules@[i], request_path@) == Some(res.path@)
            && res.upstream_id == rules@[i].upstream_id,
{
    let mut k: usize = 0;
    while k < rules.len()
        invariant
            k <= rules@.len(),
            forall|j: int| 0 <= j < k ==> rule_applies(#[trigger] rules@[j], request_path@) is None,
        decreases rules.len() - k,
    {
        let rule = &rules[k];
        match apply_rule(rule, request_path) {
            Some(path) => {
                return Some(RewriteResult { path, upstream_id: rule.upstream_id });
            },
            None => {},
        }
        k = k + 1;
    }
    None
}

/// The path `rule` produces for `path`, or `None` when it does not apply.
pub fn apply_rule(rule: &route_rules::Model, path: &str) -> (r: Option<String>)
    ensures
        r matches Some(s) ==> rule_applies(*rule, path@) == Some(s@),
        r is None ==> rule_applies(*rule, path@) is None,
        rule.match_type@ == "exact"@ ==> (r is Some <==> path@ == rule.inbound_path@),
        rule.match_type@ == "exact"@ && r is Some ==> r->0@ == rule.outbound_path@,
        rule.match_type@ == "prefix"@ ==> (r is Some <==> is_prefix_of(rule.inbound_path@, path@)),
        rule.match_type@ == "prefix"@ && r is Some
            ==> r->0@ == join_path(rule.outbound_path@, path@.skip(rule.inbound_path@.len() as int)),
        rule.match_type@ == "regex"@ ==> (r is Some <==> regex_compiles(rule.inbound_path@)
            && regex_is_match(rule.inbound_path@, path@)),
        rule.match_type@ == "regex"@ && r is Some
            ==> r->0@ == regex_replace_first(rule.inbound_path@, path@, rule.outbound_path@),
        rule.match_type@ != "exact"@ && rule.match_type@ != "prefix"@ && rule.match_type@ != "regex"@ ==> r is None,
{
    proof {
        reveal_strlit("exact");
        reveal_strlit("prefix");
        reveal_strlit("regex");
        assert("exact"@[0] != "prefix"@[0]);
        assert("exact"@[0] != "regex"@[0]);
        assert("prefix"@[0] != "regex"@[0]);
    }
    if str_equal(rule.match_type.as_str(), "exact") {
        if str_equal(path, rule.inbound_path.as_str()) {
            Some(rule.outbound_path.clone())
        } else {
            None
        }
    } else if str_equal(rule.match_type.as_str(), "prefix") {
        let p = chars_of(path);
        let inbound = chars_of(rule.inbound_path.as_str());
        if has_prefix(p.as_slice(), inbound.as_slice()) {
            let mut out = chars_of(rule.outbound_path.as_str());
            let mut i: usize = inbound.len();
            // Avoid a double slash when the outbound path ends with '/' and the
            // remainder of the request path starts with '/'.
            if out.len() > 0 && out[out.len() - 1] == '/' && i < p.len() && p[i] == '/' {
                i = i + 1;
            }
            let ghost start = i;
            let ghost base = out@;
            while i < p.len()
                invariant
                    start <= i <= p@.len(),
                    out@ == base + p@.subrange(start as int, i as int),
                decreases p.len() - i,
            {
                out.push(p[i]);
                i = i + 1;
            }
            proof {
                let suffix = p@.skip(inbound@.len() as int);
                if base.len() > 0 && base.last() == '/' && suffix.len() > 0 && suffix[0] == '/' {
                    assert(suffix.skip(1) =~= p@.subrange(start as int, p@.len() as int));
                } else {
                    assert(suffix =~= p@.subrange(start as int, p@.len() as int));
                }
            }
            Some(string_of(out.as_slice()))
        } else {
            None
        }
    } else if str_equal(rule.match_type.as_str(), "regex") {
        apply_regex_rule(rule.inbound_path.as_str(), rule.outbound_path.as_str(), path)
    } else {
        None
    }
}

/// Regex rule: when `pattern` compiles and matches `path`, the first match
/// is replaced by `replacement`; otherwise (invalid pattern or no match) `None`.
fn apply_regex_rule(pattern: &str, replacement: &str, path: &str) -> (r: Option<String>)
    ensures
        r matches Some(s) ==> regex_compiles(pattern@) && regex_is_match(pattern@, path@)
            && s@ == regex_replace_first(pattern@, path@, replacement@),
        r is None ==> !(regex_compiles(pattern@) && regex_is_match(pattern@, path@)),
{
    let re = match compile_pattern(pattern) {
        Ok(re) => re,
        Err(_) => {
            return None;
        },
    };
    if pattern_is_match(&re, path) {
        Some(pattern_replace_first(&re, path, replacement))
    } else {
        None
    }
}


/// Law of exact rules: an exact rule rewrites a path to its outbound path
/// exactly when the path equals its inbound path, and applies to nothing else.
pub proof fn law_exact_rule(inbound: Seq<char>, outbound: Seq<char>, path: Seq<char>)
    ensures
        rule_outcome("exact"@, inbound, outbound, path) == (if path == inbound {
            Some(outbound)
        } else {
            None
        }),
{
}

/// Law of prefix rules: a prefix rule applies to every path that starts with
/// its inbound path, keeps the rest of the path after the outbound path, and
/// joins the two with a single slash where both sides bring one.
pub proof fn law_prefix_rule(inbound: Seq<char>, outbound: Seq<char>, rest: Seq<char>)
    ensures
        rule_outcome("prefix"@, inbound, outbound, inbound + rest) == Some(join_path(outbound, rest)),
        outbound.len() > 0 && outbound.last() == '/' && rest.len() > 0 && rest[0] == '/'
            ==> join_path(outbound, rest) == outbound + rest.skip(1),
{
    reveal_strlit("exact");
    reveal_strlit("prefix");
    assert("exact"@[0] != "prefix"@[0]);
    assert((inbound + rest).take(inbound.len() as int) =~= inbound);
    assert((inbound + rest).skip(inbound.len() as int) =~= rest);
}

/// Law of regex rules: a regex rule applies exactly when its pattern
/// compiles and matches the path, and then the path becomes the result of
/// replacing the first match once with the outbound template; a pattern
/// that does not compile never applies.
pub proof fn law_regex_rule(inbound: Seq<char>, outbound: Seq<char>, path: Seq<char>)
    ensures
        rule_outcome("regex"@, inbound, outbound, path) == (if regex_compiles(inbound) && regex_is_match(inbound, path) {
            Some(regex_replace_first(inbound, path, outbound))
        } else {
            None
        }),
        !regex_compiles(inbound) ==> rule_outcome("regex"@, inbound, outbound, path) is None,
{
    reveal_strlit("exact");
    reveal_strlit("prefix");
    reveal_strlit("regex");
    assert("exact"@[0] != "regex"@[0]);
    assert("prefix"@[0] != "regex"@[0]);
}

/// Law of unknown match types: a rule whose match type is none of `exact`,
/// `prefix`, `regex` applies to no path.
pub proof fn law_unknown_match_type(match_type: Seq<char>, inbound: Seq<char>, outbound: Seq<char>, path: Seq<char>)
    requires
        match_type != "exact"@,
        match_type != "prefix"@,
        match_type != "regex"@,
    ensures
        rule_outcome(match_type, inbound, outbound, path) is None,
{
}

} // verus!
