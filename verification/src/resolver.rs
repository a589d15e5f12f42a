use vstd::prelude::*;
use crate::errors::IngestionError;
use crate::models::IngestionConfigRule;
use crate::models::RuleView;
use crate::ports::ConfigRepository;

verus! {

/// Whether `pattern` compiles as a regular expression; names the outcome of
/// `regex::Regex::new`, which depends on the pattern text alone.
pub uninterp spec fn regex_valid(pattern: Seq<char>) -> bool;

/// Whether the expression `pattern` matches somewhere in `text`; names the
/// outcome of `regex::Regex::is_match`, which depends on the two texts alone.
pub uninterp spec fn regex_matches(pattern: Seq<char>, text: Seq<char>) -> bool;

/// Relies on regex::Regex::new and regex::Regex::is_match: whether a pattern
/// compiles, and whether the compiled expression matches somewhere in a given
/// text, are functions of the pattern and the text alone. `None` stands for a
/// pattern that does not compile.
#[verifier::external_body]
fn regex_match(pattern: &str, text: &str) -> (r: Option<bool>)
    ensures
        r is Some <==> regex_valid(pattern@),
        r matches Some(b) ==> b == regex_matches(pattern@, text@),
{
    match regex::Regex::new(pattern) {
        Ok(re) => Some(re.is_match(text)),
        Err(_) => None,
    }
}

/// A rule applies to a key when its pattern compiles and matches the key.
pub open spec fn rule_applies(rule: RuleView, key: Seq<char>) -> bool {
    regex_valid(rule.pattern) && regex_matches(rule.pattern, key)
}

/// What one resolution yields: the index of the first rule whose pattern
/// matches the key, the index of the first rule whose pattern does not
/// compile, or nothing.
#[derive(Debug, PartialEq, Eq, Structural)]
pub enum Resolution {
    Found(usize),
    BadPattern(usize),
    NoMatch,
}

/// Ghost counterpart of `Resolution`, with unbounded indices.
pub ghost enum SpecResolution {
    Found(int),
    BadPattern(int),
    NoMatch,
}

pub open spec fn resolution_view(r: Resolution) -> SpecResolution {
    match r {
        Resolution::Found(i) => SpecResolution::Found(i as int),
        Resolution::BadPattern(i) => SpecResolution::BadPattern(i as int),
        Resolution::NoMatch => SpecResolution::NoMatch,
    }
}

/// The scan from index `i` on: first match wins, a pattern that does not
/// compile aborts the scan at once, exhaustion yields `NoMatch`.
pub open spec fn resolve_from(rules: Seq<RuleView>, key: Seq<char>, i: int) -> SpecResolution
    decreases rules.len() - i,
{
    if i < 0 || i >= rules.len() {
        SpecResolution::NoMatch
    } else if !regex_valid(rules[i].pattern) {
        SpecResolution::BadPattern(i)
    } else if regex_matches(rules[i].pattern, key) {
        SpecResolution::Found(i)
    } else {
        resolve_from(rules, key, i + 1)
    }
}

/// Resolution over the whole rule list, in enumeration order.
pub open spec fn resolve_spec(rules: Seq<RuleView>, key: Seq<char>) -> SpecResolution {
    resolve_from(rules, key, 0)
}

pub open spec fn rule_views(rules: Seq<IngestionConfigRule>) -> Seq<RuleView> {
    rules.map_values(|r: IngestionConfigRule| r@)
}

/// Scan `rules` in enumeration order and return the first whose pattern
/// matches `key`; scanning stops at the first match and at the first
/// pattern that does not compile.
pub fn resolve(rules: &Vec<IngestionConfigRule>, key: &str) -> (r: Resolution)
    ensures
        resolution_view(r) == resolve_spec(rule_views(rules@), key@),
        r matches Resolution::Found(i) ==> i < rules@.len() && rule_applies(rules@[i as int]@, key@),
        r matches Resolution::BadPattern(i) ==> i < rules@.len() && !regex_valid(
            rules@[i as int]@.pattern,
        ),
{
    let mut i: usize = 0;
    while i < rules.len()
        invariant
            i <= rules@.len(),
            resolve_spec(rule_views(rules@), key@) == resolve_from(
                rule_views(rules@),
                key@,
                i as int,
            ),
        decreases rules@.len() - i,
    {
        match regex_match(rules[i].pattern.as_str(), key) {
            None => {
                return Resolution::BadPattern(i);
            },
            Some(true) => {
                return Resolution::Found(i);
            },
            Some(false) => {},
        }
        i = i + 1;
    }
    Resolution::NoMatch
}

/// Load the rules afresh and resolve `key` against them. The first rule
/// whose pattern matches is returned; a pattern that does not compile is a
/// configuration error carrying that pattern; no match at all is `Ok(None)`,
/// not an error.
pub fn get_config_for_key<C: ConfigRepository>(repo: &C, key: &str) -> (r: Result<
    Option<IngestionConfigRule>,
    IngestionError,
>)
    ensures
        r matches Ok(Some(rule)) ==> rule_applies(rule@, key@),
{
    let mut rules = match repo.load_rules() {
        Ok(rs) => rs,
        Err(e) => {
            return Err(e);
        },
    };
    match resolve(&rules, key) {
        Resolution::Found(i) => {
            let rule = rules.remove(i);
            Ok(Some(rule))
        },
        Resolution::BadPattern(i) => {
            let rule = rules.remove(i);
            Err(IngestionError::Config(rule.pattern))
        },
        Resolution::NoMatch => Ok(None),
    }
}

/// The scan started at `i` lands on `m` when every rule from `i` up to `m`
/// compiles and fails to match, and rule `m` applies.
proof fn lemma_resolve_from_reaches(rules: Seq<RuleView>, key: Seq<char>, i: int, m: int)
    requires
        0 <= i <= m < rules.len(),
        rule_applies(rules[m], key),
        forall|j: int|
            i <= j < m ==> regex_valid(#[trigger] rules[j].pattern) && !regex_matches(
                rules[j].pattern,
                key,
            ),
    ensures
        resolve_from(rules, key, i) == SpecResolution::Found(m),
    decreases m - i,
{
    if i < m {
        lemma_resolve_from_reaches(rules, key, i + 1, m);
    }
}

/// Law: when exactly one rule applies to a key, and every rule before it
/// has a compilable pattern, resolution finds that rule.
pub proof fn lemma_resolve_unique_match(rules: Seq<RuleView>, key: Seq<char>, m: int)
    requires
        0 <= m < rules.len(),
        rule_applies(rules[m], key),
        forall|j: int| 0 <= j < rules.len() && j != m ==> !rule_applies(#[trigger] rules[j], key),
        forall|j: int| 0 <= j < m ==> regex_valid(#[trigger] rules[j].pattern),
    ensures
        resolve_spec(rules, key) == SpecResolution::Found(m),
{
    assert forall|j: int| 0 <= j < m implies regex_valid(#[trigger] rules[j].pattern)
        && !regex_matches(rules[j].pattern, key) by {
        assert(!rule_applies(rules[j], key));
    }
    lemma_resolve_from_reaches(rules, key, 0, m);
}

/// Law: when two or more rules apply to a key, resolution returns the one
/// that comes first in the store's enumeration order. The enumeration
/// order of the loaded list is a behavioral contract, not an accident.
pub proof fn lemma_resolve_first_of_many(rules: Seq<RuleView>, key: Seq<char>, m: int, n: int)
    requires
        0 <= m < n < rules.len(),
        rule_applies(rules[m], key),
        rule_applies(rules[n], key),
        forall|j: int|
            0 <= j < m ==> regex_valid(#[trigger] rules[j].pattern) && !regex_matches(
                rules[j].pattern,
                key,
            ),
    ensures
        resolve_spec(rules, key) == SpecResolution::Found(m),
{
    lemma_resolve_from_reaches(rules, key, 0, m);
}

proof fn lemma_resolve_from_no_match(rules: Seq<RuleView>, key: Seq<char>, i: int)
    requires
        0 <= i <= rules.len(),
        forall|j: int|
            i <= j < rules.len() ==> regex_valid(#[trigger] rules[j].pattern) && !regex_matches(
                rules[j].pattern,
                key,
            ),
    ensures
        resolve_from(rules, key, i) == SpecResolution::NoMatch,
    decreases rules.len() - i,
{
    if i < rules.len() {
        lemma_resolve_from_no_match(rules, key, i + 1);
    }
}

/// Law: when every pattern compiles and none matches the key, resolution
/// yields `NoMatch` — an absent rule, not an error.
pub proof fn lemma_resolve_no_match(rules: Seq<RuleView>, key: Seq<char>)
    requires
        forall|j: int|
            0 <= j < rules.len() ==> regex_valid(#[trigger] rules[j].pattern) && !regex_matches(
                rules[j].pattern,
                key,
            ),
    ensures
        resolve_spec(rules, key) == SpecResolution::NoMatch,
{
    lemma_resolve_from_no_match(rules, key, 0);
}

} // verus!
