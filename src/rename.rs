use vstd::prelude::*;

use crate::error::MigrationError;

verus! {

#[verifier::external_type_specification]
#[verifier::external_body]
pub struct ExRegex(regex::Regex);

#[verifier::external_type_specification]
#[verifier::external_body]
pub struct ExRegexError(regex::Error);

/// Whether a pattern compiles as a regular expression with the default limits.
pub uninterp spec fn pattern_compiles(pattern: Seq<char>) -> bool;

/// The name with the first match of the pattern replaced by the replacement
/// (which may refer to groups of the match), other matches left as they are.
pub uninterp spec fn first_match_replaced(
    pattern: Seq<char>,
    replacement: Seq<char>,
    name: Seq<char>,
) -> Seq<char>;

/// Relies on regex::Regex::new: whether it succeeds depends on the pattern alone.
#[verifier::external_body]
fn compile(pattern: &str) -> (r: Result<regex::Regex, regex::Error>)
    ensures
        r is Ok <==> pattern_compiles(pattern@),
{
    regex::Regex::new(pattern)
}

/// A rule that renames a key: the first match of `pattern` in the name is
/// replaced by `replacement`.
///
/// A rule exists only once its pattern compiled: `new` is its one
/// constructor.
#[derive(Debug)]
pub struct RenameRule {
    pattern: String,
    replacement: String,
    /// The expression compiled from `pattern`.
    regex: regex::Regex,
}

/// Relies on regex::Regex::replace, which replaces the leftmost-first match
/// only, on the expression that `RenameRule::new` compiled from the rule's
/// pattern.
#[verifier::external_body]
fn replace_first(rule: &RenameRule, name: &str) -> (r: String)
    ensures
        r@ == first_match_replaced(rule.pattern()@, rule.replacement()@, name@),
{
    rule.regex.replace(name, rule.replacement.as_str()).into_owned()
}

impl RenameRule {
    pub closed spec fn pattern(&self) -> String {
        self.pattern
    }

    pub closed spec fn replacement(&self) -> String {
        self.replacement
    }

    /// Compiles the rule. Fails, holding the pattern, exactly when the pattern
    /// is not a valid regular expression.
    pub fn new(pattern: String, replacement: String) -> (r: Result<RenameRule, MigrationError>)
        ensures
            r is Ok <==> pattern_compiles(pattern@),
            r matches Ok(rule) ==> rule.pattern() == pattern && rule.replacement() == replacement,
            r matches Err(e) ==> e == MigrationError::InvalidPattern(pattern),
    {
        match compile(pattern.as_str()) {
            Ok(regex) => Ok(RenameRule { pattern, replacement, regex }),
            Err(_) => Err(MigrationError::InvalidPattern(pattern)),
        }
    }

    /// The name under this rule.
    pub fn apply(&self, name: &str) -> (r: String)
        ensures
            r@ == first_match_replaced(self.pattern()@, self.replacement()@, name@),
    {
        replace_first(self, name)
    }
}

/// The name that a key receives under an optional rule.
pub open spec fn renamed(rule: Option<RenameRule>, name: Seq<char>) -> Seq<char> {
    match rule {
        None => name,
        Some(r) => first_match_replaced(r.pattern()@, r.replacement()@, name),
    }
}

/// Applies an optional rename rule; without one the name passes unchanged.
pub fn transform(name: &str, rule: &Option<RenameRule>) -> (r: String)
    ensures
        r@ == renamed(*rule, name@),
{
    match rule {
        None => name.to_string(),
        Some(rule) => rule.apply(name),
    }
}

/// Builds the optional rule of a run: a rule exists only where both a pattern
/// and a replacement are given. Fails before anything else happens when the
/// pattern does not compile.
pub fn rule_from_options(
    pattern: Option<String>,
    replacement: Option<String>,
) -> (r: Result<Option<RenameRule>, MigrationError>)
    ensures
        match (pattern, replacement) {
            (Some(p), Some(q)) => {
                &&& (r is Ok <==> pattern_compiles(p@))
                &&& r matches Ok(o) ==> (o matches Some(rule) && rule.pattern() == p
                    && rule.replacement() == q)
                &&& r matches Err(e) ==> e == MigrationError::InvalidPattern(p)
            },
            _ => r == Ok::<Option<RenameRule>, MigrationError>(None),
        },
{
    match (pattern, replacement) {
        (Some(p), Some(q)) => match RenameRule::new(p, q) {
            Ok(rule) => Ok(Some(rule)),
            Err(e) => Err(e),
        },
        _ => Ok(None),
    }
}

} // verus!
