//! Rule classification, compilation and matching. A raw rule string is
//! classified by its first character alone: `/` makes it a regular-expression
//! rule, any other non-empty first character makes it a glob rule, and the
//! empty string is invalid. A glob rule is anchored at the root; a regex rule
//! is matched, unanchored, against the path relative to the root.

use vstd::prelude::*;

use crate::engines::glob_compile_ok;
use crate::engines::glob_match;
use crate::engines::glob_matches;
use crate::engines::glob_valid;
use crate::engines::regex_compile_ok;
use crate::engines::regex_match;
use crate::engines::regex_matches;
use crate::engines::regex_valid;
use crate::paths::normalize_seq;
use crate::paths::rel_path_spec;
use crate::paths::strip_root_prefix;
use crate::paths::to_unix_string;

verus! {

/// The fatal conditions of an enforcement run. Every error aborts the run;
/// there is no recoverable-error path.
#[derive(Debug, Clone, PartialEq, Eq)]
pub enum EnforceError {
    /// The root path does not exist, or the rules list is empty; detected
    /// before any rule compiles.
    ConfigInvalid,
    /// A rule string is empty, an invalid regular expression, or an invalid
    /// glob expression; detected at compile time, before traversal. Carries
    /// the offending rule text.
    InvalidRule { rule: String },
    /// A file matched no compiled rule; detected during traversal. Carries
    /// the normalized path of the offending file.
    RuleViolation { path: String },
}

/// A rule string names a regular expression exactly when its first character
/// is `/`.
pub open spec fn rule_is_regex(rule: Seq<char>) -> bool {
    rule.len() > 0 && rule[0] == '/'
}

/// The regular-expression text of a regex rule: exactly one leading `/` is
/// stripped, and exactly one trailing `/` where one is present.
pub open spec fn regex_text_of(rule: Seq<char>) -> Seq<char>
    recommends
        rule_is_regex(rule),
{
    let body = rule.subrange(1, rule.len() as int);
    if body.len() > 0 && body[body.len() - 1] == '/' {
        body.subrange(0, body.len() as int - 1)
    } else {
        body
    }
}

/// The glob text of a glob rule: the rule joined to the root with a `/`, so
/// that the pattern is anchored at the root.
pub open spec fn glob_text_of(root: Seq<char>, rule: Seq<char>) -> Seq<char> {
    root + seq!['/'] + rule
}

/// Whether a raw rule string compiles: an empty rule never does; a regex rule
/// compiles when its stripped text is a valid regular expression; a glob rule
/// compiles when its root-anchored text is a valid glob pattern.
pub open spec fn rule_valid(root: Seq<char>, rule: Seq<char>) -> bool {
    if rule.len() == 0 {
        false
    } else if rule_is_regex(rule) {
        regex_valid(regex_text_of(rule))
    } else {
        glob_valid(glob_text_of(root, rule))
    }
}

/// What a raw rule accepts: a regex rule matches a substring of the path
/// relative to the root, a glob rule matches the whole normalized path. The
/// path is normalized before either comparison.
pub open spec fn rule_matches(root: Seq<char>, rule: Seq<char>, path: Seq<char>) -> bool
    recommends
        rule.len() > 0,
{
    if rule_is_regex(rule) {
        regex_matches(regex_text_of(rule), rel_path_spec(root, normalize_seq(path)))
    } else {
        glob_matches(glob_text_of(root, rule), normalize_seq(path))
    }
}

/// A rule compiled once, before traversal: the variant is fixed by the raw
/// rule's first character and is never re-inspected per file.
#[derive(Debug, Clone, PartialEq, Eq)]
pub enum CompiledRule {
    /// A glob pattern, anchored at the root.
    Glob { pattern: String },
    /// A regular expression, matched against root-relative paths.
    Regex { pattern: String },
}

impl CompiledRule {
    /// A compiled rule holds pattern text that its engine accepts.
    pub open spec fn wf(self) -> bool {
        match self {
            CompiledRule::Glob { pattern } => glob_valid(pattern@),
            CompiledRule::Regex { pattern } => regex_valid(pattern@),
        }
    }

    /// What this compiled rule accepts, given the root and a raw path.
    pub open spec fn matches_spec(self, root: Seq<char>, path: Seq<char>) -> bool {
        match self {
            CompiledRule::Glob { pattern } => glob_matches(pattern@, normalize_seq(path)),
            CompiledRule::Regex { pattern } => regex_matches(
                pattern@,
                rel_path_spec(root, normalize_seq(path)),
            ),
        }
    }
}

/// The compiled rule that a raw rule string yields: a regex rule compiles to
/// its stripped text, a non-empty glob rule to its root-anchored text, and an
/// empty rule to nothing.
pub open spec fn corresponds(c: CompiledRule, root: Seq<char>, rule: Seq<char>) -> bool {
    if rule_is_regex(rule) {
        c matches CompiledRule::Regex { pattern } && pattern@ == regex_text_of(rule)
    } else if rule.len() > 0 {
        c matches CompiledRule::Glob { pattern } && pattern@ == glob_text_of(root, rule)
    } else {
        false
    }
}

/// The compiled form of a rule accepts exactly the paths that the raw rule
/// accepts.
pub proof fn lemma_corresponds_matches(
    c: CompiledRule,
    root: Seq<char>,
    rule: Seq<char>,
    path: Seq<char>,
)
    requires
        corresponds(c, root, rule),
    ensures
        c.matches_spec(root, path) == rule_matches(root, rule, path),
{
}

/// Classifies and compiles one raw rule string against the root: `/` first
/// character makes a regex rule (one leading and one trailing `/` stripped),
/// any other non-empty string a glob rule anchored at the root, and the empty
/// string an error. Succeeds exactly on valid rules; a failure names the
/// offending rule text.
pub fn compile_rule(root: &str, rule: &str) -> (r: Result<CompiledRule, EnforceError>)
    ensures
        r is Ok <==> rule_valid(root@, rule@),
        match r {
            Ok(c) => c.wf() && corresponds(c, root@, rule@),
            Err(e) => (e matches EnforceError::InvalidRule { rule: t } && t@ == rule@),
        },
{
    let rule_len = rule.unicode_len();
    if rule_len == 0 {
        return Err(EnforceError::InvalidRule { rule: rule.to_owned() });
    }
    if rule.get_char(0) == '/' {
        let end = if rule_len > 1 && rule.get_char(rule_len - 1) == '/' {
            rule_len - 1
        } else {
            rule_len
        };
        let pattern_text = rule.substring_char(1, end);
        proof {
            assert(pattern_text@ =~= regex_text_of(rule@));
        }
        if regex_compile_ok(pattern_text) {
            Ok(CompiledRule::Regex { pattern: pattern_text.to_owned() })
        } else {
            Err(EnforceError::InvalidRule { rule: rule.to_owned() })
        }
    } else {
        let pattern = String::from_str(root).concat("/").concat(rule);
        proof {
            reveal_strlit("/");
            assert(pattern@ =~= glob_text_of(root@, rule@));
        }
        if glob_compile_ok(pattern.as_str()) {
            Ok(CompiledRule::Glob { pattern })
        } else {
            Err(EnforceError::InvalidRule { rule: rule.to_owned() })
        }
    }
}

/// Tests one file path against one compiled rule: the path is normalized,
/// then a glob rule sees the whole normalized path while a regex rule sees
/// the path relative to the root.
pub fn rule_matches_path(c: &CompiledRule, root: &str, path: &str) -> (r: bool)
    requires
        c.wf(),
    ensures
        r == c.matches_spec(root@, path@),
{
    let normalized = to_unix_string(path);
    match c {
        CompiledRule::Glob { pattern } => glob_match(pattern.as_str(), normalized.as_str()),
        CompiledRule::Regex { pattern } => {
            let relative = strip_root_prefix(root, normalized.as_str());
            regex_match(pattern.as_str(), relative)
        },
    }
}

} // verus!
