//! The enforcement run: validate the configuration, compile every rule once,
//! then scan the discovered files and stop at the first one that satisfies no
//! rule. The caller hands in the root, whether the root exists, the raw rule
//! strings, and the paths of the non-directory entries found under the root.

use vstd::prelude::*;

use crate::paths::normalize_seq;
use crate::paths::to_unix_string;
use crate::rules::CompiledRule;
use crate::rules::EnforceError;
use crate::rules::compile_rule;
use crate::rules::corresponds;
use crate::rules::lemma_corresponds_matches;
use crate::rules::rule_matches;
use crate::rules::rule_matches_path;
use crate::rules::rule_valid;

verus! {

/// A path is satisfied when at least one rule matches it: a pure disjunction
/// over the rule set, with no precedence and no negation.
pub open spec fn satisfied(root: Seq<char>, rules: Seq<Seq<char>>, path: Seq<char>) -> bool {
    exists|i: int| 0 <= i < rules.len() && rule_matches(root, #[trigger] rules[i], path)
}

/// Every rule in the list compiles against the root.
pub open spec fn all_rules_valid(root: Seq<char>, rules: Seq<Seq<char>>) -> bool {
    forall|i: int| 0 <= i < rules.len() ==> rule_valid(root, #[trigger] rules[i])
}

/// Position `i` holds the first rule that fails to compile.
pub open spec fn first_invalid_at(root: Seq<char>, rules: Seq<Seq<char>>, i: int) -> bool {
    &&& 0 <= i < rules.len()
    &&& !rule_valid(root, rules[i])
    &&& forall|j: int| 0 <= j < i ==> rule_valid(root, #[trigger] rules[j])
}

/// Position `k` holds the first file that satisfies no rule.
pub open spec fn first_violation_at(
    root: Seq<char>,
    rules: Seq<Seq<char>>,
    files: Seq<Seq<char>>,
    k: int,
) -> bool {
    &&& 0 <= k < files.len()
    &&& !satisfied(root, rules, files[k])
    &&& forall|j: int| 0 <= j < k ==> satisfied(root, rules, #[trigger] files[j])
}

/// A file is a violation exactly when it matches zero rules; satisfying any
/// single rule is sufficient.
pub proof fn lemma_violation_iff_no_match(root: Seq<char>, rules: Seq<Seq<char>>, path: Seq<char>)
    ensures
        !satisfied(root, rules, path) <==> (forall|i: int|
            0 <= i < rules.len() ==> !rule_matches(root, #[trigger] rules[i], path)),
{
}

/// Monotonic disjunction: adding rules never turns a satisfied file into a
/// violation.
pub proof fn lemma_satisfied_monotonic(
    root: Seq<char>,
    rules: Seq<Seq<char>>,
    more: Seq<Seq<char>>,
    path: Seq<char>,
)
    requires
        satisfied(root, rules, path),
    ensures
        satisfied(root, rules + more, path),
{
    let i = choose|i: int| 0 <= i < rules.len() && rule_matches(root, #[trigger] rules[i], path);
    assert((rules + more)[i] == rules[i]);
}

/// Tests a path against every compiled rule in configuration order, stopping
/// at the first match.
fn any_rule_matches(compiled: &Vec<CompiledRule>, root: &str, path: &str) -> (r: bool)
    requires
        forall|j: int| 0 <= j < compiled@.len() ==> (#[trigger] compiled@[j]).wf(),
    ensures
        r == exists|j: int|
            0 <= j < compiled@.len() && (#[trigger] compiled@[j]).matches_spec(root@, path@),
{
    let mut j: usize = 0;
    while j < compiled.len()
        invariant
            j <= compiled@.len(),
            forall|m: int| 0 <= m < compiled@.len() ==> (#[trigger] compiled@[m]).wf(),
            forall|m: int| 0 <= m < j ==> !(#[trigger] compiled@[m]).matches_spec(root@, path@),
        decreases compiled@.len() - j,
    {
        if rule_matches_path(&compiled[j], root, path) {
            return true;
        }
        j = j + 1;
    }
    false
}

/// The single entry point of an enforcement run. `root_exists` reports the
/// caller's existence check of the root directory; `files` holds the paths of
/// the non-directory entries discovered under the root. The run fails on an
/// invalid configuration before compiling, on the first rule that does not
/// compile before looking at any file, or on the first file that satisfies no
/// rule; otherwise it succeeds.
pub fn enforce(root: &str, root_exists: bool, rules: &Vec<String>, files: &Vec<String>) -> (r:
    Result<(), EnforceError>)
    ensures
        ({
            let rls = rules.deep_view();
            let fls = files.deep_view();
            match r {
                Ok(()) => {
                    &&& root_exists
                    &&& rls.len() > 0
                    &&& all_rules_valid(root@, rls)
                    &&& forall|k: int| 0 <= k < fls.len() ==> satisfied(root@, rls, #[trigger] fls[k])
                },
                Err(e) => match e {
                    EnforceError::ConfigInvalid => !root_exists || rls.len() == 0,
                    EnforceError::InvalidRule { rule } => {
                        &&& root_exists
                        &&& rls.len() > 0
                        &&& exists|i: int| #[trigger] first_invalid_at(root@, rls, i) && rule@ == rls[i]
                    },
                    EnforceError::RuleViolation { path } => {
                        &&& root_exists
                        &&& rls.len() > 0
                        &&& all_rules_valid(root@, rls)
                        &&& exists|k: int|
                            #[trigger] first_violation_at(root@, rls, fls, k) && path@
                                == normalize_seq(fls[k])
                    },
                },
            }
        }),
{
    let ghost rls = rules.deep_view();
    let ghost fls = files.deep_view();
    if !root_exists || rules.len() == 0 {
        return Err(EnforceError::ConfigInvalid);
    }
    let mut compiled: Vec<CompiledRule> = Vec::new();
    let mut i: usize = 0;
    while i < rules.len()
        invariant
            rls == rules.deep_view(),
            rls.len() == rules@.len(),
            root_exists,
            rls.len() > 0,
            i <= rules@.len(),
            compiled@.len() == i as int,
            forall|j: int| 0 <= j < i ==> rule_valid(root@, #[trigger] rls[j]),
            forall|j: int| 0 <= j < i ==> (#[trigger] compiled@[j]).wf(),
            forall|j: int| 0 <= j < i ==> corresponds(#[trigger] compiled@[j], root@, rls[j]),
        decreases rules@.len() - i,
    {
        proof {
            assert(rls[i as int] == rules@[i as int]@);
        }
        match compile_rule(root, rules[i].as_str()) {
            Ok(c) => {
                compiled.push(c);
            },
            Err(e) => {
                proof {
                    assert(first_invalid_at(root@, rls, i as int));
                }
                return Err(e);
            },
        }
        i = i + 1;
    }
    let mut k: usize = 0;
    while k < files.len()
        invariant
            rls == rules.deep_view(),
            fls == files.deep_view(),
            rls.len() == rules@.len(),
            fls.len() == files@.len(),
            rls.len() > 0,
            root_exists,
            compiled@.len() == rls.len(),
            all_rules_valid(root@, rls),
            forall|j: int| 0 <= j < compiled@.len() ==> (#[trigger] compiled@[j]).wf(),
            forall|j: int| 0 <= j < compiled@.len() ==> corresponds(#[trigger] compiled@[j], root@, rls[j]),
            k <= files@.len(),
            forall|j: int| 0 <= j < k ==> satisfied(root@, rls, #[trigger] fls[j]),
        decreases files@.len() - k,
    {
        let path = files[k].as_str();
        proof {
            assert(fls[k as int] == files@[k as int]@);
        }
        let matched = any_rule_matches(&compiled, root, path);
        proof {
            if matched {
                let j = choose|j: int|
                    0 <= j < compiled@.len() && (#[trigger] compiled@[j]).matches_spec(
                        root@,
                        path@,
                    );
                lemma_corresponds_matches(compiled@[j], root@, rls[j], path@);
                assert(rule_matches(root@, rls[j], fls[k as int]));
            } else {
                assert forall|j: int| 0 <= j < rls.len() implies !rule_matches(
                    root@,
                    #[trigger] rls[j],
                    fls[k as int],
                ) by {
                    lemma_corresponds_matches(compiled@[j], root@, rls[j], fls[k as int]);
                };
            }
        }
        if !matched {
            let violation = to_unix_string(path);
            proof {
                assert(!satisfied(root@, rls, fls[k as int]));
                assert(first_violation_at(root@, rls, fls, k as int));
            }
            return Err(EnforceError::RuleViolation { path: violation });
        }
        k = k + 1;
    }
    Ok(())
}

} // verus!
