use folderslint::enforce::enforce;
use folderslint::paths::strip_root_prefix;
use folderslint::paths::to_unix_string;
use folderslint::rules::compile_rule;
use folderslint::rules::rule_matches_path;
use folderslint::rules::CompiledRule;
use folderslint::rules::EnforceError;

fn strings(items: &[&str]) -> Vec<String> {
    items.iter().map(|s| s.to_string()).collect()
}

#[test]
fn normalize_replaces_backslashes() {
    assert_eq!(to_unix_string("a\\b\\c.ts"), "a/b/c.ts");
    assert_eq!(to_unix_string("already/unix.ts"), "already/unix.ts");
    assert_eq!(to_unix_string(""), "");
}

#[test]
fn normalize_idempotent() {
    let once = to_unix_string("dir\\sub\\file.ts");
    let twice = to_unix_string(&once);
    assert_eq!(once, twice);
}

#[test]
fn strip_prefix_relative_path() {
    assert_eq!(strip_root_prefix("proj", "proj/src/a.ts"), "src/a.ts");
    assert_eq!(strip_root_prefix("proj", "other/src/a.ts"), "other/src/a.ts");
    assert_eq!(strip_root_prefix("proj", "proj"), "proj");
    assert_eq!(strip_root_prefix("proj", "proj/"), "");
}

#[test]
fn compile_classifies_regex_and_strips_slashes() {
    let compiled = compile_rule("proj", "/\\.test\\./").unwrap();
    match compiled {
        CompiledRule::Regex { pattern } => assert_eq!(pattern, "\\.test\\."),
        CompiledRule::Glob { .. } => panic!("a leading slash must make a regex rule"),
    }
}

#[test]
fn compile_regex_tolerates_missing_trailing_slash() {
    let compiled = compile_rule("proj", "/\\.ts$").unwrap();
    match compiled {
        CompiledRule::Regex { pattern } => assert_eq!(pattern, "\\.ts$"),
        CompiledRule::Glob { .. } => panic!("a leading slash must make a regex rule"),
    }
}

#[test]
fn compile_classifies_glob_anchored_at_root() {
    let compiled = compile_rule("proj", "src/*.ts").unwrap();
    match compiled {
        CompiledRule::Glob { pattern } => assert_eq!(pattern, "proj/src/*.ts"),
        CompiledRule::Regex { .. } => panic!("a rule without a leading slash must be a glob"),
    }
}

#[test]
fn compile_rejects_empty_rule() {
    let result = compile_rule("proj", "");
    assert_eq!(result, Err(EnforceError::InvalidRule { rule: String::new() }));
}

#[test]
fn compile_rejects_bad_regex() {
    let result = compile_rule("proj", "/[/");
    assert_eq!(result, Err(EnforceError::InvalidRule { rule: "/[/".to_string() }));
}

#[test]
fn compile_rejects_bad_glob() {
    let result = compile_rule("proj", "a***b");
    assert_eq!(result, Err(EnforceError::InvalidRule { rule: "a***b".to_string() }));
}

#[test]
fn glob_wildcard_does_not_cross_separator() {
    let compiled = compile_rule("proj", "src/*.ts").unwrap();
    assert!(rule_matches_path(&compiled, "proj", "proj/src/index.ts"));
    assert!(!rule_matches_path(&compiled, "proj", "proj/src/sub/index.ts"));
}

#[test]
fn glob_is_case_sensitive() {
    let compiled = compile_rule("proj", "src/*.ts").unwrap();
    assert!(!rule_matches_path(&compiled, "proj", "proj/SRC/index.ts"));
}

#[test]
fn regex_matches_substring_of_relative_path() {
    let compiled = compile_rule("proj", "/\\.test\\./").unwrap();
    assert!(rule_matches_path(&compiled, "proj", "proj/foo/bar.test.ts"));
    assert!(!rule_matches_path(&compiled, "proj", "proj/foo/bar.ts"));
}

#[test]
fn matching_normalizes_backslash_paths() {
    let compiled = compile_rule("proj", "src/*.ts").unwrap();
    assert!(rule_matches_path(&compiled, "proj", "proj\\src\\index.ts"));
}

#[test]
fn empty_rules_list_is_config_invalid() {
    let rules: Vec<String> = Vec::new();
    let files = strings(&["proj/src/index.ts"]);
    assert_eq!(enforce("proj", true, &rules, &files), Err(EnforceError::ConfigInvalid));
}

#[test]
fn missing_root_is_config_invalid() {
    let rules = strings(&["src/*.ts"]);
    let files: Vec<String> = Vec::new();
    assert_eq!(enforce("proj", false, &rules, &files), Err(EnforceError::ConfigInvalid));
}

#[test]
fn scenario_all_files_satisfied() {
    let rules = strings(&["src/*.ts"]);
    let files = strings(&["proj/src/index.ts", "proj/src/index.test.ts"]);
    assert_eq!(enforce("proj", true, &rules, &files), Ok(()));
}

#[test]
fn scenario_nested_file_violates_shallow_glob() {
    let rules = strings(&["src/*.ts"]);
    let files = strings(&["proj/src/sub/deep.ts"]);
    assert_eq!(
        enforce("proj", true, &rules, &files),
        Err(EnforceError::RuleViolation { path: "proj/src/sub/deep.ts".to_string() })
    );
}

#[test]
fn scenario_regex_anchored_to_extension() {
    let rules = strings(&["/\\.ts$/"]);
    let files = strings(&["proj/README.md"]);
    assert_eq!(
        enforce("proj", true, &rules, &files),
        Err(EnforceError::RuleViolation { path: "proj/README.md".to_string() })
    );
}

#[test]
fn first_violation_is_reported() {
    let rules = strings(&["src/*.ts"]);
    let files = strings(&["proj/src/ok.ts", "proj/first.md", "proj/second.md"]);
    assert_eq!(
        enforce("proj", true, &rules, &files),
        Err(EnforceError::RuleViolation { path: "proj/first.md".to_string() })
    );
}

#[test]
fn invalid_rule_detected_before_traversal() {
    let rules = strings(&["src/*.ts", ""]);
    let files = strings(&["proj/violates.md"]);
    assert_eq!(
        enforce("proj", true, &rules, &files),
        Err(EnforceError::InvalidRule { rule: String::new() })
    );
}

#[test]
fn first_invalid_rule_is_reported() {
    let rules = strings(&["", "/[/"]);
    let files: Vec<String> = Vec::new();
    assert_eq!(
        enforce("proj", true, &rules, &files),
        Err(EnforceError::InvalidRule { rule: String::new() })
    );
}

#[test]
fn adding_rules_keeps_files_satisfied() {
    let files = strings(&["proj/src/index.ts"]);
    let narrow = strings(&["src/*.ts"]);
    let wide = strings(&["src/*.ts", "docs/*", "/\\.md$/"]);
    assert_eq!(enforce("proj", true, &narrow, &files), Ok(()));
    assert_eq!(enforce("proj", true, &wide, &files), Ok(()));
}

#[test]
fn any_single_matching_rule_satisfies() {
    let rules = strings(&["docs/*", "/\\.ts$/"]);
    let files = strings(&["proj/src/index.ts"]);
    assert_eq!(enforce("proj", true, &rules, &files), Ok(()));
}

#[test]
fn empty_file_list_succeeds() {
    let rules = strings(&["src/*.ts"]);
    let files: Vec<String> = Vec::new();
    assert_eq!(enforce("proj", true, &rules, &files), Ok(()));
}
