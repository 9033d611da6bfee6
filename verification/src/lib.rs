//! A structural linter for repository layout: every regular file under a
//! configured root directory must match at least one declared rule, where a
//! rule is either a glob pattern (anchored at the root, with literal path
//! separators) or a regular expression (matched against the path relative to
//! the root).

pub mod enforce;
pub mod engines;
pub mod paths;
pub mod rules;
