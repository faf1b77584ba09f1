use versioning::args::Args;
use versioning::history::{
    classification, classify, count_commits, diff_base, split_walk, tally, Bump, CommitRecord,
    VersionCounts, WalkStep,
};
use versioning::identifiers::{is_valid_build, is_valid_prerelease};
use versioning::pattern::MessagePattern;
use versioning::text::{decimal_text, sanitize_branch_name};
use versioning::version::{
    compile_patterns, compose_version, derive_version, BranchContext, Version, VersionError,
};

fn record(id: &str, parents: &[&str], message: &str, paths: &[&str]) -> CommitRecord {
    CommitRecord {
        id: id.to_string(),
        parent_ids: parents.iter().map(|p| p.to_string()).collect(),
        message: message.to_string(),
        changed_paths: paths.iter().map(|p| p.to_string()).collect(),
    }
}

fn default_patterns() -> (MessagePattern, MessagePattern) {
    compile_patterns(&Args::default()).unwrap()
}

fn sample_history() -> Vec<CommitRecord> {
    vec![
        record("c1", &[], "initial", &["a.txt"]),
        record("c2", &["c1"], "feature: x", &["b.txt"]),
        record("c3", &["c2"], "breaking: y", &["c.txt"]),
        record("c4", &["c3"], "fix: z", &["a.txt"]),
    ]
}

fn main_branch() -> BranchContext {
    BranchContext { branch_name: "main".to_string(), is_main_branch: true, ahead: 0 }
}

#[test]
fn scenario_main_history_gives_1_2_1() {
    let (major, minor) = default_patterns();
    let v = derive_version(&sample_history(), &main_branch(), &major, &minor).unwrap();
    assert_eq!((v.major, v.minor, v.patch), (1, 2, 1));
    assert_eq!(v.render(), "1.2.1");
}

#[test]
fn scenario_feature_branch_gives_prerelease_and_build() {
    let (major, minor) = default_patterns();
    let branch =
        BranchContext { branch_name: "feature/login".to_string(), is_main_branch: false, ahead: 3 };
    let v = derive_version(&sample_history(), &branch, &major, &minor).unwrap();
    assert_eq!(v.pre, "feature-login");
    assert_eq!(v.build, "3");
    assert_eq!(v.render(), "1.2.1-feature-login+3");
}

#[test]
fn scenario_no_commit_under_filter_gives_0_1_0() {
    let (major, minor) = default_patterns();
    let history = vec![
        record("c1", &[], "initial", &[]),
        record("c2", &["c1"], "feature: x", &[]),
        record("c3", &["c2"], "breaking: y", &[]),
    ];
    let v = derive_version(&history, &main_branch(), &major, &minor).unwrap();
    assert_eq!(v.render(), "0.1.0");
}

#[test]
fn baseline_counts_without_commits() {
    let c = tally(&vec![]);
    assert_eq!(c, VersionCounts { major: 0, minor: 1, patch: 0 });
    let (major, minor) = default_patterns();
    assert_eq!(count_commits(&vec![], &major, &minor), VersionCounts { major: 0, minor: 1, patch: 0 });
}

#[test]
fn single_change_bearing_commit_keeps_baseline() {
    let (major, minor) = default_patterns();
    let history = vec![record("c1", &[], "breaking: everything", &["a.txt"])];
    assert_eq!(count_commits(&history, &major, &minor), VersionCounts { major: 0, minor: 1, patch: 0 });
}

#[test]
fn tally_counts_each_kind() {
    let c = tally(&vec![Bump::Minor, Bump::Major, Bump::Patch]);
    assert_eq!(c, VersionCounts { major: 1, minor: 2, patch: 1 });
    let c = tally(&vec![Bump::Patch, Bump::Patch, Bump::Major, Bump::Major, Bump::Minor]);
    assert_eq!(c, VersionCounts { major: 2, minor: 2, patch: 2 });
}

#[test]
fn earliest_change_is_not_classified() {
    let (major, minor) = default_patterns();
    let history = vec![
        record("c1", &[], "docs only", &[]),
        record("c2", &["c1"], "breaking: first real change", &["a.txt"]),
        record("c3", &["c2"], "fix: z", &["a.txt"]),
    ];
    assert_eq!(count_commits(&history, &major, &minor), VersionCounts { major: 0, minor: 1, patch: 1 });
}

#[test]
fn commits_without_changes_are_skipped() {
    let (major, minor) = default_patterns();
    let history = vec![
        record("c1", &[], "initial", &["a.txt"]),
        record("c2", &["c1"], "breaking: elsewhere", &[]),
        record("c3", &["c2"], "feature: here", &["a.txt"]),
    ];
    assert_eq!(count_commits(&history, &major, &minor), VersionCounts { major: 0, minor: 2, patch: 0 });
}

#[test]
fn major_wins_over_minor() {
    let (major, minor) = default_patterns();
    assert_eq!(classify(&major, &minor, "breaking feature"), Bump::Major);
    assert_eq!(classification(true, true), Bump::Major);
    assert_eq!(classification(true, false), Bump::Major);
    assert_eq!(classification(false, true), Bump::Minor);
    assert_eq!(classification(false, false), Bump::Patch);
}

#[test]
fn classify_searches_inside_the_message() {
    let (major, minor) = default_patterns();
    assert_eq!(classify(&major, &minor, "chore: bump +semver:major"), Bump::Major);
    assert_eq!(classify(&major, &minor, "add a feature flag"), Bump::Minor);
    assert_eq!(classify(&major, &minor, "Feature: capitalised"), Bump::Patch);
    assert_eq!(classify(&major, &minor, "fix typo"), Bump::Patch);
}

#[test]
fn pattern_keeps_its_source() {
    let p = MessagePattern::new("fea+t").unwrap();
    assert_eq!(p.as_str(), "fea+t");
    assert!(p.is_match("a feaaat here"));
    assert!(!p.is_match("fet"));
}

#[test]
fn invalid_major_pattern_is_reported() {
    let mut args = Args::default();
    args.major_regex = "(unclosed".to_string();
    assert_eq!(compile_patterns(&args).err(), Some(VersionError::MajorPatternInvalid));
    assert!(MessagePattern::new("(unclosed").is_err());
}

#[test]
fn invalid_minor_pattern_is_reported() {
    let mut args = Args::default();
    args.minor_regex = "[z-a]".to_string();
    assert_eq!(compile_patterns(&args).err(), Some(VersionError::MinorPatternInvalid));
}

#[test]
fn main_branch_has_no_metadata() {
    let counts = VersionCounts { major: 3, minor: 4, patch: 5 };
    let v = compose_version(counts, &main_branch()).unwrap();
    assert_eq!(
        v,
        Version { major: 3, minor: 4, patch: 5, pre: String::new(), build: String::new() }
    );
    assert_eq!(v.render(), "3.4.5");
}

#[test]
fn other_branch_has_both_metadata() {
    let counts = VersionCounts { major: 0, minor: 1, patch: 0 };
    let branch = BranchContext { branch_name: "dev".to_string(), is_main_branch: false, ahead: 0 };
    let v = compose_version(counts, &branch).unwrap();
    assert_eq!(v.pre, "dev");
    assert_eq!(v.build, "0");
    assert_eq!(v.render(), "0.1.0-dev+0");
}

#[test]
fn empty_branch_name_is_rejected() {
    let counts = VersionCounts { major: 0, minor: 1, patch: 0 };
    let branch = BranchContext { branch_name: String::new(), is_main_branch: false, ahead: 2 };
    assert_eq!(compose_version(counts, &branch), Err(VersionError::InvalidPrerelease));
}

#[test]
fn unusable_branch_names_are_rejected() {
    let counts = VersionCounts { major: 0, minor: 1, patch: 0 };
    for name in ["a..b", "fix#1", "01", ".hidden", "ü"] {
        let branch = BranchContext { branch_name: name.to_string(), is_main_branch: false, ahead: 2 };
        assert_eq!(compose_version(counts, &branch), Err(VersionError::InvalidPrerelease), "{}", name);
    }
}

#[test]
fn dotted_branch_name_is_kept() {
    let counts = VersionCounts { major: 1, minor: 1, patch: 0 };
    let branch =
        BranchContext { branch_name: "release/1.0".to_string(), is_main_branch: false, ahead: 12 };
    let v = compose_version(counts, &branch).unwrap();
    assert_eq!(v.render(), "1.1.0-release-1.0+12");
}

#[test]
fn sanitize_replaces_slashes_and_underscores() {
    assert_eq!(sanitize_branch_name("feature/foo_bar"), "feature-foo-bar");
    assert_eq!(sanitize_branch_name("a//b__c"), "a--b--c");
    assert_eq!(sanitize_branch_name(""), "");
}

#[test]
fn sanitize_keeps_clean_names() {
    assert_eq!(sanitize_branch_name("feature-login"), "feature-login");
    let once = sanitize_branch_name("x/y_z");
    assert_eq!(sanitize_branch_name(&once), once);
}

#[test]
fn decimal_text_writes_numbers() {
    assert_eq!(decimal_text(0), "0");
    assert_eq!(decimal_text(7), "7");
    assert_eq!(decimal_text(10), "10");
    assert_eq!(decimal_text(1234567890), "1234567890");
    assert_eq!(decimal_text(u64::MAX), "18446744073709551615");
}

#[test]
fn identifier_checks_follow_semver() {
    assert!(is_valid_prerelease(""));
    assert!(is_valid_prerelease("feature-login"));
    assert!(is_valid_prerelease("rc.1"));
    assert!(is_valid_prerelease("0"));
    assert!(is_valid_prerelease("0a"));
    assert!(!is_valid_prerelease("007"));
    assert!(!is_valid_prerelease("a..b"));
    assert!(!is_valid_prerelease("a/b"));
    assert!(is_valid_build("007"));
    assert!(is_valid_build("build.5"));
    assert!(!is_valid_build("a."));
    assert!(!is_valid_build("a_b"));
}

#[test]
fn root_commit_is_diffed_against_empty_tree() {
    let root = record("c1", &[], "initial", &["a.txt"]);
    assert_eq!(diff_base(&root.parent_ids), None);
    assert!(root.has_changes());
    let merge = record("m", &["p1", "p2"], "merge", &[]);
    assert_eq!(diff_base(&merge.parent_ids), Some("p1".to_string()));
    assert!(!merge.has_changes());
}

#[test]
fn default_args_match_the_command_line_defaults() {
    let a = Args::default();
    assert_eq!(a.repo, ".");
    assert_eq!(a.path, None);
    assert_eq!(a.major_regex, "(breaking|\\+semver:major)");
    assert_eq!(a.minor_regex, "(feature)");
    assert_eq!(a.main_branch_name, "main");
}

#[test]
fn walk_errors_are_set_aside() {
    let steps = vec![
        WalkStep::Commit(record("c1", &[], "initial", &["a.txt"])),
        WalkStep::Failed("object not found".to_string()),
        WalkStep::Commit(record("c2", &["c1"], "feature: x", &["b.txt"])),
        WalkStep::Failed("bad object".to_string()),
    ];
    let out = split_walk(steps);
    let ids: Vec<&str> = out.commits.iter().map(|c| c.id.as_str()).collect();
    assert_eq!(ids, vec!["c1", "c2"]);
    assert_eq!(out.warnings, vec!["object not found".to_string(), "bad object".to_string()]);
    let (major, minor) = default_patterns();
    let v = derive_version(&out.commits, &main_branch(), &major, &minor).unwrap();
    assert_eq!(v.render(), "0.2.0");
}

#[test]
fn empty_walk_gives_nothing() {
    let out = split_walk(vec![]);
    assert!(out.commits.is_empty());
    assert!(out.warnings.is_empty());
}
