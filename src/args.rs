//! The settings of one version computation.
use vstd::prelude::*;

verus! {

/// Where to look and how to classify.
#[derive(Clone, Debug)]
pub struct Args {
    /// Path of the repository.
    pub repo: String,
    /// Only commits that change something under this path count.
    pub path: Option<String>,
    /// Pattern that marks a commit as a major change.
    pub major_regex: String,
    /// Pattern that marks a commit as a minor change.
    pub minor_regex: String,
    /// Name of the local branch that releases are cut from.
    pub main_branch_name: String,
}

impl Default for Args {
    /// The current directory, no path filter, `breaking` or `+semver:major`
    /// for major changes, `feature` for minor ones, and `main`.
    fn default() -> (r: Args)
        ensures
            r.repo@ == "."@,
            r.path is None,
            r.major_regex@ == "(breaking|\\+semver:major)"@,
            r.minor_regex@ == "(feature)"@,
            r.main_branch_name@ == "main"@,
    {
        Args {
            repo: ".".to_owned(),
            path: None,
            major_regex: "(breaking|\\+semver:major)".to_owned(),
            minor_regex: "(feature)".to_owned(),
            main_branch_name: "main".to_owned(),
        }
    }
}

} // verus!
