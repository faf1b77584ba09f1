//! Composing the version from the counts and the branch state.
use vstd::prelude::*;
use vstd::string::*;
use crate::args::Args;
use crate::history::{count_commits, history_counts, CommitRecord, VersionCounts};
use crate::identifiers::{
    is_valid_build, is_valid_prerelease, lemma_decimal_is_build, prerelease_accepted,
};
use crate::pattern::{regex_compiles, MessagePattern};
use crate::text::{decimal, decimal_text, sanitize_branch_name, sanitized};

verus! {

/// Where the checkout stands relative to the main branch.
#[derive(Clone, Debug)]
pub struct BranchContext {
    /// Short name of the branch HEAD points at.
    pub branch_name: String,
    /// HEAD is the main branch.
    pub is_main_branch: bool,
    /// How many commits HEAD is ahead of the main branch's tip.
    pub ahead: u64,
}

/// A semantic version: `major.minor.patch`, with prerelease and build
/// metadata that are empty on the main branch.
#[derive(Clone, Debug, PartialEq, Eq)]
pub struct Version {
    pub major: u64,
    pub minor: u64,
    pub patch: u64,
    pub pre: String,
    pub build: String,
}

/// Why no version could be derived.
#[derive(Clone, Copy, Debug, PartialEq, Eq, Structural)]
pub enum VersionError {
    /// The major pattern does not compile.
    MajorPatternInvalid,
    /// The minor pattern does not compile.
    MinorPatternInvalid,
    /// The sanitized branch name is empty or not a valid prerelease.
    InvalidPrerelease,
    /// The ahead count is not valid build metadata.
    InvalidBuildMetadata,
}

/// The prerelease text a branch gets off the main branch.
pub open spec fn prerelease_of(branch: BranchContext) -> Seq<char> {
    sanitized(branch.branch_name@)
}

/// A version can be built for this branch state: on the main branch always,
/// elsewhere when the sanitized name is a non-empty valid prerelease.
pub open spec fn branch_composable(branch: BranchContext) -> bool {
    branch.is_main_branch || (prerelease_of(branch).len() > 0 && prerelease_accepted(
        prerelease_of(branch),
    ))
}

/// `v` carries `counts` and the metadata that `branch` calls for.
pub open spec fn composed(v: Version, counts: (nat, nat, nat), branch: BranchContext) -> bool {
    &&& v.major as nat == counts.0
    &&& v.minor as nat == counts.1
    &&& v.patch as nat == counts.2
    &&& if branch.is_main_branch {
        v.pre@ == Seq::<char>::empty() && v.build@ == Seq::<char>::empty()
    } else {
        v.pre@ == prerelease_of(branch) && v.build@ == decimal(branch.ahead as nat)
    }
}

/// Builds the version from the counts and the branch state: empty metadata
/// on the main branch; elsewhere the sanitized branch name as prerelease and
/// the ahead count as build metadata.
pub fn compose_version(counts: VersionCounts, branch: &BranchContext) -> (r: Result<
    Version,
    VersionError,
>)
    ensures
        r.is_ok() == branch_composable(*branch),
        r matches Err(e) ==> e == VersionError::InvalidPrerelease,
        r matches Ok(v) ==> composed(v, (counts.major as nat, counts.minor as nat, counts.patch as nat), *branch),
        r matches Ok(v) ==> (branch.is_main_branch <==> v.pre@.len() == 0 && v.build@.len() == 0),
        r matches Ok(v) ==> (!branch.is_main_branch <==> v.pre@.len() > 0 && v.build@.len() > 0),
{
    if branch.is_main_branch {
        return Ok(
            Version {
                major: counts.major,
                minor: counts.minor,
                patch: counts.patch,
                pre: String::new(),
                build: String::new(),
            },
        );
    }
    let pre = sanitize_branch_name(branch.branch_name.as_str());
    if pre.as_str().unicode_len() == 0 || !is_valid_prerelease(pre.as_str()) {
        return Err(VersionError::InvalidPrerelease);
    }
    let build = decimal_text(branch.ahead);
    proof {
        lemma_decimal_is_build(branch.ahead as nat);
    }
    if !is_valid_build(build.as_str()) {
        return Err(VersionError::InvalidBuildMetadata);
    }
    Ok(Version { major: counts.major, minor: counts.minor, patch: counts.patch, pre, build })
}

/// Derives the version of a history: the counts of `count_commits`
/// composed with the branch state.
pub fn derive_version(
    records: &Vec<CommitRecord>,
    branch: &BranchContext,
    major: &MessagePattern,
    minor: &MessagePattern,
) -> (r: Result<Version, VersionError>)
    requires
        records@.len() < u64::MAX,
    ensures
        r.is_ok() == branch_composable(*branch),
        r matches Err(e) ==> e == VersionError::InvalidPrerelease,
        r matches Ok(v) ==> composed(v, history_counts(major@, minor@, records@), *branch),
{
    let counts = count_commits(records, major, minor);
    compose_version(counts, branch)
}

/// Compiles the two classification patterns of `args`, the major one first.
pub fn compile_patterns(args: &Args) -> (r: Result<(MessagePattern, MessagePattern), VersionError>)
    ensures
        r.is_ok() == (regex_compiles(args.major_regex@) && regex_compiles(args.minor_regex@)),
        r matches Err(e) ==> (e == VersionError::MajorPatternInvalid <==> !regex_compiles(
            args.major_regex@,
        )),
        r matches Err(e) ==> (e == VersionError::MajorPatternInvalid || e
            == VersionError::MinorPatternInvalid),
        r matches Ok(p) ==> p.0@ == args.major_regex@ && p.1@ == args.minor_regex@,
{
    let major = match MessagePattern::new(args.major_regex.as_str()) {
        Ok(p) => p,
        Err(_) => return Err(VersionError::MajorPatternInvalid),
    };
    let minor = match MessagePattern::new(args.minor_regex.as_str()) {
        Ok(p) => p,
        Err(_) => return Err(VersionError::MinorPatternInvalid),
    };
    Ok((major, minor))
}

/// The text of a version: `major.minor.patch`, then `-` and the prerelease
/// if there is one, then `+` and the build metadata if there is one.
pub open spec fn version_text(v: Version) -> Seq<char> {
    let core = decimal(v.major as nat) + seq!['.'] + decimal(v.minor as nat) + seq!['.'] + decimal(
        v.patch as nat,
    );
    let with_pre = if v.pre@.len() > 0 {
        core + seq!['-'] + v.pre@
    } else {
        core
    };
    if v.build@.len() > 0 {
        with_pre + seq!['+'] + v.build@
    } else {
        with_pre
    }
}

impl Version {
    /// Writes the version as text, e.g. `1.2.1-feature-login+3`.
    pub fn render(&self) -> (r: String)
        ensures
            r@ == version_text(*self),
    {
        proof {
            reveal_strlit(".");
            reveal_strlit("-");
            reveal_strlit("+");
        }
        let mut s = decimal_text(self.major);
        s.append(".");
        let minor = decimal_text(self.minor);
        s.append(minor.as_str());
        s.append(".");
        let patch = decimal_text(self.patch);
        s.append(patch.as_str());
        if self.pre.as_str().unicode_len() > 0 {
            s.append("-");
            s.append(self.pre.as_str());
        }
        if self.build.as_str().unicode_len() > 0 {
            s.append("+");
            s.append(self.build.as_str());
        }
        s
    }
}

} // verus!
