//! Commit records, their classification, and the counts folded from them.
use vstd::prelude::*;
use crate::pattern::{regex_finds, MessagePattern};

verus! {

/// One commit as read from the repository. Lists of records run oldest
/// first, ancestors before descendants.
pub struct CommitRecord {
    /// The commit's identifier, as text.
    pub id: String,
    /// Identifiers of its parents; the first one is the parent it is diffed against.
    pub parent_ids: Vec<String>,
    /// The commit message.
    pub message: String,
    /// Paths that differ from the diff base, restricted to the path filter.
    pub changed_paths: Vec<String>,
}

impl CommitRecord {
    /// The commit changed something under the path filter.
    pub open spec fn changes_something(&self) -> bool {
        self.changed_paths@.len() > 0
    }

    /// Whether the commit bears a relevant change.
    pub fn has_changes(&self) -> (r: bool)
        ensures
            r == self.changes_something(),
    {
        self.changed_paths.len() > 0
    }
}

/// Which commit's tree a commit is diffed against: its first parent, or none
/// (the empty tree) for a root commit, so that a root commit's changes are
/// everything it introduces.
pub fn diff_base(parent_ids: &Vec<String>) -> (r: Option<String>)
    ensures
        parent_ids@.len() == 0 <==> r is None,
        r matches Some(p) ==> p@ == parent_ids@[0]@,
{
    if parent_ids.len() == 0 {
        None
    } else {
        Some(parent_ids[0].clone())
    }
}

/// One item of the revision walk: a commit that was read, or the message of
/// an error on a single commit.
pub enum WalkStep {
    Commit(CommitRecord),
    Failed(String),
}

/// The commits of a walk, in order, with its errors left out.
pub open spec fn commits_of(steps: Seq<WalkStep>) -> Seq<CommitRecord>
    decreases steps.len(),
{
    if steps.len() == 0 {
        seq![]
    } else {
        match steps.last() {
            WalkStep::Commit(c) => commits_of(steps.drop_last()).push(c),
            WalkStep::Failed(_) => commits_of(steps.drop_last()),
        }
    }
}

/// The error messages of a walk, in order.
pub open spec fn failures_of(steps: Seq<WalkStep>) -> Seq<String>
    decreases steps.len(),
{
    if steps.len() == 0 {
        seq![]
    } else {
        match steps.last() {
            WalkStep::Commit(_) => failures_of(steps.drop_last()),
            WalkStep::Failed(m) => failures_of(steps.drop_last()).push(m),
        }
    }
}

/// A walk split into the commits to consider and the warnings to surface.
pub struct WalkOutcome {
    pub commits: Vec<CommitRecord>,
    pub warnings: Vec<String>,
}

/// Splits a walk: a failed step does not stop it, it is set aside as a
/// warning, and the commits keep their order.
pub fn split_walk(steps: Vec<WalkStep>) -> (r: WalkOutcome)
    ensures
        r.commits@ == commits_of(steps@),
        r.warnings@ == failures_of(steps@),
{
    let ghost all = steps@;
    let mut rest = steps;
    let mut commits: Vec<CommitRecord> = Vec::new();
    let mut warnings: Vec<String> = Vec::new();
    let ghost mut done: int = 0;
    while rest.len() > 0
        invariant
            0 <= done <= all.len(),
            rest@ == all.subrange(done, all.len() as int),
            commits@ == commits_of(all.take(done)),
            warnings@ == failures_of(all.take(done)),
        decreases rest@.len(),
    {
        let step = rest.remove(0);
        assert(all.take(done + 1).drop_last() =~= all.take(done));
        assert(all.take(done + 1).last() == step);
        match step {
            WalkStep::Commit(c) => commits.push(c),
            WalkStep::Failed(m) => warnings.push(m),
        }
        proof {
            done = done + 1;
        }
        assert(rest@ =~= all.subrange(done, all.len() as int));
    }
    assert(all.take(done) =~= all);
    WalkOutcome { commits, warnings }
}

/// How one commit moves the version.
#[derive(Clone, Copy, Debug, PartialEq, Eq, Structural)]
pub enum Bump {
    Major,
    Minor,
    Patch,
}

/// The classification given the two match results: major wins over minor.
pub open spec fn bump_for(major_hit: bool, minor_hit: bool) -> Bump {
    if major_hit {
        Bump::Major
    } else if minor_hit {
        Bump::Minor
    } else {
        Bump::Patch
    }
}

/// The classification of `message` under the two patterns.
pub open spec fn classify_spec(major: Seq<char>, minor: Seq<char>, message: Seq<char>) -> Bump {
    bump_for(regex_finds(major, message), regex_finds(minor, message))
}

/// Classifies from the two match results.
pub fn classification(major_hit: bool, minor_hit: bool) -> (r: Bump)
    ensures
        r == bump_for(major_hit, minor_hit),
{
    if major_hit {
        Bump::Major
    } else if minor_hit {
        Bump::Minor
    } else {
        Bump::Patch
    }
}

/// Classifies a commit message: `Major` if the major pattern matches
/// anywhere in it, else `Minor` if the minor pattern does, else `Patch`.
pub fn classify(major: &MessagePattern, minor: &MessagePattern, message: &str) -> (r: Bump)
    ensures
        r == classify_spec(major@, minor@, message@),
{
    let major_hit = major.is_match(message);
    if major_hit {
        Bump::Major
    } else {
        classification(false, minor.is_match(message))
    }
}

/// The three counters of a version.
#[derive(Clone, Copy, Debug, PartialEq, Eq, Structural)]
pub struct VersionCounts {
    pub major: u64,
    pub minor: u64,
    pub patch: u64,
}

/// How many times `b` occurs in `bumps`.
pub open spec fn occurrences(bumps: Seq<Bump>, b: Bump) -> nat
    decreases bumps.len(),
{
    if bumps.len() == 0 {
        0
    } else {
        occurrences(bumps.drop_last(), b) + if bumps.last() == b {
            1nat
        } else {
            0nat
        }
    }
}

/// The counts folded over `bumps` from the baseline `0.1.0`.
pub open spec fn tally_spec(bumps: Seq<Bump>) -> (nat, nat, nat) {
    (
        occurrences(bumps, Bump::Major),
        1 + occurrences(bumps, Bump::Minor),
        occurrences(bumps, Bump::Patch),
    )
}

/// The counters agree with a triple of naturals.
pub open spec fn counts_are(c: VersionCounts, t: (nat, nat, nat)) -> bool {
    c.major as nat == t.0 && c.minor as nat == t.1 && c.patch as nat == t.2
}

/// The messages of the change-bearing commits, in order.
pub open spec fn retained_messages(records: Seq<CommitRecord>) -> Seq<Seq<char>>
    decreases records.len(),
{
    if records.len() == 0 {
        seq![]
    } else {
        let earlier = retained_messages(records.drop_last());
        if records.last().changes_something() {
            earlier.push(records.last().message@)
        } else {
            earlier
        }
    }
}

/// The classifications of all retained messages but the earliest.
pub open spec fn bumps_of(major: Seq<char>, minor: Seq<char>, messages: Seq<Seq<char>>) -> Seq<Bump> {
    if messages.len() == 0 {
        seq![]
    } else {
        messages.subrange(1, messages.len() as int).map_values(
            |m: Seq<char>| classify_spec(major, minor, m),
        )
    }
}

/// The counts that a history yields under the two patterns.
pub open spec fn history_counts(major: Seq<char>, minor: Seq<char>, records: Seq<CommitRecord>) -> (
    nat,
    nat,
    nat,
) {
    tally_spec(bumps_of(major, minor, retained_messages(records)))
}

pub proof fn lemma_occurrences_bounded(bumps: Seq<Bump>, b: Bump)
    ensures
        occurrences(bumps, b) <= bumps.len(),
    decreases bumps.len(),
{
    if bumps.len() > 0 {
        lemma_occurrences_bounded(bumps.drop_last(), b);
    }
}

pub proof fn lemma_retained_bounded(records: Seq<CommitRecord>)
    ensures
        retained_messages(records).len() <= records.len(),
    decreases records.len(),
{
    if records.len() > 0 {
        lemma_retained_bounded(records.drop_last());
    }
}

/// Folds `bumps` into counts, starting from the baseline `major = 0,
/// minor = 1, patch = 0`.
pub fn tally(bumps: &Vec<Bump>) -> (r: VersionCounts)
    requires
        bumps@.len() < u64::MAX,
    ensures
        counts_are(r, tally_spec(bumps@)),
{
    let mut c = VersionCounts { major: 0, minor: 1, patch: 0 };
    let mut i: usize = 0;
    while i < bumps.len()
        invariant
            i <= bumps@.len() < u64::MAX,
            counts_are(c, tally_spec(bumps@.take(i as int))),
        decreases bumps@.len() - i,
    {
        let ghost before = bumps@.take(i as int);
        assert(bumps@.take(i as int + 1).drop_last() =~= before);
        proof {
            lemma_occurrences_bounded(before, Bump::Major);
            lemma_occurrences_bounded(before, Bump::Minor);
            lemma_occurrences_bounded(before, Bump::Patch);
        }
        match bumps[i] {
            Bump::Major => c.major = c.major + 1,
            Bump::Minor => c.minor = c.minor + 1,
            Bump::Patch => c.patch = c.patch + 1,
        }
        i = i + 1;
    }
    assert(bumps@.take(i as int) =~= bumps@);
    c
}

/// Counts a history: keeps the change-bearing commits in order, drops the
/// earliest of them, classifies the rest and folds the classifications from
/// the baseline.
pub fn count_commits(records: &Vec<CommitRecord>, major: &MessagePattern, minor: &MessagePattern) -> (r:
    VersionCounts)
    requires
        records@.len() < u64::MAX,
    ensures
        counts_are(r, history_counts(major@, minor@, records@)),
{
    let mut c = VersionCounts { major: 0, minor: 1, patch: 0 };
    let mut seen_first = false;
    let mut i: usize = 0;
    while i < records.len()
        invariant
            i <= records@.len() < u64::MAX,
            seen_first == (retained_messages(records@.take(i as int)).len() > 0),
            counts_are(c, history_counts(major@, minor@, records@.take(i as int))),
        decreases records@.len() - i,
    {
        let ghost prefix = records@.take(i as int);
        let ghost msgs = retained_messages(prefix);
        let ghost bumps = bumps_of(major@, minor@, msgs);
        assert(records@.take(i as int + 1).drop_last() =~= prefix);
        proof {
            lemma_retained_bounded(prefix);
            lemma_occurrences_bounded(bumps, Bump::Major);
            lemma_occurrences_bounded(bumps, Bump::Minor);
            lemma_occurrences_bounded(bumps, Bump::Patch);
        }
        let rec = &records[i];
        if rec.has_changes() {
            if !seen_first {
                seen_first = true;
                assert(bumps_of(major@, minor@, msgs.push(rec.message@)) =~= seq![]);
            } else {
                let b = classify(major, minor, rec.message.as_str());
                let ghost grown = msgs.push(rec.message@);
                assert(bumps_of(major@, minor@, grown).drop_last() =~= bumps);
                assert(bumps_of(major@, minor@, grown).last() == b);
                match b {
                    Bump::Major => c.major = c.major + 1,
                    Bump::Minor => c.minor = c.minor + 1,
                    Bump::Patch => c.patch = c.patch + 1,
                }
            }
        }
        i = i + 1;
    }
    assert(records@.take(i as int) =~= records@);
    c
}

} // verus!
