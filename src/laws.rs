//! Properties that hold of every history, pattern pair and branch state.
use vstd::prelude::*;
use crate::history::{
    bump_for, bumps_of, classify_spec, history_counts, retained_messages, Bump, CommitRecord,
};
use crate::pattern::regex_finds;
use crate::text::sanitized;
use crate::identifiers::lemma_decimal_is_build;
use crate::version::{branch_composable, composed, BranchContext, Version};

verus! {

proof fn lemma_retained_agree(a: Seq<CommitRecord>, b: Seq<CommitRecord>, k: int, n: int)
    requires
        a.len() == b.len(),
        0 <= k < a.len(),
        0 <= n <= a.len(),
        forall|i: int| 0 <= i < a.len() && i != k ==> a[i] == b[i],
        a[k].changes_something(),
        b[k].changes_something(),
        forall|j: int| 0 <= j < k ==> !a[j].changes_something(),
    ensures
        retained_messages(a.take(n)).len() == retained_messages(b.take(n)).len(),
        forall|i: int|
            1 <= i < retained_messages(a.take(n)).len() ==> retained_messages(a.take(n))[i]
                == retained_messages(b.take(n))[i],
        n <= k ==> retained_messages(a.take(n)).len() == 0,
    decreases n,
{
    if n > 0 {
        lemma_retained_agree(a, b, k, n - 1);
        assert(a.take(n).drop_last() =~= a.take(n - 1));
        assert(b.take(n).drop_last() =~= b.take(n - 1));
    } else {
        assert(a.take(0) =~= Seq::<CommitRecord>::empty());
        assert(b.take(0) =~= Seq::<CommitRecord>::empty());
    }
}

/// The earliest change-bearing commit is never classified: two histories
/// that differ only in that commit's message yield the same counts.
pub proof fn law_earliest_change_unclassified(
    major: Seq<char>,
    minor: Seq<char>,
    a: Seq<CommitRecord>,
    b: Seq<CommitRecord>,
    k: int,
)
    requires
        a.len() == b.len(),
        0 <= k < a.len(),
        forall|i: int| 0 <= i < a.len() && i != k ==> a[i] == b[i],
        a[k].changes_something(),
        b[k].changes_something(),
        forall|j: int| 0 <= j < k ==> !a[j].changes_something(),
    ensures
        history_counts(major, minor, a) == history_counts(major, minor, b),
{
    lemma_retained_agree(a, b, k, a.len() as int);
    assert(a.take(a.len() as int) =~= a);
    assert(b.take(b.len() as int) =~= b);
    let ra = retained_messages(a);
    let rb = retained_messages(b);
    if ra.len() > 0 {
        assert(ra.subrange(1, ra.len() as int) =~= rb.subrange(1, rb.len() as int));
    }
    assert(bumps_of(major, minor, ra) =~= bumps_of(major, minor, rb));
}

/// A message that both patterns match is classified as major, never minor.
pub proof fn law_major_wins(major: Seq<char>, minor: Seq<char>, message: Seq<char>)
    requires
        regex_finds(major, message),
        regex_finds(minor, message),
    ensures
        classify_spec(major, minor, message) == Bump::Major,
        bump_for(true, true) == Bump::Major,
{
}

/// A composed version has empty prerelease and build metadata exactly on
/// the main branch, and both non-empty elsewhere.
pub proof fn law_metadata_follows_branch(v: Version, counts: (nat, nat, nat), branch: BranchContext)
    requires
        branch_composable(branch),
        composed(v, counts, branch),
    ensures
        branch.is_main_branch ==> v.pre@.len() == 0 && v.build@.len() == 0,
        !branch.is_main_branch ==> v.pre@.len() > 0 && v.build@.len() > 0,
{
    lemma_decimal_is_build(branch.ahead as nat);
}

/// Sanitizing leaves a name without `/` and `_` as it is.
pub proof fn law_sanitize_keeps_clean_names(name: Seq<char>)
    requires
        forall|i: int| 0 <= i < name.len() ==> #[trigger] name[i] != '/' && name[i] != '_',
    ensures
        sanitized(name) == name,
{
    assert(sanitized(name) =~= name);
}

/// Sanitizing replaces every `/` and `_` by `-`, keeps every other
/// character, leaves no `/` or `_` behind, and so is idempotent.
pub proof fn law_sanitize_replaces_separators(name: Seq<char>)
    ensures
        sanitized(name).len() == name.len(),
        forall|i: int|
            0 <= i < name.len() ==> (#[trigger] sanitized(name)[i] == if name[i] == '/' || name[i]
                == '_' {
                '-'
            } else {
                name[i]
            }),
        forall|i: int|
            0 <= i < name.len() ==> #[trigger] sanitized(name)[i] != '/' && sanitized(name)[i]
                != '_',
        sanitized(sanitized(name)) == sanitized(name),
{
    assert(sanitized(sanitized(name)) =~= sanitized(name));
}

proof fn lemma_nothing_retained(records: Seq<CommitRecord>)
    requires
        forall|i: int| 0 <= i < records.len() ==> !(#[trigger] records[i]).changes_something(),
    ensures
        retained_messages(records).len() == 0,
    decreases records.len(),
{
    if records.len() > 0 {
        let rest = records.drop_last();
        assert forall|i: int| 0 <= i < rest.len() implies !(#[trigger] rest[i]).changes_something() by {
            assert(rest[i] == records[i]);
        }
        lemma_nothing_retained(rest);
        assert(!records[records.len() - 1].changes_something());
    }
}

/// A history without any change-bearing commit yields the baseline
/// `major = 0, minor = 1, patch = 0`.
pub proof fn law_baseline(major: Seq<char>, minor: Seq<char>, records: Seq<CommitRecord>)
    requires
        forall|i: int| 0 <= i < records.len() ==> !(#[trigger] records[i]).changes_something(),
    ensures
        history_counts(major, minor, records) == (0nat, 1nat, 0nat),
{
    lemma_nothing_retained(records);
    assert(bumps_of(major, minor, retained_messages(records)) =~= Seq::<Bump>::empty());
}

proof fn lemma_first_retained(records: Seq<CommitRecord>, n: int)
    requires
        1 <= n <= records.len(),
        records[0].changes_something(),
    ensures
        retained_messages(records.take(n)).len() > 0,
        retained_messages(records.take(n))[0] == records[0].message@,
    decreases n,
{
    assert(records.take(n).drop_last() =~= records.take(n - 1));
    if n > 1 {
        lemma_first_retained(records, n - 1);
    } else {
        assert(records.take(0) =~= Seq::<CommitRecord>::empty());
    }
}

/// A root commit (no parent, so diffed against the empty tree) that
/// introduces any file under the filter is retained, as the earliest
/// change-bearing commit of a history that starts with it.
pub proof fn law_root_commit_retained(records: Seq<CommitRecord>)
    requires
        records.len() > 0,
        records[0].parent_ids@.len() == 0,
        records[0].changes_something(),
    ensures
        retained_messages(records).len() > 0,
        retained_messages(records)[0] == records[0].message@,
{
    lemma_first_retained(records, records.len() as int);
    assert(records.take(records.len() as int) =~= records);
}

} // verus!
