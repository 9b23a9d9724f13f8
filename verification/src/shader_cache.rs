//! Shader artifact cache: keeps compiled binaries consistent with their
//! sources.
//!
//! A declared source file is described by its modification time and by the
//! modification time of its cached compiled artifact, if one exists. A file
//! is stale when the artifact is missing or older than the source; equal
//! times count as fresh (the staleness model is time comparison, not
//! content hashing). One cache round is: plan the stale subset
//! (`plan_recompilation`), have the surrounding code invoke the external
//! compiler once per planned file, then settle the batch
//! (`ensure_compiled`). If any invoked compilation fails the whole batch
//! yields no result, so the caller never loads a mixed-freshness set --
//! but artifacts of the compilations that did succeed are on disk, so a
//! retry recompiles only the failures (`apply_compile_round` models the
//! disk state after a round).

use vstd::prelude::*;

verus! {

broadcast use vstd::seq_lib::lemma_seq_contains_after_push;

/// One declared shader source file, as the filesystem reports it.
#[derive(Clone, Copy, PartialEq, Eq, Debug)]
pub struct SourceFile {
    /// Modification time of the source.
    pub src_mtime: u64,
    /// Modification time of the cached compiled artifact; `None` when the
    /// cache holds no artifact for this file.
    pub cached_mtime: Option<u64>,
}

/// The compiled artifact of one declared source file, as handed to the
/// pipeline-loading code.
#[derive(Clone, Copy, PartialEq, Eq, Structural, Debug)]
pub struct ShaderArtifact {
    /// Position of the file in the declared source list.
    pub source_index: usize,
    /// Whether this round recompiled the file (or reused the cached binary).
    pub recompiled: bool,
}

/// A file is stale when its cached artifact is missing or strictly older
/// than the source.
pub open spec fn spec_stale(f: SourceFile) -> bool {
    match f.cached_mtime {
        Option::None => true,
        Option::Some(c) => c < f.src_mtime,
    }
}

/// Indices of the stale files, in increasing order.
pub open spec fn stale_indices(files: Seq<SourceFile>) -> Seq<usize>
    decreases files.len(),
{
    if files.len() == 0 {
        Seq::empty()
    } else if spec_stale(files.last()) {
        stale_indices(files.drop_last()).push((files.len() - 1) as usize)
    } else {
        stale_indices(files.drop_last())
    }
}

/// The recompilation plan holds exactly the stale files: every planned
/// index is a stale file, the plan is strictly increasing (so no file is
/// compiled twice), and a file is stale exactly when it is planned.
pub proof fn lemma_plan_is_exactly_the_stale_subset(files: Seq<SourceFile>)
    requires
        files.len() <= usize::MAX,
    ensures
        forall|j: int| #![auto] 0 <= j < stale_indices(files).len()
            ==> stale_indices(files)[j] < files.len()
                && spec_stale(files[stale_indices(files)[j] as int]),
        forall|j1: int, j2: int| #![auto] 0 <= j1 < j2 < stale_indices(files).len()
            ==> stale_indices(files)[j1] < stale_indices(files)[j2],
        forall|i: int| 0 <= i < files.len()
            ==> (spec_stale(files[i]) <==> stale_indices(files).contains(i as usize)),
    decreases files.len(),
{
    if files.len() > 0 {
        let prev_files = files.drop_last();
        let prev = stale_indices(prev_files);
        let s = stale_indices(files);
        let n = files.len() as int;
        lemma_plan_is_exactly_the_stale_subset(prev_files);
        assert forall|i: int| 0 <= i < n implies
            (spec_stale(files[i]) <==> s.contains(i as usize)) by {
            if spec_stale(files.last()) {
                assert(s == prev.push((n - 1) as usize));
            } else {
                assert(s == prev);
            }
            if i < n - 1 {
                assert(prev_files[i] == files[i]);
            } else {
                if s.contains(i as usize) && !spec_stale(files.last()) {
                    let k = choose|k: int| 0 <= k < prev.len() && prev[k] == i as usize;
                    assert(prev[k] < prev_files.len());
                }
            }
        }
    }
}

/// A cache with nothing stale plans no work at all.
pub proof fn lemma_fresh_cache_plans_nothing(files: Seq<SourceFile>)
    requires
        forall|i: int| 0 <= i < files.len() ==> !spec_stale(#[trigger] files[i]),
    ensures
        stale_indices(files) == Seq::<usize>::empty(),
    decreases files.len(),
{
    if files.len() > 0 {
        assert(!spec_stale(files[files.len() - 1]));
        assert(forall|i: int| 0 <= i < files.drop_last().len()
            ==> !spec_stale(#[trigger] files.drop_last()[i]));
        lemma_fresh_cache_plans_nothing(files.drop_last());
    }
}

/// Whether this file must be recompiled.
pub fn is_stale(f: &SourceFile) -> (r: bool)
    ensures
        r == spec_stale(*f),
{
    match f.cached_mtime {
        None => true,
        Some(c) => c < f.src_mtime,
    }
}

/// Builds the list of files needing recompilation: exactly the stale ones,
/// in declaration order. The external compiler is to be invoked once per
/// returned index; when nothing is stale the list is empty and no compiler
/// runs at all.
pub fn plan_recompilation(files: &Vec<SourceFile>) -> (plan: Vec<usize>)
    ensures
        plan@ == stale_indices(files@),
{
    let n = files.len();
    let mut plan: Vec<usize> = Vec::new();
    let mut i: usize = 0;
    while i < n
        invariant
            i <= n,
            n == files@.len(),
            plan@ == stale_indices(files@.take(i as int)),
        decreases n - i,
    {
        if is_stale(&files[i]) {
            plan.push(i);
        }
        proof {
            assert(files@.take(i + 1).drop_last() =~= files@.take(i as int));
            assert(files@.take(i + 1).last() == files@[i as int]);
        }
        i = i + 1;
    }
    proof {
        assert(files@.take(n as int) =~= files@);
    }
    plan
}

/// Settles one compile round. `plan` is the stale subset and `outcomes[j]`
/// says whether the compiler succeeded on `plan[j]`. If any invoked
/// compilation failed, the whole batch yields `None` -- even if others
/// succeeded -- so no mixed-freshness set of modules is ever loaded. On
/// full success every declared file's artifact is returned, in declaration
/// order, with the count of files actually recompiled.
pub fn ensure_compiled(files: &Vec<SourceFile>, plan: &Vec<usize>, outcomes: &Vec<bool>) -> (r:
    Option<(Vec<ShaderArtifact>, usize)>)
    requires
        plan@ == stale_indices(files@),
        outcomes@.len() == plan@.len(),
    ensures
        r is None <==> exists|j: int| 0 <= j < outcomes@.len() && !outcomes@[j],
        match r {
            Some(pair) => {
                &&& pair.1 == stale_indices(files@).len()
                &&& pair.0@.len() == files@.len()
                &&& forall|i: int| 0 <= i < files@.len() ==> pair.0@[i]
                    == (ShaderArtifact { source_index: i as usize, recompiled: spec_stale(files@[i]) })
            },
            None => true,
        },
{
    let mut j: usize = 0;
    while j < outcomes.len()
        invariant
            j <= outcomes@.len(),
            forall|k: int| 0 <= k < j ==> outcomes@[k],
        decreases outcomes@.len() - j,
    {
        if !outcomes[j] {
            return None;
        }
        j = j + 1;
    }
    let n = files.len();
    let mut artifacts: Vec<ShaderArtifact> = Vec::new();
    let mut i: usize = 0;
    while i < n
        invariant
            i <= n,
            n == files@.len(),
            artifacts@.len() == i,
            forall|k: int| 0 <= k < i ==> artifacts@[k]
                == (ShaderArtifact { source_index: k as usize, recompiled: spec_stale(files@[k]) }),
        decreases n - i,
    {
        let recompiled = is_stale(&files[i]);
        artifacts.push(ShaderArtifact { source_index: i, recompiled });
        i = i + 1;
    }
    Some((artifacts, plan.len()))
}

/// The cache directory's state after a compile round that invoked the
/// compiler on every planned file: each planned file whose compilation
/// succeeded has a fresh artifact written, timestamped `now`; every other
/// entry is untouched. Failures leave their file's old entry as it was,
/// and successes are written even when the round as a whole is rejected.
pub open spec fn spec_cache_after_round(
    files: Seq<SourceFile>,
    plan: Seq<usize>,
    outcomes: Seq<bool>,
    now: u64,
) -> Seq<SourceFile> {
    Seq::new(
        files.len(),
        |i: int|
            if exists|j: int| 0 <= j < plan.len() && plan[j] == i as usize && #[trigger] outcomes[j] {
                SourceFile { src_mtime: files[i].src_mtime, cached_mtime: Some(now) }
            } else {
                files[i]
            },
    )
}

/// Applies a compile round's writes to the declared file descriptions,
/// mirroring what the compiler invocations left in the cache directory.
pub fn apply_compile_round(
    files: &Vec<SourceFile>,
    plan: &Vec<usize>,
    outcomes: &Vec<bool>,
    now: u64,
) -> (after: Vec<SourceFile>)
    requires
        outcomes@.len() == plan@.len(),
        forall|j: int| 0 <= j < plan@.len() ==> #[trigger] plan@[j] < files@.len(),
    ensures
        after@ == spec_cache_after_round(files@, plan@, outcomes@, now),
{
    let n = files.len();
    let mut after: Vec<SourceFile> = Vec::new();
    let mut i: usize = 0;
    while i < n
        invariant
            i <= n,
            n == files@.len(),
            after@.len() == i,
            plan@.len() == outcomes@.len(),
            forall|j: int| 0 <= j < plan@.len() ==> #[trigger] plan@[j] < files@.len(),
            forall|k: int| #![auto] 0 <= k < i ==> after@[k]
                == spec_cache_after_round(files@, plan@, outcomes@, now)[k],
        decreases n - i,
    {
        let mut fresh = false;
        let mut j: usize = 0;
        while j < plan.len()
            invariant
                j <= plan@.len(),
                plan@.len() == outcomes@.len(),
                i < files@.len(),
                fresh == exists|k: int| 0 <= k < j && plan@[k] == i as usize
                    && #[trigger] outcomes@[k],
            decreases plan@.len() - j,
        {
            if plan[j] == i && outcomes[j] {
                fresh = true;
            }
            j = j + 1;
        }
        if fresh {
            after.push(SourceFile { src_mtime: files[i].src_mtime, cached_mtime: Some(now) });
        } else {
            after.push(files[i]);
        }
        i = i + 1;
    }
    proof {
        assert(after@ =~= spec_cache_after_round(files@, plan@, outcomes@, now));
    }
    after
}

/// After a compile round at a time no earlier than any source, the stale
/// files are exactly the planned files whose compilation failed: a retry
/// recompiles only the failures, and nothing else.
pub proof fn lemma_retry_recompiles_only_failures(
    files: Seq<SourceFile>,
    outcomes: Seq<bool>,
    now: u64,
)
    requires
        files.len() <= usize::MAX,
        outcomes.len() == stale_indices(files).len(),
        forall|i: int| 0 <= i < files.len() ==> now >= (#[trigger] files[i]).src_mtime,
    ensures
        ({
            let plan = stale_indices(files);
            let after = spec_cache_after_round(files, plan, outcomes, now);
            &&& after.len() == files.len()
            &&& forall|j: int| #![auto] 0 <= j < plan.len()
                ==> (spec_stale(after[plan[j] as int]) <==> !outcomes[j])
            &&& forall|i: int| 0 <= i < files.len() && !plan.contains(i as usize)
                ==> !spec_stale(#[trigger] after[i])
        }),
{
    let plan = stale_indices(files);
    let after = spec_cache_after_round(files, plan, outcomes, now);
    lemma_plan_is_exactly_the_stale_subset(files);
    assert forall|j: int| #![auto] 0 <= j < plan.len() implies
        (spec_stale(after[plan[j] as int]) <==> !outcomes[j]) by {
        let i = plan[j] as int;
        if outcomes[j] {
            assert(after[i].cached_mtime == Some(now));
        } else {
            // The plan is strictly increasing, so j is the only position
            // holding i, and that compilation failed: the entry is untouched.
            assert forall|k: int| 0 <= k < plan.len() && plan[k] == i as usize implies k == j by {
                if k < j {
                    assert(plan[k] < plan[j]);
                } else if k > j {
                    assert(plan[j] < plan[k]);
                }
            }
            assert(after[i] == files[i]);
        }
    }
    assert forall|i: int| 0 <= i < files.len() && !plan.contains(i as usize) implies
        !spec_stale(#[trigger] after[i]) by {
        assert(!spec_stale(files[i]));
        assert forall|k: int| 0 <= k < plan.len() implies plan[k] != i as usize by {
            if plan[k] == i as usize {
                assert(plan.contains(i as usize));
            }
        }
        assert(after[i] == files[i]);
    }
}

/// Round trip: a fully successful compile round leaves nothing stale, so
/// querying the unchanged sources again plans no recompilation at all.
pub proof fn lemma_recompiled_cache_is_fresh(files: Seq<SourceFile>, outcomes: Seq<bool>, now: u64)
    requires
        files.len() <= usize::MAX,
        outcomes.len() == stale_indices(files).len(),
        forall|j: int| 0 <= j < outcomes.len() ==> #[trigger] outcomes[j],
        forall|i: int| 0 <= i < files.len() ==> now >= (#[trigger] files[i]).src_mtime,
    ensures
        stale_indices(spec_cache_after_round(files, stale_indices(files), outcomes, now))
            == Seq::<usize>::empty(),
{
    let plan = stale_indices(files);
    let after = spec_cache_after_round(files, plan, outcomes, now);
    lemma_plan_is_exactly_the_stale_subset(files);
    lemma_retry_recompiles_only_failures(files, outcomes, now);
    assert forall|i: int| 0 <= i < after.len() implies !spec_stale(#[trigger] after[i]) by {
        if plan.contains(i as usize) {
            let j = choose|j: int| 0 <= j < plan.len() && plan[j] == i as usize;
            assert(spec_stale(after[plan[j] as int]) <==> !outcomes[j]);
        }
    }
    lemma_fresh_cache_plans_nothing(after);
}

} // verus!
