use graphene::shader_cache::{
    apply_compile_round, ensure_compiled, is_stale, plan_recompilation, ShaderArtifact, SourceFile,
};

fn file(src_mtime: u64, cached_mtime: Option<u64>) -> SourceFile {
    SourceFile { src_mtime, cached_mtime }
}

#[test]
fn staleness_is_missing_or_older_artifact() {
    assert!(is_stale(&file(10, None)));
    assert!(is_stale(&file(10, Some(9))));
    // Equal times count as fresh: the source was not modified later.
    assert!(!is_stale(&file(10, Some(10))));
    assert!(!is_stale(&file(10, Some(11))));
}

#[test]
fn plan_holds_exactly_the_stale_files_in_order() {
    let files = vec![
        file(10, Some(5)),  // stale: artifact older
        file(10, Some(20)), // fresh
        file(10, None),     // stale: artifact missing
        file(10, Some(10)), // fresh: same time
    ];
    assert_eq!(plan_recompilation(&files), vec![0, 2]);
}

#[test]
fn fresh_sources_plan_nothing_and_report_zero_changes() {
    // Nothing stale: the plan is empty, so no compiler process is invoked,
    // and the batch returns every artifact with a change count of zero.
    let files = vec![file(10, Some(10)), file(3, Some(20))];
    let plan = plan_recompilation(&files);
    assert_eq!(plan, Vec::<usize>::new());
    let outcomes: Vec<bool> = Vec::new();
    let (artifacts, changed) = ensure_compiled(&files, &plan, &outcomes).unwrap();
    assert_eq!(changed, 0);
    assert_eq!(
        artifacts,
        vec![
            ShaderArtifact { source_index: 0, recompiled: false },
            ShaderArtifact { source_index: 1, recompiled: false },
        ]
    );
}

#[test]
fn stale_subset_is_recompiled_and_counted() {
    let files = vec![file(10, Some(5)), file(10, Some(20)), file(10, None)];
    let plan = plan_recompilation(&files);
    assert_eq!(plan, vec![0, 2]);
    let outcomes = vec![true, true];
    let (artifacts, changed) = ensure_compiled(&files, &plan, &outcomes).unwrap();
    assert_eq!(changed, 2);
    assert_eq!(
        artifacts,
        vec![
            ShaderArtifact { source_index: 0, recompiled: true },
            ShaderArtifact { source_index: 1, recompiled: false },
            ShaderArtifact { source_index: 2, recompiled: true },
        ]
    );
}

#[test]
fn any_failed_compilation_rejects_the_whole_batch() {
    // Three stale files; the middle compilation fails: no result at all,
    // even though two compilations succeeded.
    let files = vec![file(10, None), file(11, None), file(12, None)];
    let plan = plan_recompilation(&files);
    assert_eq!(plan, vec![0, 1, 2]);
    let outcomes = vec![true, false, true];
    assert!(ensure_compiled(&files, &plan, &outcomes).is_none());
}

#[test]
fn successful_artifacts_survive_a_failed_batch_so_a_retry_recompiles_only_the_failure() {
    let files = vec![file(10, None), file(11, None), file(12, None)];
    let plan = plan_recompilation(&files);
    let outcomes = vec![true, false, true];
    assert!(ensure_compiled(&files, &plan, &outcomes).is_none());
    // The two successful compilations were still written to the cache.
    let after = apply_compile_round(&files, &plan, &outcomes, 50);
    assert_eq!(after[0], file(10, Some(50)));
    assert_eq!(after[1], file(11, None));
    assert_eq!(after[2], file(12, Some(50)));
    // The retry plans exactly the one failing file, and succeeds.
    let retry_plan = plan_recompilation(&after);
    assert_eq!(retry_plan, vec![1]);
    let retry_outcomes = vec![true];
    let (artifacts, changed) = ensure_compiled(&after, &retry_plan, &retry_outcomes).unwrap();
    assert_eq!(changed, 1);
    assert_eq!(
        artifacts,
        vec![
            ShaderArtifact { source_index: 0, recompiled: false },
            ShaderArtifact { source_index: 1, recompiled: true },
            ShaderArtifact { source_index: 2, recompiled: false },
        ]
    );
}

#[test]
fn unmodified_source_round_trip_reports_zero_changes() {
    // First round compiles the one declared file.
    let files = vec![file(10, None)];
    let plan = plan_recompilation(&files);
    assert_eq!(plan, vec![0]);
    let outcomes = vec![true];
    let (_, changed) = ensure_compiled(&files, &plan, &outcomes).unwrap();
    assert_eq!(changed, 1);
    // The source is not modified; querying again plans nothing and still
    // returns a usable artifact for every declared file.
    let after = apply_compile_round(&files, &plan, &outcomes, 40);
    let second_plan = plan_recompilation(&after);
    assert_eq!(second_plan, Vec::<usize>::new());
    let second_outcomes: Vec<bool> = Vec::new();
    let (artifacts, changed) = ensure_compiled(&after, &second_plan, &second_outcomes).unwrap();
    assert_eq!(changed, 0);
    assert_eq!(
        artifacts,
        vec![ShaderArtifact { source_index: 0, recompiled: false }]
    );
}
