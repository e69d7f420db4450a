use perf_group::{
    classify_attach_error, find_value, measure, measure_group, project_reading, Cache, CacheId, CacheOp, CacheResult,
    CounterError, CounterGroup, EventSpec, Hardware, MeasureError, Raw,
};

fn is_attach_failure(e: &CounterError) -> bool {
    matches!(
        e,
        CounterError::PermissionDenied
            | CounterError::UnsupportedEvent
            | CounterError::ResourceExhausted
            | CounterError::OperationFailed(_)
    )
}

#[test]
fn cache_spec_keeps_its_parts() {
    let c = Cache::new(CacheId::DTLB, CacheOp::PREFETCH, CacheResult::ACCESS);
    assert_eq!(c.which, CacheId::DTLB);
    assert_eq!(c.operation, CacheOp::PREFETCH);
    assert_eq!(c.result, CacheResult::ACCESS);
}

#[test]
fn raw_spec_accepts_any_config() {
    assert_eq!(Raw::new(0).config, 0);
    assert_eq!(Raw::new(u64::MAX).config, u64::MAX);
    assert_eq!(Raw::new(0x1c2).config, 0x1c2);
}

#[test]
fn empty_group_is_rejected() {
    match CounterGroup::new(&[]) {
        Err(e) => assert_eq!(e, CounterError::EmptyGroup),
        Ok(_) => panic!("an empty group was built"),
    }
}

#[test]
fn empty_measurement_is_rejected_before_work_runs() {
    let mut ran = false;
    let r: Result<Vec<u64>, MeasureError<()>> = measure(&[], || {
        ran = true;
        Ok(())
    });
    assert_eq!(r, Err(MeasureError::Counter(CounterError::EmptyGroup)));
    assert!(!ran);
}

#[test]
fn permission_codes_are_permission_denied() {
    assert_eq!(classify_attach_error(Some(1)), CounterError::PermissionDenied);
    assert_eq!(classify_attach_error(Some(13)), CounterError::PermissionDenied);
}

#[test]
fn unsupported_codes_are_unsupported_event() {
    for code in [2, 19, 22, 95] {
        assert_eq!(classify_attach_error(Some(code)), CounterError::UnsupportedEvent);
    }
}

#[test]
fn slot_codes_are_resource_exhausted() {
    for code in [16, 24, 28] {
        assert_eq!(classify_attach_error(Some(code)), CounterError::ResourceExhausted);
    }
}

#[test]
fn other_codes_are_operation_failures() {
    assert_eq!(classify_attach_error(Some(5)), CounterError::OperationFailed(Some(5)));
    assert_eq!(classify_attach_error(Some(-1)), CounterError::OperationFailed(Some(-1)));
    assert_eq!(classify_attach_error(None), CounterError::OperationFailed(None));
}

#[test]
fn find_value_takes_first_entry_of_the_id() {
    let entries = vec![(7, 70), (3, 30), (7, 71)];
    assert_eq!(find_value(7, &entries), Some(70));
    assert_eq!(find_value(3, &entries), Some(30));
    assert_eq!(find_value(4, &entries), None);
    assert_eq!(find_value(4, &vec![]), None);
}

#[test]
fn reading_follows_counter_order_not_entry_order() {
    let ids = vec![30, 10, 20];
    let entries = vec![(10, 1000), (20, 2000), (30, 3000)];
    assert_eq!(project_reading(&ids, &entries), Ok(vec![3000, 1000, 2000]));
    let reversed = vec![(30, 3000), (20, 2000), (10, 1000)];
    assert_eq!(project_reading(&ids, &reversed), Ok(vec![3000, 1000, 2000]));
}

#[test]
fn reading_ignores_entries_of_other_counters() {
    let ids = vec![5];
    let entries = vec![(1, 11), (5, 55), (9, 99)];
    assert_eq!(project_reading(&ids, &entries), Ok(vec![55]));
}

#[test]
fn missing_value_is_internal_inconsistency() {
    let ids = vec![1, 2];
    let entries = vec![(1, 10)];
    assert_eq!(project_reading(&ids, &entries), Err(CounterError::InternalInconsistency));
    assert_eq!(project_reading(&ids, &vec![]), Err(CounterError::InternalInconsistency));
}

#[test]
fn zero_values_are_kept() {
    let ids = vec![4, 8];
    let entries = vec![(8, 0), (4, 0)];
    assert_eq!(project_reading(&ids, &entries), Ok(vec![0, 0]));
}

#[test]
fn group_reads_one_value_per_event_in_order() {
    let specs = [
        EventSpec::Hardware(Hardware::CPU_CYCLES),
        EventSpec::Hardware(Hardware::INSTRUCTIONS),
        EventSpec::Raw(Raw::new(0x00c0)),
    ];
    match CounterGroup::new(&specs) {
        Ok(mut group) => {
            assert_eq!(group.len(), 3);
            if group.enable().is_ok() {
                for _ in 0..3 {
                    if let Ok(values) = group.read() {
                        assert_eq!(values.len(), 3);
                    }
                }
                let _ = group.disable();
            }
            group.close();
        }
        Err(e) => assert!(is_attach_failure(&e)),
    }
}

#[test]
fn failing_work_is_reported_as_its_own_error() {
    let specs = [EventSpec::Hardware(Hardware::INSTRUCTIONS)];
    let r = measure(&specs, || Err("work failed"));
    match r {
        Err(MeasureError::Work(e)) => assert_eq!(e, "work failed"),
        Err(MeasureError::Counter(e)) => assert!(is_attach_failure(&e)),
        Ok(_) => panic!("a failed unit of work gave a reading"),
    }
}

#[test]
fn instructions_and_l1d_read_misses_over_a_million_iterations() {
    let specs = [
        EventSpec::Hardware(Hardware::INSTRUCTIONS),
        EventSpec::Cache(Cache::new(CacheId::L1D, CacheOp::READ, CacheResult::MISS)),
    ];
    let r: Result<Vec<u64>, MeasureError<()>> = measure(&specs, || {
        let mut x: u64 = 0;
        for i in 0..1_000_000u64 {
            x = std::hint::black_box(x.wrapping_add(i));
        }
        std::hint::black_box(x);
        Ok(())
    });
    match r {
        Ok(values) => {
            assert_eq!(values.len(), 2);
            if values[0] != 0 {
                assert!(values[0] >= 1_000_000);
            }
        }
        Err(MeasureError::Counter(e)) => assert!(is_attach_failure(&e)),
        Err(MeasureError::Work(())) => panic!("the unit of work cannot fail"),
    }
}

#[test]
fn too_many_counters_fail_without_a_partial_group() {
    let specs = vec![EventSpec::Hardware(Hardware::CPU_CYCLES); 64];
    match CounterGroup::new(&specs) {
        Ok(group) => assert_eq!(group.len(), 64),
        Err(e) => {
            assert!(is_attach_failure(&e));
            let again = CounterGroup::new(&specs[..1]);
            if let Ok(group) = again {
                assert_eq!(group.len(), 1);
            }
        }
    }
}

#[test]
fn values_freeze_after_disable() {
    let specs = [EventSpec::Hardware(Hardware::INSTRUCTIONS)];
    if let Ok(mut group) = CounterGroup::new(&specs) {
        if group.enable().is_ok() && group.disable().is_ok() {
            if let (Ok(a), Ok(b)) = (group.read(), group.read()) {
                assert_eq!(a, b);
            }
        }
    }
}

#[test]
fn measured_group_is_disabled_after_failing_work() {
    let specs = [EventSpec::Cache(Cache::new(CacheId::LL, CacheOp::WRITE, CacheResult::MISS))];
    if let Ok(mut group) = CounterGroup::new(&specs) {
        let r = measure_group(&mut group, || Err(7u8));
        match r {
            Err(MeasureError::Work(e)) => assert_eq!(e, 7),
            Err(MeasureError::Counter(e)) => assert!(is_attach_failure(&e)),
            Ok(_) => panic!("a failed unit of work gave a reading"),
        }
    }
}

#[test]
fn enabling_and_disabling_twice_are_idempotent() {
    let specs = [EventSpec::Hardware(Hardware::CPU_CYCLES)];
    if let Ok(mut group) = CounterGroup::new(&specs) {
        let first = group.enable();
        let second = group.enable();
        if first.is_ok() {
            assert_eq!(second, Ok(()));
            assert_eq!(group.disable(), Ok(()));
            assert_eq!(group.disable(), Ok(()));
            if let Ok(values) = group.read() {
                assert_eq!(values.len(), 1);
            }
        }
        assert_eq!(group.len(), 1);
    }
}
