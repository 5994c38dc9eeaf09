use rwlock_trace::duration::held_duration_millis;
use rwlock_trace::record::CallSite;
use rwlock_trace::record::OpKind;
use rwlock_trace::record::ReleaseRecord;
use rwlock_trace::record::render_call_record;
use rwlock_trace::record::worker_label;
use rwlock_trace::text::u64_to_string;

#[test]
fn decimal_zero() {
    assert_eq!(u64_to_string(0), "0");
}

#[test]
fn decimal_single_digit() {
    assert_eq!(u64_to_string(7), "7");
}

#[test]
fn decimal_multi_digit() {
    assert_eq!(u64_to_string(905), "905");
    assert_eq!(u64_to_string(1000), "1000");
    assert_eq!(u64_to_string(41), "41");
}

#[test]
fn decimal_largest() {
    assert_eq!(u64_to_string(u64::MAX), "18446744073709551615");
}

#[test]
fn worker_label_named() {
    assert_eq!(worker_label(Some("worker-1".to_string())), "worker-1");
}

#[test]
fn worker_label_unnamed() {
    assert_eq!(worker_label(None), "unknown");
}

#[test]
fn call_record_line_exact() {
    let site = CallSite {
        file: "src/main.rs".to_string(),
        line: 41,
        worker: "main".to_string(),
    };
    assert_eq!(
        render_call_record(&site),
        "Function 'fn()' called at src/main.rs:41 on thread main"
    );
}

#[test]
fn call_record_line_unnamed_worker() {
    let site = CallSite {
        file: "lib.rs".to_string(),
        line: 1,
        worker: worker_label(None),
    };
    assert_eq!(
        render_call_record(&site),
        "Function 'fn()' called at lib.rs:1 on thread unknown"
    );
}

#[test]
fn release_record_shared_exact() {
    let site = CallSite {
        file: "lib.rs".to_string(),
        line: 9,
        worker: "main".to_string(),
    };
    let r = ReleaseRecord::new(OpKind::ReleaseShared, 2, &site);
    assert_eq!(r.kind, OpKind::ReleaseShared);
    assert_eq!(r.duration_millis, 2);
    assert_eq!(r.summary, "Read lock released. Duration: 2ms");
    assert_eq!(r.attribution, "Function 'fn()' called at lib.rs:9 on thread main");
}

#[test]
fn release_record_exclusive_exact() {
    let site = CallSite {
        file: "lib.rs".to_string(),
        line: 12,
        worker: "writer".to_string(),
    };
    let r = ReleaseRecord::new(OpKind::ReleaseExclusive, 2003, &site);
    assert_eq!(r.kind, OpKind::ReleaseExclusive);
    assert_eq!(r.duration_millis, 2003);
    assert_eq!(r.summary, "Write lock released. Duration: 2003ms");
    assert_eq!(r.attribution, "Function 'fn()' called at lib.rs:12 on thread writer");
}

#[test]
fn duration_is_difference() {
    assert_eq!(held_duration_millis(10, 30), 20);
    assert_eq!(held_duration_millis(5, 5), 0);
}

#[test]
fn duration_clamps_backward_clock_at_zero() {
    assert_eq!(held_duration_millis(30, 10), 0);
}
