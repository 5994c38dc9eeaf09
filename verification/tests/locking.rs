use std::sync::Arc;

use rwlock_trace::lock::TokioRwLockTrace;
use rwlock_trace::record::CallSite;
use rwlock_trace::record::OpKind;
use rwlock_trace::record::worker_label;

fn site(line: u64) -> CallSite {
    CallSite {
        file: "tests/locking.rs".to_string(),
        line,
        worker: "main".to_string(),
    }
}

#[test]
fn shared_read_reports_and_preserves_value() {
    let lock = TokioRwLockTrace::new(5u64);
    let (guard, attempt) = lock.try_read(site(10));
    assert_eq!(attempt, "Function 'fn()' called at tests/locking.rs:10 on thread main");
    let guard = guard.expect("an uncontended shared acquisition is granted");
    assert_eq!(*guard.value(), 5);
    let record = guard.release();
    assert_eq!(record.kind, OpKind::ReleaseShared);
    assert_eq!(
        record.summary,
        format!("Read lock released. Duration: {}ms", record.duration_millis)
    );
    assert_eq!(
        record.attribution,
        "Function 'fn()' called at tests/locking.rs:10 on thread main"
    );
    let (again, _) = lock.try_read(site(11));
    assert_eq!(*again.expect("the lock is free again").value(), 5);
}

#[test]
fn exclusive_write_reports_duration_and_updates_value() {
    let rt = tokio::runtime::Builder::new_multi_thread()
        .enable_time()
        .build()
        .expect("runtime");
    let lock = TokioRwLockTrace::new(5u64);
    let (guard, _) = lock.try_write(site(20));
    let mut guard = guard.expect("an uncontended exclusive acquisition is granted");
    rt.block_on(async { tokio::time::sleep(std::time::Duration::from_millis(120)).await });
    let v = *guard.value();
    guard.set(v + 1);
    assert_eq!(*guard.value(), 6);
    let record = guard.release();
    assert_eq!(record.kind, OpKind::ReleaseExclusive);
    assert!(record.duration_millis >= 100);
    assert_eq!(
        record.summary,
        format!("Write lock released. Duration: {}ms", record.duration_millis)
    );
    let (reader, _) = lock.try_read(site(21));
    assert_eq!(*reader.expect("the lock is free again").value(), 6);
}

#[test]
fn concurrent_shared_acquisitions_both_granted() {
    let rt = tokio::runtime::Builder::new_multi_thread()
        .worker_threads(2)
        .build()
        .expect("runtime");
    let shared = Arc::new(tokio::sync::RwLock::new(5u64));

    // a shared holder stays active for the whole test
    let holder = TokioRwLockTrace::from(shared.clone());
    let (held, _) = holder.try_read(site(30));
    let held = held.expect("first shared acquisition is granted");

    let arc_a = shared.clone();
    let task_a = rt.spawn(async move {
        let lock = TokioRwLockTrace::from(arc_a);
        let (guard, line) = lock.try_read(CallSite {
            file: "tests/locking.rs".to_string(),
            line: 31,
            worker: "reader-a".to_string(),
        });
        let guard = guard.expect("a reader must not block another reader");
        let value = *guard.value();
        let record = guard.release();
        (value, line, record)
    });
    let arc_b = shared.clone();
    let task_b = rt.spawn(async move {
        let lock = TokioRwLockTrace::from(arc_b);
        let (guard, line) = lock.try_read(CallSite {
            file: "tests/locking.rs".to_string(),
            line: 32,
            worker: "reader-b".to_string(),
        });
        let guard = guard.expect("a reader must not block another reader");
        let value = *guard.value();
        let record = guard.release();
        (value, line, record)
    });

    let (value_a, line_a, record_a) = rt.block_on(task_a).expect("task a");
    let (value_b, line_b, record_b) = rt.block_on(task_b).expect("task b");
    assert_eq!(value_a, 5);
    assert_eq!(value_b, 5);
    assert_eq!(line_a, "Function 'fn()' called at tests/locking.rs:31 on thread reader-a");
    assert_eq!(line_b, "Function 'fn()' called at tests/locking.rs:32 on thread reader-b");
    assert_eq!(record_a.kind, OpKind::ReleaseShared);
    assert_eq!(record_b.kind, OpKind::ReleaseShared);
    assert_eq!(
        record_a.attribution,
        "Function 'fn()' called at tests/locking.rs:31 on thread reader-a"
    );
    held.release();
}

#[test]
fn exclusive_guard_excludes_everyone() {
    let lock = TokioRwLockTrace::new(0u64);
    let (writer, _) = lock.try_write(site(40));
    let writer = writer.expect("an uncontended exclusive acquisition is granted");
    let (reader, _) = lock.try_read(site(41));
    assert!(reader.is_none());
    let (second_writer, _) = lock.try_write(site(42));
    assert!(second_writer.is_none());
    writer.release();
    let (reader, _) = lock.try_read(site(43));
    assert!(reader.is_some());
}

#[test]
fn shared_guard_excludes_only_writers() {
    let lock = TokioRwLockTrace::new(0u64);
    let (reader, _) = lock.try_read(site(45));
    let reader = reader.expect("an uncontended shared acquisition is granted");
    let (writer, _) = lock.try_write(site(46));
    assert!(writer.is_none());
    let (second_reader, _) = lock.try_read(site(47));
    let second_reader = second_reader.expect("a second reader joins freely");
    second_reader.release();
    reader.release();
    let (writer, _) = lock.try_write(site(48));
    assert!(writer.is_some());
}

#[test]
fn stress_exclusive_mutations_all_count() {
    let rt = tokio::runtime::Builder::new_multi_thread()
        .worker_threads(4)
        .build()
        .expect("runtime");
    let shared = Arc::new(tokio::sync::RwLock::new(0u64));
    let mut handles = Vec::new();
    for t in 0..4u64 {
        let arc = shared.clone();
        handles.push(rt.spawn(async move {
            let lock = TokioRwLockTrace::from(arc);
            let mut done = 0u64;
            while done < 25 {
                let (guard, _) = lock.try_write(CallSite {
                    file: "tests/locking.rs".to_string(),
                    line: 50 + t,
                    worker: format!("writer-{}", t),
                });
                match guard {
                    Some(mut guard) => {
                        let v = *guard.value();
                        guard.set(v + 1);
                        guard.release();
                        done += 1;
                    }
                    None => {
                        tokio::task::yield_now().await;
                    }
                }
            }
        }));
    }
    for handle in handles {
        rt.block_on(handle).expect("writer task");
    }
    let lock = TokioRwLockTrace::from(shared.clone());
    let (guard, _) = lock.try_read(site(60));
    assert_eq!(*guard.expect("all writers are done").value(), 100);
}

#[test]
fn each_granted_acquisition_pairs_with_one_release() {
    let lock = TokioRwLockTrace::new(1u64);
    let mut grants = 0u64;
    let mut releases = 0u64;
    for i in 0..3u64 {
        let (guard, _) = lock.try_read(site(70 + i));
        if let Some(guard) = guard {
            grants += 1;
            let record = guard.release();
            assert_eq!(record.kind, OpKind::ReleaseShared);
            releases += 1;
        }
    }
    assert_eq!(grants, 3);
    assert_eq!(releases, 3);
}

#[test]
fn test_spawn() {
    let rw_lock = Arc::new(tokio::sync::RwLock::new(5));
    let logging_lock = TokioRwLockTrace::from(rw_lock.clone());
    let rt = tokio::runtime::Builder::new_multi_thread()
        .enable_time()
        .build()
        .expect("runtime");
    let handle = rt.spawn(async move {
        {
            let (read_guard, _) = logging_lock.try_read(CallSite {
                file: "tests/locking.rs".to_string(),
                line: 80,
                worker: worker_label(None),
            });
            let read_guard = read_guard.expect("shared acquisition on a fresh lock");
            println!("Read value: {}", *read_guard.value());
            assert_eq!(*read_guard.value(), 5);
            read_guard.release();
        }
        {
            let (write_guard, _) = logging_lock.try_write(CallSite {
                file: "tests/locking.rs".to_string(),
                line: 81,
                worker: worker_label(None),
            });
            let mut write_guard = write_guard.expect("exclusive acquisition after the read ended");
            tokio::time::sleep(tokio::time::Duration::from_secs(2)).await;
            let v = *write_guard.value();
            write_guard.set(v + 1);
            println!("Updated value: {}", *write_guard.value());
            assert_eq!(*write_guard.value(), 6);
            let record = write_guard.release();
            assert!(record.duration_millis >= 1990);
        }
    });
    rt.block_on(handle).expect("spawned task");
}

#[test]
fn wrapping_shares_the_underlying_lock() {
    let shared = Arc::new(tokio::sync::RwLock::new(5u64));
    let a = TokioRwLockTrace::from(shared.clone());
    let b = TokioRwLockTrace::from(shared.clone());
    let (writer, _) = a.try_write(site(90));
    let mut writer = writer.expect("first wrapper acquires exclusively");
    writer.set(9);
    // while the first wrapper's writer is active, the second wrapper is
    // blocked: both views share one underlying state
    let (blocked, _) = b.try_read(site(91));
    assert!(blocked.is_none());
    writer.release();
    let (reader, _) = b.try_read(site(92));
    assert_eq!(*reader.expect("free again").value(), 9);
}

#[test]
fn pass_through_reaches_the_same_lock() {
    let lock = TokioRwLockTrace::new(3u64);
    let direct = lock.underlying().try_read().expect("the underlying lock is free");
    assert_eq!(*direct, 3);
    drop(direct);
    let held = lock.underlying().try_write().expect("the underlying lock is free again");
    let (blocked, _) = lock.try_read(site(95));
    assert!(blocked.is_none());
    drop(held);
    let (reader, _) = lock.try_read(site(96));
    assert!(reader.is_some());
}
