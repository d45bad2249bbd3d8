use joinable_threadpool::DisconnectedError;
use joinable_threadpool::JoinHandle;
use joinable_threadpool::ThreadPool;

#[test]
fn it_works() {
    assert_eq!(2 + 2, 4);
}

#[test]
fn new_pool_accepts_positive_counts() {
    let one = ThreadPool::new(1);
    let four = ThreadPool::new(4);
    let h1 = one.spawn(|| 10u32);
    let h4 = four.spawn(|| 40u32);
    assert_eq!(h1.join(), Ok(10u32));
    assert_eq!(h4.join(), Ok(40u32));
}

#[test]
fn single_task_delivers_value() {
    let pool = ThreadPool::new(2);
    let handle = pool.spawn(|| 41u64 + 1);
    assert_eq!(handle.join(), Ok(42u64));
}

#[test]
fn results_pair_with_own_submission_in_reverse_join_order() {
    let pool = ThreadPool::new(3);
    let mut handles: Vec<JoinHandle<u64>> = Vec::new();
    for i in 0..10u64 {
        handles.push(pool.spawn(move || i * i));
    }
    let mut i: u64 = 10;
    while let Some(handle) = handles.pop() {
        i -= 1;
        assert_eq!(handle.join(), Ok(i * i));
    }
}

#[test]
fn hello_from_threads_multiset() {
    let pool = ThreadPool::new(4);
    let handles: Vec<JoinHandle<String>> = (0..8)
        .map(|i: u32| pool.spawn(move || format!("Hello from thread {}", i)))
        .collect();
    let mut got: Vec<String> = handles.into_iter().map(|h| h.join().unwrap()).collect();
    let mut expected: Vec<String> = (0..8).map(|i: u32| format!("Hello from thread {}", i)).collect();
    got.sort();
    expected.sort();
    assert_eq!(got, expected);
}

#[test]
fn single_worker_runs_both_tasks_to_their_values() {
    let pool = ThreadPool::new(1);
    let slow = pool.spawn(|| {
        let mut i: u64 = 0;
        while i < 3_000_000 {
            i += 1;
        }
        if i == 3_000_000 { 1u64 } else { 0u64 }
    });
    let quick = pool.spawn(|| 2u64);
    assert_eq!(quick.join(), Ok(2u64));
    assert_eq!(slow.join(), Ok(1u64));
}

#[test]
fn panicking_task_reports_disconnection() {
    let pool = ThreadPool::new(1);
    let doomed: JoinHandle<u32> = pool.spawn(|| panic!("task failed before producing a value"));
    assert_eq!(doomed.join(), Err(DisconnectedError));
    let healthy = pool.spawn(|| 5u32);
    assert_eq!(healthy.join(), Ok(5u32));
}
