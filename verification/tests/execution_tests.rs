use blockless_rust_sdk::execution::ExecutionFlow;
use std::sync::{Arc, Mutex};

fn task(priority: u8, data: &str) -> (u8, String) {
    (priority, data.to_string())
}

fn drain(flow: &mut ExecutionFlow) -> Vec<(u8, String)> {
    let mut taken = Vec::new();
    while let Some(t) = flow.dequeue_highest() {
        taken.push(t);
    }
    taken
}

#[test]
fn lib_test_execute_task() {
    let mut execution_flow = ExecutionFlow::new(4); // Create with 4 threads
    execution_flow.add_task(1, "Low priority task".to_string());
    execution_flow.add_task(5, "High priority task".to_string());
    execution_flow.manage_flow();
    assert!(true);
}

#[test]
fn wasm_module_tests_test_execute_task() {
    let mut execution_flow = ExecutionFlow::new(4); // Create with 4 threads
    execution_flow.add_task(1, "Low priority task".to_string());
    execution_flow.add_task(5, "High priority task".to_string());
    execution_flow.manage_flow();
    assert!(true);
}

#[test]
fn four_workers_process_high_before_low() {
    let mut execution_flow = ExecutionFlow::new(4);
    execution_flow.add_task(1, "Low priority task".to_string());
    execution_flow.add_task(5, "High priority task".to_string());
    let processed = execution_flow.manage_flow();
    assert_eq!(
        processed,
        vec![task(5, "High priority task"), task(1, "Low priority task")]
    );
    assert!(execution_flow.is_empty());
}

#[test]
fn new_flow_is_empty_and_keeps_its_worker_count() {
    let flow = ExecutionFlow::new(3);
    assert_eq!(flow.len(), 0);
    assert!(flow.is_empty());
    assert_eq!(flow.num_threads(), 3);
}

#[test]
fn single_worker_processes_high_before_low() {
    let mut flow = ExecutionFlow::new(1);
    flow.add_task(1, "low".to_string());
    flow.add_task(5, "high".to_string());
    let processed = flow.manage_flow();
    assert_eq!(processed, vec![task(5, "high"), task(1, "low")]);
}

#[test]
fn round_over_empty_queue_does_no_work() {
    let mut flow = ExecutionFlow::new(4);
    assert_eq!(flow.manage_flow(), Vec::<(u8, String)>::new());
    assert!(flow.is_empty());
    assert_eq!(flow.num_threads(), 4);
}

#[test]
fn second_round_after_a_drain_does_no_work() {
    let mut flow = ExecutionFlow::new(2);
    flow.add_task(7, "only".to_string());
    assert_eq!(flow.manage_flow(), vec![task(7, "only")]);
    assert_eq!(flow.manage_flow(), Vec::<(u8, String)>::new());
}

#[test]
fn round_without_workers_leaves_the_queue() {
    let mut flow = ExecutionFlow::new(0);
    flow.add_task(2, "a".to_string());
    flow.add_task(9, "b".to_string());
    assert_eq!(flow.manage_flow(), Vec::<(u8, String)>::new());
    assert_eq!(flow.len(), 2);
    assert_eq!(flow.dequeue_highest(), Some(task(9, "b")));
}

#[test]
fn dequeue_on_empty_queue_is_none() {
    let mut flow = ExecutionFlow::new(1);
    assert_eq!(flow.dequeue_highest(), None);
    assert_eq!(flow.len(), 0);
}

#[test]
fn queue_is_sorted_after_every_insertion() {
    let priorities: [u8; 10] = [3, 0, 255, 7, 7, 1, 200, 3, 0, 128];
    for n in 1..=priorities.len() {
        let mut flow = ExecutionFlow::new(1);
        for (i, p) in priorities[..n].iter().enumerate() {
            flow.add_task(*p, format!("t{}", i));
        }
        assert_eq!(flow.len(), n);
        let taken = drain(&mut flow);
        assert_eq!(taken.len(), n);
        for pair in taken.windows(2) {
            assert!(pair[0].0 >= pair[1].0);
        }
    }
}

#[test]
fn full_drain_has_non_increasing_priorities() {
    let mut flow = ExecutionFlow::new(1);
    for (i, p) in [4u8, 9, 1, 9, 0, 4].iter().enumerate() {
        flow.add_task(*p, format!("t{}", i));
    }
    let priorities: Vec<u8> = flow.manage_flow().iter().map(|t| t.0).collect();
    assert_eq!(priorities, vec![9, 9, 4, 4, 1, 0]);
}

#[test]
fn equal_priorities_leave_in_order_of_arrival() {
    let mut flow = ExecutionFlow::new(1);
    flow.add_task(5, "first".to_string());
    flow.add_task(9, "urgent".to_string());
    flow.add_task(5, "second".to_string());
    flow.add_task(5, "third".to_string());
    assert_eq!(
        flow.manage_flow(),
        vec![
            task(9, "urgent"),
            task(5, "first"),
            task(5, "second"),
            task(5, "third")
        ]
    );
}

#[test]
fn drain_neither_loses_nor_duplicates_tasks() {
    let mut flow = ExecutionFlow::new(4);
    let mut expected: Vec<(u8, String)> = Vec::new();
    // Two producers whose insertions arrive interleaved.
    for i in 0..50u32 {
        let a = task((i * 37 % 256) as u8, &format!("a{}", i));
        let b = task((i * 91 % 256) as u8, &format!("b{}", i));
        expected.push(a.clone());
        expected.push(b.clone());
        flow.add_task(a.0, a.1);
        flow.add_task(b.0, b.1);
    }
    assert_eq!(flow.len(), 100);
    let mut processed = flow.manage_flow();
    assert_eq!(processed.len(), 100);
    processed.sort();
    expected.sort();
    assert_eq!(processed, expected);
    assert!(flow.is_empty());
}

#[test]
fn dequeue_takes_the_front_and_keeps_the_rest() {
    let mut flow = ExecutionFlow::new(1);
    flow.add_task(1, "low".to_string());
    flow.add_task(3, "mid".to_string());
    flow.add_task(2, "between".to_string());
    assert_eq!(flow.dequeue_highest(), Some(task(3, "mid")));
    assert_eq!(flow.len(), 2);
    flow.add_task(0, "last".to_string());
    assert_eq!(flow.dequeue_highest(), Some(task(2, "between")));
    assert_eq!(flow.dequeue_highest(), Some(task(1, "low")));
    assert_eq!(flow.dequeue_highest(), Some(task(0, "last")));
    assert_eq!(flow.dequeue_highest(), None);
}

#[test]
fn concurrent_producers_and_workers_conserve_tasks() {
    let runtime = tokio::runtime::Builder::new_multi_thread()
        .worker_threads(4)
        .build()
        .expect("the runtime starts");
    let (mut processed, left) = runtime.block_on(async {
        let flow = Arc::new(Mutex::new(ExecutionFlow::new(4)));

        let mut producers = Vec::new();
        for p in 0..4u32 {
            let flow = Arc::clone(&flow);
            producers.push(tokio::spawn(async move {
                for i in 0..25u32 {
                    let priority = ((p * 25 + i) * 53 % 256) as u8;
                    flow.lock().unwrap().add_task(priority, format!("p{}-{}", p, i));
                    tokio::task::yield_now().await;
                }
            }));
        }
        for producer in producers {
            producer.await.unwrap();
        }

        let mut workers = Vec::new();
        for _ in 0..4 {
            let flow = Arc::clone(&flow);
            workers.push(tokio::spawn(async move {
                let mut taken = Vec::new();
                loop {
                    let task = flow.lock().unwrap().dequeue_highest();
                    match task {
                        Some(t) => taken.push(t),
                        None => break,
                    }
                    tokio::task::yield_now().await;
                }
                taken
            }));
        }
        let mut processed = Vec::new();
        for worker in workers {
            let taken = worker.await.unwrap();
            // Each worker sees priorities that never increase.
            for pair in taken.windows(2) {
                assert!(pair[0].0 >= pair[1].0);
            }
            processed.extend(taken);
        }
        let left = flow.lock().unwrap().len();
        (processed, left)
    });

    assert_eq!(left, 0);
    assert_eq!(processed.len(), 100);
    let mut expected: Vec<(u8, String)> = Vec::new();
    for p in 0..4u32 {
        for i in 0..25u32 {
            expected.push((((p * 25 + i) * 53 % 256) as u8, format!("p{}-{}", p, i)));
        }
    }
    processed.sort();
    expected.sort();
    assert_eq!(processed, expected);
}
