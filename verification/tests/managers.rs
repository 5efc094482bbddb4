use pleiades_worker::helper::executor_manager::ExecutorManager;
use pleiades_worker::helper::local_sched_manager::LocalSchedManager;
use pleiades_worker::helper::worker_id_manager::WorkerIdManager;
use pleiades_worker::helper::BuildError;
use pleiades_worker::time::Span;

fn ms(n: u64) -> Span {
    Span::from_millis(n)
}

#[test]
fn empty_builder_is_refused() {
    let b = LocalSchedManager::<&str>::builder();
    assert_eq!(b.build().err(), Some(BuildError::NoController));
    let b = ExecutorManager::<&str>::builder();
    assert!(matches!(b.build(), Err(BuildError::NoController)));
}

#[test]
fn built_manager_sums_the_budgets() {
    let mut b = LocalSchedManager::builder();
    b.insert("a", ms(300));
    b.insert("b", ms(200));
    b.insert("c", ms(100));
    let m = b.build().ok().unwrap();
    assert_eq!(m.num_items(), 3);
    assert_eq!(m.deadline_sum.as_millis(), 600);
}

#[test]
fn shortest_picks_the_first_least_used() {
    let mut b = LocalSchedManager::builder();
    b.insert("a", ms(300));
    b.insert("b", ms(300));
    b.insert("c", ms(300));
    let mut m = b.build().ok().unwrap();
    assert_eq!(*m.shortest(&vec![ms(5), ms(2), ms(2)]), "b");
    assert_eq!(*m.shortest_pending(&vec![ms(1), ms(2), ms(0)]), "c");
    assert_eq!(*m.shortest_queuing(&vec![ms(4), ms(4), ms(4)]), "a");
}

#[test]
fn shortest_hands_out_the_controller_to_change() {
    let mut b = LocalSchedManager::builder();
    b.insert(10u32, ms(300));
    b.insert(20u32, ms(300));
    let mut m = b.build().ok().unwrap();
    *m.shortest(&vec![ms(9), ms(1)]) += 1;
    assert_eq!(*m.shortest(&vec![ms(9), ms(1)]), 21);
}

#[test]
fn capacity_is_budget_less_use() {
    let mut b = LocalSchedManager::builder();
    b.insert("a", ms(300));
    b.insert("b", ms(300));
    let m = b.build().ok().unwrap();
    let used = vec![ms(100), ms(150)];
    assert_eq!(m.used_sum(&used).as_millis(), 250);
    assert_eq!(m.capacity_sum(&used).as_millis(), 350);
    assert_eq!(m.capacity_sum(&used).as_millis() + m.used_sum(&used).as_millis(), 600);
    let over = vec![ms(500), ms(400)];
    assert_eq!(m.capacity_sum(&over), Span::zero());
}

#[test]
fn executor_manager_picks_the_shortest_queue() {
    let mut b = ExecutorManager::builder();
    b.insert(0usize, ms(300));
    b.insert(1usize, ms(300));
    b.insert(2usize, ms(300));
    let m = b.build().ok().unwrap();
    assert_eq!(m.num_executors(), 3);
    assert_eq!(*m.shortest(&vec![ms(30), ms(10), ms(20)]), 1);
    assert_eq!(*m.shortest(&vec![ms(0), ms(0), ms(0)]), 0);
}

#[test]
fn worker_ids_are_found_by_name() {
    let mut m = WorkerIdManager::new("w-default".to_string(), ms(100));
    assert_eq!(m.get_default(), ("w-default".to_string(), ms(100)));
    assert_eq!(m.get("cpu"), None);
    m.insert("cpu".to_string(), "w-cpu".to_string(), ms(250));
    assert_eq!(m.get("cpu"), Some(("w-cpu".to_string(), ms(250))));
    m.insert("cpu".to_string(), "w-cpu2".to_string(), ms(50));
    assert_eq!(m.get("cpu"), Some(("w-cpu2".to_string(), ms(50))));
    assert_eq!(m.get_default(), ("w-default".to_string(), ms(100)));
}

#[test]
fn default_managers_are_empty() {
    let m: LocalSchedManager<u8> = LocalSchedManager::default();
    assert_eq!(m.num_items(), 0);
    assert_eq!(m.deadline_sum, Span::zero());
    let e: ExecutorManager<u8> = ExecutorManager::default();
    assert_eq!(e.num_executors(), 0);
}

#[test]
fn build_error_message() {
    let b = LocalSchedManager::<u8>::builder();
    let e = b.build().err().unwrap();
    assert_eq!(e.to_string(), "ExecutorManagerBuilder: no executor controller is provided");
    let b = ExecutorManager::<u8>::builder();
    let e = b.build().err().unwrap();
    assert_eq!(e.to_string(), "ExecutorManagerBuilder: no executor controller is provided");
}

#[test]
fn budget_total_is_readable() {
    let mut b = LocalSchedManager::builder();
    b.insert('a', ms(120));
    b.insert('b', ms(80));
    let m = b.build().ok().unwrap();
    assert_eq!(m.deadline_sum().as_millis(), 200);
    assert_eq!(m.deadline_sum(), m.deadline_sum);
}

#[test]
fn managers_hold_one_item_per_insert() {
    for n in 1..5usize {
        let mut b = LocalSchedManager::builder();
        let mut e = ExecutorManager::builder();
        for i in 0..n {
            b.insert(i, ms(10));
            e.insert(i, ms(10));
        }
        let mut m = b.build().ok().unwrap();
        let em = e.build().ok().unwrap();
        assert_eq!(m.num_items(), n);
        assert_eq!(em.num_executors(), n);
        assert_eq!(m.deadline_sum().as_millis(), 10 * n as u128);
        let used = vec![ms(1); n];
        let _ = m.shortest(&used);
        let _ = m.shortest_pending(&used);
        let _ = m.shortest_queuing(&used);
        assert_eq!(m.num_items(), n);
    }
}
