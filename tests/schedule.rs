use raytracer::schedule::{assign_rows, plan_rows};

#[test]
fn rows_go_round_robin() {
    assert_eq!(assign_rows(5, 2), vec![vec![0, 2, 4], vec![1, 3]]);
    assert_eq!(assign_rows(7, 3), vec![vec![0, 3, 6], vec![1, 4], vec![2, 5]]);
}

#[test]
fn more_workers_than_rows_leaves_some_idle() {
    assert_eq!(assign_rows(3, 5), vec![vec![0], vec![1], vec![2], vec![], vec![]]);
}

#[test]
fn no_rows_gives_empty_queues() {
    assert_eq!(assign_rows(0, 3), vec![Vec::<u64>::new(), vec![], vec![]]);
}

#[test]
fn single_worker_gets_every_row_in_order() {
    assert_eq!(assign_rows(4, 1), vec![vec![0, 1, 2, 3]]);
}

#[test]
fn every_row_is_assigned_exactly_once() {
    let height: u64 = 37;
    let queues = assign_rows(height, 4);
    let mut seen = vec![0u32; height as usize];
    for (k, queue) in queues.iter().enumerate() {
        for &row in queue {
            assert_eq!(row as usize % 4, k);
            seen[row as usize] += 1;
        }
    }
    assert!(seen.iter().all(|&n| n == 1));
}

#[test]
fn plan_uses_at_least_one_worker_and_covers_all_rows() {
    let queues = plan_rows(25);
    assert!(!queues.is_empty());
    let workers = queues.len() as u64;
    let mut all: Vec<u64> = queues.concat();
    all.sort();
    assert_eq!(all, (0..25).collect::<Vec<u64>>());
    for (k, queue) in queues.iter().enumerate() {
        assert!(queue.iter().all(|&row| row % workers == k as u64));
    }
}
