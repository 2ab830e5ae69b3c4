use vstd::prelude::*;

verus! {

/// The rows below `height` that worker `k` of `workers` renders under a
/// round-robin distribution, in ascending order: every row congruent to `k`
/// modulo `workers`.
pub open spec fn worker_rows(height: nat, workers: nat, k: nat) -> Seq<u64>
    decreases height,
{
    if height == 0 {
        Seq::empty()
    } else if (height - 1) as nat % workers == k {
        worker_rows((height - 1) as nat, workers, k).push((height - 1) as u64)
    } else {
        worker_rows((height - 1) as nat, workers, k)
    }
}

/// The queues of a round-robin distribution of `height` rows over `workers`
/// workers.
pub open spec fn is_round_robin(queues: Seq<Seq<u64>>, height: nat, workers: nat) -> bool {
    &&& queues.len() == workers
    &&& forall|k: int| 0 <= k < workers ==> #[trigger] queues[k] == worker_rows(height, workers, k as nat)
}

/// Every row below `height` is assigned to exactly one worker, the one whose
/// index is the row modulo the worker count, and each worker's queue is
/// strictly ascending, so no row is rendered twice.
pub proof fn lemma_rows_assigned_once(height: nat, workers: nat, k: nat)
    requires
        workers > 0,
        height <= u64::MAX,
    ensures
        forall|row: u64| #[trigger]
            worker_rows(height, workers, k).contains(row) <==> (row < height && row as nat % workers
                == k),
        forall|i: int, j: int|
            0 <= i < j < worker_rows(height, workers, k).len() ==> worker_rows(height, workers, k)[i]
                < worker_rows(height, workers, k)[j],
    decreases height,
{
    if height > 0 {
        let h1 = (height - 1) as nat;
        lemma_rows_assigned_once(h1, workers, k);
        let prev = worker_rows(h1, workers, k);
        if h1 % workers == k {
            let cur = prev.push(h1 as u64);
            assert forall|row: u64| #[trigger] cur.contains(row) <==> (row < height && row as nat
                % workers == k) by {
                if row == h1 {
                    assert(cur[prev.len() as int] == row);
                }
                if cur.contains(row) && row != h1 {
                    let idx = choose|idx: int| 0 <= idx < cur.len() && cur[idx] == row;
                    assert(prev[idx] == row);
                }
                if prev.contains(row) {
                    let idx = choose|idx: int| 0 <= idx < prev.len() && prev[idx] == row;
                    assert(cur[idx] == row);
                }
            }
            assert forall|i: int, j: int| 0 <= i < j < cur.len() implies cur[i] < cur[j] by {
                if j == prev.len() {
                    assert(prev.contains(prev[i]));
                }
            }
        }
    }
}

/// Distributes rows `0..height` round-robin over `workers` queues: row `i`
/// goes to queue `i % workers`, and each queue keeps its rows in ascending
/// order.
pub fn assign_rows(height: u64, workers: usize) -> (r: Vec<Vec<u64>>)
    requires
        workers > 0,
    ensures
        is_round_robin(r@.map_values(|q: Vec<u64>| q@), height as nat, workers as nat),
{
    let mut queues: Vec<Vec<u64>> = Vec::new();
    let mut k: usize = 0;
    while k < workers
        invariant
            k <= workers,
            queues@.len() == k,
            forall|j: int| 0 <= j < k ==> (#[trigger] queues@[j])@ == Seq::<u64>::empty(),
        decreases workers - k,
    {
        queues.push(Vec::new());
        k = k + 1;
    }
    let mut i: u64 = 0;
    while i < height
        invariant
            i <= height,
            workers > 0,
            queues@.len() == workers,
            forall|j: int|
                0 <= j < workers ==> (#[trigger] queues@[j])@ == worker_rows(
                    i as nat,
                    workers as nat,
                    j as nat,
                ),
        decreases height - i,
    {
        let target = (i % workers as u64) as usize;
        queues[target].push(i);
        i = i + 1;
    }
    proof {
        let views = queues@.map_values(|q: Vec<u64>| q@);
        assert forall|j: int| 0 <= j < workers implies #[trigger] views[j] == worker_rows(
            height as nat,
            workers as nat,
            j as nat,
        ) by {
            assert(views[j] == queues@[j]@);
        }
    }
    queues
}

/// Relies on `num_cpus::get`: the number of logical CPUs available to this
/// process, documented to be at least 1. It depends on the machine.
#[verifier::external_body]
fn available_workers() -> (r: usize)
    ensures
        r >= 1,
{
    num_cpus::get()
}

/// Distributes rows `0..height` round-robin over one queue per available
/// CPU; how many queues there are depends on the machine, the distribution
/// does not depend on anything else.
pub fn plan_rows(height: u64) -> (r: Vec<Vec<u64>>)
    ensures
        r@.len() >= 1,
        is_round_robin(r@.map_values(|q: Vec<u64>| q@), height as nat, r@.len()),
{
    let workers = available_workers();
    assign_rows(height, workers)
}

} // verus!
