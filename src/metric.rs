//! Metrics over lists of tasks.

use vstd::prelude::*;
use crate::dto::Task;

verus! {

pub struct StatusMetric;

/// How many of `tasks` have a status among `done`.
pub open spec fn done_count(tasks: Seq<Task>, done: Seq<Seq<char>>) -> nat
    decreases tasks.len(),
{
    if tasks.len() == 0 {
        0
    } else {
        done_count(tasks.drop_last(), done) + if done.contains(tasks.last().status@) {
            1nat
        } else {
            0nat
        }
    }
}

pub open spec fn status_set(done_statuses: Seq<String>) -> Seq<Seq<char>> {
    done_statuses.map_values(|s: String| s@)
}

fn is_listed(status: &String, done_statuses: &Vec<String>) -> (r: bool)
    ensures
        r == status_set(done_statuses@).contains(status@),
{
    let mut i: usize = 0;
    while i < done_statuses.len()
        invariant
            i <= done_statuses@.len(),
            forall|k: int| 0 <= k < i ==> done_statuses@[k]@ != status@,
        decreases done_statuses.len() - i,
    {
        if done_statuses[i] == *status {
            assert(status_set(done_statuses@)[i as int] == status@);
            return true;
        }
        i = i + 1;
    }
    assert(!status_set(done_statuses@).contains(status@)) by {
        if status_set(done_statuses@).contains(status@) {
            let k = choose|k: int|
                0 <= k < status_set(done_statuses@).len() && status_set(done_statuses@)[k]
                    == status@;
            assert(done_statuses@[k]@ == status@);
        }
    }
    false
}

impl StatusMetric {
    /// The number of tasks whose status is one of `done_statuses`.
    pub fn count_done_tasks(tasks: Vec<Task>, done_statuses: &Vec<String>) -> (r: usize)
        ensures
            r == done_count(tasks@, status_set(done_statuses@)),
    {
        let mut count: usize = 0;
        let mut i: usize = 0;
        while i < tasks.len()
            invariant
                i <= tasks@.len(),
                count == done_count(tasks@.subrange(0, i as int), status_set(done_statuses@)),
                count <= i,
            decreases tasks.len() - i,
        {
            assert(tasks@.subrange(0, i + 1).drop_last() =~= tasks@.subrange(0, i as int));
            if is_listed(&tasks[i].status, done_statuses) {
                count = count + 1;
            }
            i = i + 1;
        }
        assert(tasks@.subrange(0, tasks@.len() as int) =~= tasks@);
        count
    }
}

} // verus!
