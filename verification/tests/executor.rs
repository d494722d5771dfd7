//! Tests for the cooperative executor and its checkpoint task.

use ipc_runtime::executor::{Executor, Poll, Task, Yield};
use ipc_runtime::mock::{Call, MockKernel};

fn yield_count(k: &MockKernel) -> usize {
    k.calls
        .iter()
        .filter(|c| matches!(c, Call::Yield))
        .count()
}

#[test]
fn checkpoint_is_pending_once_then_ready() {
    let mut y = Yield::now();
    assert_eq!(y.poll(), Poll::Pending);
    assert_eq!(y.poll(), Poll::Ready);
}

#[test]
fn two_checkpoint_tasks_take_two_sweeps_and_two_yields() {
    let mut k = MockKernel::new();
    let mut e = Executor::new(vec![Yield::now(), Yield::now()]);
    e.run(&mut k);
    // one non-blocking yield per sweep, and nothing else crosses the boundary
    assert_eq!(k.call_count(), 2);
    assert_eq!(yield_count(&k), 2);
}

#[test]
fn single_task_still_yields_every_sweep() {
    let mut k = MockKernel::new();
    let mut e = Executor::new(vec![Yield::now()]);
    e.run(&mut k);
    assert_eq!(yield_count(&k), 2);
}

#[test]
fn no_tasks_means_no_sweeps_and_no_yields() {
    let mut k = MockKernel::new();
    let mut e = Executor::new(Vec::<Yield>::new());
    e.run(&mut k);
    assert_eq!(k.call_count(), 0);
}

#[test]
fn sweeps_scale_with_the_slowest_task_not_the_count() {
    let mut k = MockKernel::new();
    let mut e = Executor::new(vec![Yield::now(), Yield::now(), Yield::now()]);
    e.run(&mut k);
    // all three checkpoints complete on the second sweep
    assert_eq!(yield_count(&k), 2);
    assert_eq!(k.call_count(), 2);
}
