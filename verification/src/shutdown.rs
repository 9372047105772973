//! Coordination of the background process shutdown.
use vstd::prelude::*;

verus! {

/// Whether the activation worker has finished.
#[derive(Debug)]
pub struct ShutdownCoordinator {
    completed: bool,
}

impl ShutdownCoordinator {
    /// The worker has reported completion.
    pub closed spec fn completed_view(&self) -> bool {
        self.completed
    }

    /// Whether the worker has reported completion.
    pub fn is_complete(&self) -> (r: bool)
        ensures
            r == self.completed_view(),
    {
        self.completed
    }
}

/// A coordinator whose worker has not finished.
pub fn init() -> (c: ShutdownCoordinator)
    ensures
        !c.completed_view(),
{
    ShutdownCoordinator { completed: false }
}

/// Records that the worker has finished; it stays finished.
pub fn signal_worker_complete(c: &mut ShutdownCoordinator)
    ensures
        final(c).completed_view(),
{
    c.completed = true;
}

/// Whether waiting is over: the worker finished, or the wait timed out.
pub fn wait_for_completion(c: &ShutdownCoordinator) -> (r: bool)
    ensures
        r == c.completed_view(),
{
    c.completed
}

/// One step of the background shutdown.
#[derive(Debug, Clone, Copy, PartialEq, Eq, Structural)]
pub enum ShutdownStep {
    /// Clear the activation queue and persist it empty.
    FlushQueue,
    /// Stop the worker thread.
    StopWorker,
    /// Revoke the COM registration.
    UnregisterCom,
}

/// The steps of a graceful shutdown, in order: the queue is flushed before
/// the worker stops, and both before the COM server goes away.
pub fn graceful_shutdown() -> (steps: Vec<ShutdownStep>)
    ensures
        steps@ == seq![ShutdownStep::FlushQueue, ShutdownStep::StopWorker, ShutdownStep::UnregisterCom],
{
    let mut v: Vec<ShutdownStep> = Vec::new();
    v.push(ShutdownStep::FlushQueue);
    v.push(ShutdownStep::StopWorker);
    v.push(ShutdownStep::UnregisterCom);
    assert(v@ =~= seq![ShutdownStep::FlushQueue, ShutdownStep::StopWorker, ShutdownStep::UnregisterCom]);
    v
}

} // verus!
