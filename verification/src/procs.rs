use vstd::prelude::*;

use std::sync::mpsc::Receiver;
use std::sync::mpsc::Sender;

verus! {

/// An opaque OS process identifier.
pub type Proc = u32;

#[verifier::external_type_specification]
#[verifier::external_body]
#[verifier::reject_recursive_types(T)]
pub struct ExReceiver<T>(Receiver<T>);

#[verifier::external_type_specification]
#[verifier::external_body]
#[verifier::reject_recursive_types(T)]
pub struct ExSender<T>(Sender<T>);

/// Relies on libproc::processes::pids_by_type: the ids of the processes
/// alive when the OS answered. On a query failure it degrades to the empty
/// list rather than an error. Nothing can be promised of the ids
/// themselves: they are whatever the OS reported.
#[verifier::external_body]
pub fn get_procs() -> (r: Vec<Proc>)
{
    match libproc::processes::pids_by_type(libproc::processes::ProcFilter::All) {
        Ok(pids) => pids,
        Err(_) => Vec::new(),
    }
}

/// Relies on std::sync::mpsc::Receiver::try_recv: a non-blocking pop that
/// yields a pending message or nothing, never blocking the caller. Which of
/// the two happens depends on the sending thread, so nothing is promised.
#[verifier::external_body]
fn try_recv_procs(rx: &Receiver<Vec<Proc>>) -> (r: Option<Vec<Proc>>) {
    rx.try_recv().ok()
}

/// Relies on std::sync::mpsc::Sender::send: queues the value unless the
/// receiving end is gone, and says which happened. Nothing is promised of
/// the outcome.
#[verifier::external_body]
fn send_pid(tx: &Sender<u32>, pid: u32) -> (r: bool) {
    tx.send(pid).is_ok()
}

/// The foreground endpoint of the process-monitor bridge: the latest known
/// process-id snapshot, the receive end of the snapshot channel, and the
/// send end of the kill-request channel. The background tasks that serve
/// the two channels live outside the library.
pub struct ProcManager {
    pub procs: Vec<Proc>,
    pub proc_rx: Receiver<Vec<Proc>>,
    pub kill_tx: Sender<u32>,
}

impl ProcManager {
    /// A manager over the two channel endpoints, its snapshot seeded with a
    /// direct OS query (so it holds whatever the OS reported).
    pub fn new(rx: Receiver<Vec<Proc>>, tx: Sender<u32>) -> (m: ProcManager)
        ensures
            m.proc_rx == rx,
            m.kill_tx == tx,
    {
        ProcManager { procs: get_procs(), proc_rx: rx, kill_tx: tx }
    }

    /// Fold one polled message into the cached snapshot: a message replaces
    /// the cache, no message leaves it untouched.
    pub fn apply_snapshot(&mut self, msg: Option<Vec<Proc>>)
        ensures
            final(self).procs@ == match msg {
                Option::Some(v) => v@,
                Option::None => old(self).procs@,
            },
            final(self).proc_rx == old(self).proc_rx,
            final(self).kill_tx == old(self).kill_tx,
    {
        match msg {
            Option::Some(v) => {
                self.procs = v;
            },
            Option::None => {},
        }
    }

    /// Non-blocking poll of the snapshot channel: whatever message was
    /// pending (if any) is folded into the cache by `apply_snapshot`. The
    /// cache afterwards is either untouched or exactly one sent snapshot;
    /// which one depends on the enumerator thread, so only the channel
    /// endpoints are promised unchanged.
    pub fn poll_pids(&mut self)
        ensures
            final(self).proc_rx == old(self).proc_rx,
            final(self).kill_tx == old(self).kill_tx,
    {
        let msg = try_recv_procs(&self.proc_rx);
        self.apply_snapshot(msg);
    }

    /// Queue a kill request for `pid`. Best effort: a push failure (the
    /// executor is gone) is absorbed, never surfaced, and the manager's
    /// own state is untouched either way.
    pub fn kill_pid(&mut self, pid: u32)
        ensures
            *final(self) == *old(self),
    {
        let _delivered = send_pid(&self.kill_tx, pid);
    }
}

} // verus!
