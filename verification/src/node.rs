//! The node as one state machine: the ledger, the known peers and the
//! advertisement scheduler, changed by one event at a time.
//!
//! Whoever drives the node waits for the next event, hands it to `step`, and
//! carries out the effect that comes back. A step takes the node by `&mut`, so
//! no two decisions overlap, and it never waits: running a task, sending and
//! printing are the driver's part.

use vstd::prelude::*;
use crate::codec::DecodeError;
use crate::command::CommandView;
use crate::console::{answers, operator_step, shuts_down, Step};
use crate::idset::IdSet;
use crate::ledger::ResourceLedger;
use crate::peers::{observe, order_after, peers_after, PeerEvent};
use crate::processor::{
    action_for_message, ledger_after_message, receive, task_completed, Action, ActionView,
    TaskOutcome,
};
use crate::scheduler::{offer_of, AdvertisementScheduler};

verus! {

/// The state of a node.
pub struct Node {
    pub ledger: ResourceLedger,
    pub peers: IdSet,
    pub scheduler: AdvertisementScheduler,
}

/// One unit of work for the node.
#[derive(Debug, Clone, PartialEq, Eq)]
pub enum Event {
    /// A line of operator input, or `None` where the input has ended.
    Input(Option<String>),
    /// A payload that the fabric delivered.
    Payload(Vec<u8>),
    /// A report of peer discovery.
    Peer(PeerEvent),
    /// A task that the node had admitted has run.
    TaskRan { task_id: String, cpu_cores: u8, outcome: TaskOutcome },
    /// The time, in seconds.
    Clock(u64),
}

/// What the driver is to do after a step.
#[derive(Debug, Clone, PartialEq, Eq)]
pub enum Effect {
    /// Answer the operator, or leave the loop.
    Console(Step),
    /// Carry out the action.
    Act(Action),
    /// Log the payload as dropped; nothing changed.
    Dropped(DecodeError),
    /// Nothing is to be done.
    Idle,
}

/// The text of an optional line.
pub open spec fn line_of(input: Option<String>) -> Option<Seq<char>> {
    match input {
        Some(line) => Some(line@),
        None => None,
    }
}

/// Whether `post` and `effect` are what the node `pre` makes of the event.
///
/// Operator input reads the node and changes nothing. A payload is decoded
/// and decided on by the command processor. A peer report changes the known
/// peers and the order in which they are listed, and nothing else. A task
/// that has run gives its CPU back and has its result broadcast. The clock
/// fires the scheduler where an advertisement is due, and the offer broadcast
/// is that of the ledger at this step; where none is due, nothing is to be
/// done.
pub open spec fn steps(pre: Node, event: Event, post: Node, effect: Effect) -> bool {
    match event {
        Event::Input(input) => {
            &&& post == pre
            &&& effect matches Effect::Console(step)
            &&& (step == Step::Shutdown) == shuts_down(line_of(input))
            &&& input matches Some(line) ==> answers(step, line@, pre.ledger@, &pre.peers)
        },
        Event::Payload(payload) => {
            &&& post.peers == pre.peers
            &&& post.scheduler == pre.scheduler
            &&& post.ledger@ == ledger_after_message(pre.ledger@, payload@)
            &&& match action_for_message(pre.ledger@, payload@) {
                Ok(action) => effect matches Effect::Act(a) && a@ == action,
                Err(e) => effect == Effect::Dropped(e),
            }
        },
        Event::Peer(report) => {
            &&& post.ledger == pre.ledger
            &&& post.scheduler == pre.scheduler
            &&& post.peers@ == peers_after(pre.peers@, report)
            &&& post.peers.order() == order_after(pre.peers.order(), report)
            &&& effect == Effect::Idle
        },
        Event::TaskRan { task_id, cpu_cores, outcome } => {
            &&& post.peers == pre.peers
            &&& post.scheduler == pre.scheduler
            &&& post.ledger@ == pre.ledger@.complete_task(task_id@, cpu_cores)
            &&& effect matches Effect::Act(a)
            &&& a@ == ActionView::Broadcast(
                CommandView::TaskResult {
                    task_id: task_id@,
                    success: outcome.success,
                    result_data: outcome.result_data@,
                },
            )
        },
        Event::Clock(now) => {
            &&& post.ledger == pre.ledger
            &&& post.peers == pre.peers
            &&& post.scheduler == pre.scheduler.after(now)
            &&& if pre.scheduler.due(now) {
                effect matches Effect::Act(a) && a@ == ActionView::Broadcast(offer_of(pre.ledger@))
            } else {
                effect == Effect::Idle
            }
        },
    }
}

impl Node {
    /// A node that knows no peer yet, with its scheduler started at `now`.
    pub fn new(ledger: ResourceLedger, interval_secs: u64, now: u64) -> (r: Node)
        ensures
            r.ledger == ledger,
            r.peers@ == Set::<Seq<char>>::empty(),
            r.peers.order() == Seq::<Seq<char>>::empty(),
            r.scheduler == (AdvertisementScheduler { interval_secs, last_fired: now }),
    {
        Node { ledger, peers: IdSet::new(), scheduler: AdvertisementScheduler::new(interval_secs, now) }
    }

    /// Processes one event and names the effect to carry out.
    pub fn step(&mut self, event: Event) -> (effect: Effect)
        ensures
            steps(*old(self), event, *final(self), effect),
    {
        match event {
            Event::Input(input) => {
                let step = match &input {
                    Some(line) => operator_step(Some(line.as_str()), &self.ledger, &self.peers),
                    None => operator_step(None, &self.ledger, &self.peers),
                };
                Effect::Console(step)
            },
            Event::Payload(payload) => match receive(&mut self.ledger, payload.as_slice()) {
                Ok(action) => Effect::Act(action),
                Err(e) => Effect::Dropped(e),
            },
            Event::Peer(report) => {
                observe(&mut self.peers, &report);
                Effect::Idle
            },
            Event::TaskRan { task_id, cpu_cores, outcome } => {
                let result = task_completed(&mut self.ledger, task_id, cpu_cores, outcome);
                Effect::Act(Action::Broadcast(result))
            },
            Event::Clock(now) => match self.scheduler.poll(now, &self.ledger) {
                Some(offer) => Effect::Act(Action::Broadcast(offer)),
                None => Effect::Idle,
            },
        }
    }
}

} // verus!
