//! The command processor: what the node does on each command it receives.
//!
//! The processor decides and accounts; it does not run tasks and does not
//! send. A decision changes the ledger in one step and names the action that
//! the caller is to carry out. Running a task may take long and happens
//! outside the ledger: the caller reports back with `task_completed`.

use vstd::prelude::*;
use crate::codec::{decode, decode_spec, DecodeError};
use crate::command::{Command, CommandView};
use crate::idset::texts;
use crate::ledger::{LedgerView, ResourceLedger};

verus! {

/// The seconds that the simulated run of a task takes.
pub const SIMULATED_RUN_SECS: u64 = 2;

/// What the caller is to do after a decision of the processor.
#[derive(Debug, Clone, PartialEq, Eq)]
pub enum Action {
    /// Log the command, which reports and asks for nothing.
    Observe(Command),
    /// Log the task as denied: its CPU was not free. No answer is broadcast.
    Deny { task_id: String, cpu_cores: u8 },
    /// Run the task that was admitted, then call `task_completed`.
    Execute { task_id: String, image_ref: String, cpu_cores: u8, command_args: Vec<String> },
    /// Broadcast the command.
    Broadcast(Command),
}

/// The mathematical value of an action.
pub enum ActionView {
    Observe(CommandView),
    Deny { task_id: Seq<char>, cpu_cores: u8 },
    Execute {
        task_id: Seq<char>,
        image_ref: Seq<char>,
        cpu_cores: u8,
        command_args: Seq<Seq<char>>,
    },
    Broadcast(CommandView),
}

impl View for Action {
    type V = ActionView;

    open spec fn view(&self) -> ActionView {
        match *self {
            Action::Observe(command) => ActionView::Observe(command@),
            Action::Deny { task_id, cpu_cores } => ActionView::Deny { task_id: task_id@, cpu_cores },
            Action::Execute { task_id, image_ref, cpu_cores, command_args } => ActionView::Execute {
                task_id: task_id@,
                image_ref: image_ref@,
                cpu_cores,
                command_args: texts(command_args@),
            },
            Action::Broadcast(command) => ActionView::Broadcast(command@),
        }
    }
}

/// How a task ended.
#[derive(Debug, Clone, PartialEq, Eq)]
pub struct TaskOutcome {
    pub success: bool,
    pub result_data: String,
}

impl TaskOutcome {
    /// The outcome of the simulated run: success.
    pub fn simulated() -> (r: TaskOutcome)
        ensures
            r.success,
            r.result_data@ == "Task completed successfully"@,
    {
        TaskOutcome { success: true, result_data: "Task completed successfully".to_owned() }
    }
}

/// The ledger after the processor's decision on a command.
///
/// A task request is admitted where its CPU is free; a storage request
/// reserves storage where that is free; every other command leaves the
/// ledger as it is.
pub open spec fn ledger_after(s: LedgerView, c: CommandView) -> LedgerView {
    match c {
        CommandView::TaskRequest { task_id, cpu_cores, .. } => s.admit_task(task_id, cpu_cores),
        CommandView::StorageRequest { file_id, size_bytes } => s.reserve_storage(
            size_bytes,
            file_id,
        ),
        _ => s,
    }
}

/// The action that follows the processor's decision on a command.
///
/// An admitted task is to be run; a denied one is named as denied and gets
/// no answer. A storage request is answered with an offer that says whether
/// the storage was reserved. Every other command is handed back to be
/// logged.
pub open spec fn action_for(s: LedgerView, c: CommandView) -> ActionView {
    match c {
        CommandView::TaskRequest { task_id, image_ref, cpu_cores, command_args, .. } => {
            if s.grants_cpu(cpu_cores) {
                ActionView::Execute { task_id, image_ref, cpu_cores, command_args }
            } else {
                ActionView::Deny { task_id, cpu_cores }
            }
        },
        CommandView::StorageRequest { file_id, size_bytes } => ActionView::Broadcast(
            CommandView::StorageOffer {
                file_id,
                node_id: s.node_id,
                available: s.grants_storage(size_bytes),
            },
        ),
        CommandView::ResourceOffer { .. } => ActionView::Observe(c),
        CommandView::TaskResult { .. } => ActionView::Observe(c),
        CommandView::StorageOffer { .. } => ActionView::Observe(c),
    }
}

/// Decides on a received command: changes the ledger and names the action to
/// carry out.
pub fn process(ledger: &mut ResourceLedger, command: Command) -> (action: Action)
    ensures
        final(ledger)@ == ledger_after(old(ledger)@, command@),
        action@ == action_for(old(ledger)@, command@),
{
    match command {
        Command::TaskRequest { task_id, image_ref, cpu_cores, memory_mb: _, command_args } => {
            if ledger.admit_task(task_id.as_str(), cpu_cores) {
                Action::Execute { task_id, image_ref, cpu_cores, command_args }
            } else {
                Action::Deny { task_id, cpu_cores }
            }
        },
        Command::StorageRequest { file_id, size_bytes } => {
            let node_id = ledger.node_id().to_owned();
            let available = ledger.reserve_storage(size_bytes, file_id.as_str());
            Action::Broadcast(Command::StorageOffer { file_id, node_id, available })
        },
        report @ Command::ResourceOffer { .. } => Action::Observe(report),
        report @ Command::TaskResult { .. } => Action::Observe(report),
        report @ Command::StorageOffer { .. } => Action::Observe(report),
    }
}

/// The ledger after a payload arrived from the fabric: a payload that
/// decodes to a command is decided on, any other leaves the ledger as it is.
pub open spec fn ledger_after_message(s: LedgerView, payload: Seq<u8>) -> LedgerView {
    match decode_spec(payload) {
        Ok(c) => ledger_after(s, c),
        Err(_) => s,
    }
}

/// The action that follows a payload from the fabric, or the reason why the
/// payload was dropped.
pub open spec fn action_for_message(s: LedgerView, payload: Seq<u8>) -> Result<
    ActionView,
    DecodeError,
> {
    match decode_spec(payload) {
        Ok(c) => Ok(action_for(s, c)),
        Err(e) => Err(e),
    }
}

/// The outcome of `receive`, with the action as its mathematical value.
pub open spec fn viewed_action(r: Result<Action, DecodeError>) -> Result<ActionView, DecodeError> {
    match r {
        Ok(action) => Ok(action@),
        Err(e) => Err(e),
    }
}

/// Takes a payload from the fabric: decodes it and decides on the command.
/// A payload that does not decode changes nothing and is reported as the
/// error it gave, for the caller to log.
pub fn receive(ledger: &mut ResourceLedger, payload: &[u8]) -> (r: Result<Action, DecodeError>)
    ensures
        final(ledger)@ == ledger_after_message(old(ledger)@, payload@),
        viewed_action(r) == action_for_message(old(ledger)@, payload@),
{
    match decode(payload) {
        Ok(command) => Ok(process(ledger, command)),
        Err(e) => Err(e),
    }
}

/// Settles a task that has run: gives its CPU back, takes it off the running
/// tasks, and returns the result to broadcast.
pub fn task_completed(
    ledger: &mut ResourceLedger,
    task_id: String,
    cpu_cores: u8,
    outcome: TaskOutcome,
) -> (result: Command)
    ensures
        final(ledger)@ == old(ledger)@.complete_task(task_id@, cpu_cores),
        result@ == (CommandView::TaskResult {
            task_id: task_id@,
            success: outcome.success,
            result_data: outcome.result_data@,
        }),
{
    ledger.complete_task(task_id.as_str(), cpu_cores);
    Command::TaskResult { task_id, success: outcome.success, result_data: outcome.result_data }
}

/// A task that is admitted and then completes leaves the CPU counter and the
/// other counters as they were.
pub proof fn lemma_admit_then_complete(s: LedgerView, task_id: Seq<char>, cpu_cores: u8)
    requires
        s.wf(),
        s.grants_cpu(cpu_cores),
    ensures
        s.admit_task(task_id, cpu_cores).complete_task(task_id, cpu_cores) == (LedgerView {
            active_tasks: s.active_tasks.remove(task_id),
            ..s
        }),
{
    assert(s.active_tasks.insert(task_id).remove(task_id) =~= s.active_tasks.remove(task_id));
}

/// Commands that only report (offers and results, among them the node's own
/// broadcasts coming back) change nothing, however often they arrive: each
/// is handed back to be logged.
pub proof fn lemma_observed_only(s: LedgerView, c: CommandView)
    requires
        !(c is TaskRequest),
        !(c is StorageRequest),
    ensures
        ledger_after(s, c) == s,
        action_for(s, c) == ActionView::Observe(c),
{
}

} // verus!
