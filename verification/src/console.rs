//! The operator console and the node's status view.

use vstd::prelude::*;
use crate::idset::{texts, IdSet};
use crate::json::{doc, empty_object, number, set_field, text, Doc};
use crate::ledger::{LedgerView, ResourceLedger, ResourceOfferFields};

verus! {

/// What the operator asked for.
#[derive(Debug, Clone, Copy, PartialEq, Eq, Structural)]
pub enum OperatorCommand {
    Help,
    Peers,
    Resources,
    Status,
    Quit,
    /// A line that is none of the commands.
    Unknown,
}

/// The command that a line of operator input stands for. A line is a command
/// only where it is the command's word and nothing else.
pub open spec fn operator_command_of(line: Seq<char>) -> OperatorCommand {
    if line == "help"@ {
        OperatorCommand::Help
    } else if line == "peers"@ {
        OperatorCommand::Peers
    } else if line == "resources"@ {
        OperatorCommand::Resources
    } else if line == "status"@ {
        OperatorCommand::Status
    } else if line == "quit"@ {
        OperatorCommand::Quit
    } else {
        OperatorCommand::Unknown
    }
}

/// Whether a line is the given word.
fn is_word(line: &String, word: &str) -> (r: bool)
    ensures
        r == (line@ == word@),
{
    let wanted = word.to_owned();
    *line == wanted
}

/// Reads a line of operator input.
pub fn parse_operator_command(line: &str) -> (r: OperatorCommand)
    ensures
        r == operator_command_of(line@),
{
    let line = line.to_owned();
    if is_word(&line, "help") {
        OperatorCommand::Help
    } else if is_word(&line, "peers") {
        OperatorCommand::Peers
    } else if is_word(&line, "resources") {
        OperatorCommand::Resources
    } else if is_word(&line, "status") {
        OperatorCommand::Status
    } else if is_word(&line, "quit") {
        OperatorCommand::Quit
    } else {
        OperatorCommand::Unknown
    }
}

/// The node's status at one point in time.
#[derive(Debug, Clone, PartialEq, Eq)]
pub struct NodeStatus {
    pub node_id: String,
    pub resources: ResourceOfferFields,
    pub peers: usize,
    pub tasks: usize,
    pub files: usize,
}

/// Takes the node's status: its identity and free capacity, and how many
/// peers it knows, tasks it runs and files it stores.
pub fn status(ledger: &ResourceLedger, peers: &IdSet) -> (r: NodeStatus)
    ensures
        r.node_id@ == ledger@.node_id,
        r.resources.node_id@ == ledger@.node_id,
        r.resources.cpu_cores == ledger@.available_cpu,
        r.resources.memory_mb == ledger@.available_memory_mb,
        r.resources.storage_gb == ledger@.available_storage_gb,
        r.resources.bandwidth_mbps == ledger@.available_bandwidth_mbps,
        r.peers == peers@.len(),
        r.tasks == ledger@.active_tasks.len(),
        r.files == ledger@.stored_files.len(),
{
    let resources = ledger.snapshot();
    NodeStatus {
        node_id: resources.node_id.clone(),
        resources,
        peers: peers.len(),
        tasks: ledger.active_task_count(),
        files: ledger.stored_file_count(),
    }
}

/// The answer to a line of operator input.
#[derive(Debug, Clone, PartialEq, Eq)]
pub enum Reply {
    /// Show the list of commands.
    Usage,
    /// Show the known peers.
    Peers(Vec<String>),
    /// Show the free capacity.
    Resources(ResourceOfferFields),
    /// Show the node's status.
    Status(NodeStatus),
    /// Report the line as an unknown command.
    UnknownCommand(String),
}

/// What the control loop does after one unit of operator input.
#[derive(Debug, Clone, PartialEq, Eq)]
pub enum Step {
    /// Show the reply and go on.
    Continue(Reply),
    /// Leave the loop.
    Shutdown,
}

/// Whether the control loop leaves on this input: the operator typed `quit`,
/// or the input has ended.
pub open spec fn shuts_down(input: Option<Seq<char>>) -> bool {
    match input {
        Some(line) => operator_command_of(line) == OperatorCommand::Quit,
        None => true,
    }
}

/// Whether a step answers the given line for the given state of the node.
pub open spec fn answers(step: Step, line: Seq<char>, s: LedgerView, peers: &IdSet) -> bool {
    match operator_command_of(line) {
        OperatorCommand::Help => step == Step::Continue(Reply::Usage),
        OperatorCommand::Peers => step matches Step::Continue(Reply::Peers(ids)) && texts(ids@)
            == peers.order(),
        OperatorCommand::Resources => step matches Step::Continue(Reply::Resources(r))
            && shows(r, s),
        OperatorCommand::Status => step matches Step::Continue(Reply::Status(st))
            && st.node_id@ == s.node_id && shows(st.resources, s) && st.peers == peers@.len()
            && st.tasks == s.active_tasks.len() && st.files == s.stored_files.len(),
        OperatorCommand::Quit => step == Step::Shutdown,
        OperatorCommand::Unknown => step matches Step::Continue(Reply::UnknownCommand(l)) && l@
            == line,
    }
}

/// Whether the fields are a snapshot of the state.
pub open spec fn shows(r: ResourceOfferFields, s: LedgerView) -> bool {
    &&& r.cpu_cores == s.available_cpu
    &&& r.memory_mb == s.available_memory_mb
    &&& r.storage_gb == s.available_storage_gb
    &&& r.bandwidth_mbps == s.available_bandwidth_mbps
    &&& r.node_id@ == s.node_id
}

/// Handles one unit of operator input: a line, or `None` where the input has
/// ended. The node's state is read, never changed.
pub fn operator_step(input: Option<&str>, ledger: &ResourceLedger, peers: &IdSet) -> (step: Step)
    ensures
        (step == Step::Shutdown) == shuts_down(
            match input {
                Some(line) => Some(line@),
                None => None,
            },
        ),
        input matches Some(line) ==> answers(step, line@, ledger@, peers),
{
    let line = match input {
        Some(line) => line,
        None => {
            return Step::Shutdown;
        },
    };
    match parse_operator_command(line) {
        OperatorCommand::Help => Step::Continue(Reply::Usage),
        OperatorCommand::Peers => Step::Continue(Reply::Peers(peers.to_vec())),
        OperatorCommand::Resources => Step::Continue(Reply::Resources(ledger.snapshot())),
        OperatorCommand::Status => Step::Continue(Reply::Status(status(ledger, peers))),
        OperatorCommand::Quit => Step::Shutdown,
        OperatorCommand::Unknown => Step::Continue(Reply::UnknownCommand(line.to_owned())),
    }
}

/// The JSON object of a status: the node's identity, its free capacity under
/// `resources`, and the three counts.
pub open spec fn status_doc(st: NodeStatus) -> Doc {
    Doc::Object(
        Map::<Seq<char>, Doc>::empty().insert("node_id"@, Doc::Text(st.node_id@)).insert(
            "resources"@,
            Doc::Object(
                Map::<Seq<char>, Doc>::empty().insert(
                    "cpu"@,
                    Doc::Number(Some(st.resources.cpu_cores as u64)),
                ).insert("memory_mb"@, Doc::Number(Some(st.resources.memory_mb as u64))).insert(
                    "storage_gb"@,
                    Doc::Number(Some(st.resources.storage_gb as u64)),
                ).insert("bandwidth_mbps"@, Doc::Number(Some(st.resources.bandwidth_mbps as u64))),
            ),
        ).insert("peers"@, Doc::Number(Some(st.peers as u64))).insert(
            "tasks"@,
            Doc::Number(Some(st.tasks as u64)),
        ).insert("files"@, Doc::Number(Some(st.files as u64))),
    )
}

/// Builds the JSON value that the status endpoint answers with.
pub fn status_document(st: &NodeStatus) -> (r: serde_json::Value)
    ensures
        doc(r) == status_doc(*st),
{
    let mut resources = empty_object();
    set_field(&mut resources, "cpu", number(st.resources.cpu_cores as u64));
    set_field(&mut resources, "memory_mb", number(st.resources.memory_mb as u64));
    set_field(&mut resources, "storage_gb", number(st.resources.storage_gb as u64));
    set_field(&mut resources, "bandwidth_mbps", number(st.resources.bandwidth_mbps as u64));
    let mut object = empty_object();
    set_field(&mut object, "node_id", text(st.node_id.as_str()));
    set_field(&mut object, "resources", resources);
    set_field(&mut object, "peers", number(st.peers as u64));
    set_field(&mut object, "tasks", number(st.tasks as u64));
    set_field(&mut object, "files", number(st.files as u64));
    object
}

} // verus!
