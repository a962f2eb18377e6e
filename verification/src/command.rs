//! The commands that peers exchange.

use vstd::prelude::*;
use crate::idset::texts;

verus! {

/// A message of the resource-coordination protocol.
#[derive(Debug, Clone, PartialEq, Eq)]
pub enum Command {
    /// Advertisement of a node's spare capacity.
    ResourceOffer {
        cpu_cores: u8,
        memory_mb: u32,
        storage_gb: u32,
        bandwidth_mbps: u32,
        node_id: String,
    },
    /// A request that the receiving node run a task.
    TaskRequest {
        task_id: String,
        image_ref: String,
        cpu_cores: u8,
        memory_mb: u32,
        command_args: Vec<String>,
    },
    /// The outcome of a task, broadcast after it ran.
    TaskResult { task_id: String, success: bool, result_data: String },
    /// A request that the receiving node hold a file.
    StorageRequest { file_id: String, size_bytes: u64 },
    /// The answer to a storage request.
    StorageOffer { file_id: String, node_id: String, available: bool },
}

/// The mathematical value of a command: its variant and fields, with texts as
/// sequences of characters.
pub enum CommandView {
    ResourceOffer {
        cpu_cores: u8,
        memory_mb: u32,
        storage_gb: u32,
        bandwidth_mbps: u32,
        node_id: Seq<char>,
    },
    TaskRequest {
        task_id: Seq<char>,
        image_ref: Seq<char>,
        cpu_cores: u8,
        memory_mb: u32,
        command_args: Seq<Seq<char>>,
    },
    TaskResult { task_id: Seq<char>, success: bool, result_data: Seq<char> },
    StorageRequest { file_id: Seq<char>, size_bytes: u64 },
    StorageOffer { file_id: Seq<char>, node_id: Seq<char>, available: bool },
}

impl View for Command {
    type V = CommandView;

    open spec fn view(&self) -> CommandView {
        match *self {
            Command::ResourceOffer { cpu_cores, memory_mb, storage_gb, bandwidth_mbps, node_id } =>
                CommandView::ResourceOffer {
                    cpu_cores,
                    memory_mb,
                    storage_gb,
                    bandwidth_mbps,
                    node_id: node_id@,
                },
            Command::TaskRequest { task_id, image_ref, cpu_cores, memory_mb, command_args } =>
                CommandView::TaskRequest {
                    task_id: task_id@,
                    image_ref: image_ref@,
                    cpu_cores,
                    memory_mb,
                    command_args: texts(command_args@),
                },
            Command::TaskResult { task_id, success, result_data } => CommandView::TaskResult {
                task_id: task_id@,
                success,
                result_data: result_data@,
            },
            Command::StorageRequest { file_id, size_bytes } => CommandView::StorageRequest {
                file_id: file_id@,
                size_bytes,
            },
            Command::StorageOffer { file_id, node_id, available } => CommandView::StorageOffer {
                file_id: file_id@,
                node_id: node_id@,
                available,
            },
        }
    }
}

} // verus!
