//! The wire encoding of commands.
//!
//! A command travels as a JSON object with a single field: the field's key is
//! the name of the variant, its value an object with the variant's fields
//! under their names. Fields that the variant does not know are ignored on
//! decoding.

use vstd::prelude::*;
use crate::command::{Command, CommandView};
use crate::idset::texts;
use crate::json::{
    array, as_boolean, as_items, as_text, as_unsigned, boolean, doc, docs, empty_object, field,
    field_count, has_field, json_parse, json_text, number, parse, print, printable, set_field,
    text, Doc,
};

verus! {

/// Why a byte string was not decoded to a command.
#[derive(Debug, Clone, Copy, PartialEq, Eq, Structural)]
pub enum DecodeError {
    /// The bytes are not a JSON document.
    Malformed,
    /// The document is not an object with exactly one field.
    NotTagged,
    /// The single field's key names no command.
    UnknownTag,
    /// The payload lacks a field of the command, or holds one of the wrong
    /// type or out of the field's range.
    BadPayload,
}

/// The failure to put a command into bytes. A caller that meets it loses the
/// one message and goes on. `encode` itself guarantees success: the JSON
/// writer refuses no document of a command.
#[derive(Debug, Clone, Copy, PartialEq, Eq, Structural)]
pub enum EncodeError {
    Unserializable,
}

/// The object with the single field `tag`, holding `payload`.
pub open spec fn tagged(tag: Seq<char>, payload: Doc) -> Doc {
    Doc::Object(Map::<Seq<char>, Doc>::empty().insert(tag, payload))
}

/// The object without fields.
pub open spec fn no_fields() -> Map<Seq<char>, Doc> {
    Map::<Seq<char>, Doc>::empty()
}

/// The document of an unsigned number.
pub open spec fn num(n: u64) -> Doc {
    Doc::Number(Some(n))
}

/// One text document for each text.
pub open spec fn text_docs(items: Seq<Seq<char>>) -> Seq<Doc> {
    Seq::new(items.len(), |i: int| Doc::Text(items[i]))
}

/// The document that stands for a command on the wire.
pub open spec fn doc_of_command(c: CommandView) -> Doc {
    match c {
        CommandView::ResourceOffer { cpu_cores, memory_mb, storage_gb, bandwidth_mbps, node_id } =>
            tagged(
                "ResourceOffer"@,
                Doc::Object(
                    no_fields().insert("cpu_cores"@, num(cpu_cores as u64)).insert(
                        "memory_mb"@,
                        num(memory_mb as u64),
                    ).insert("storage_gb"@, num(storage_gb as u64)).insert(
                        "bandwidth_mbps"@,
                        num(bandwidth_mbps as u64),
                    ).insert("node_id"@, Doc::Text(node_id)),
                ),
            ),
        CommandView::TaskRequest { task_id, image_ref, cpu_cores, memory_mb, command_args } =>
            tagged(
                "TaskRequest"@,
                Doc::Object(
                    no_fields().insert("task_id"@, Doc::Text(task_id)).insert(
                        "image_ref"@,
                        Doc::Text(image_ref),
                    ).insert("cpu_cores"@, num(cpu_cores as u64)).insert(
                        "memory_mb"@,
                        num(memory_mb as u64),
                    ).insert("command_args"@, Doc::Array(text_docs(command_args))),
                ),
            ),
        CommandView::TaskResult { task_id, success, result_data } => tagged(
            "TaskResult"@,
            Doc::Object(
                no_fields().insert("task_id"@, Doc::Text(task_id)).insert(
                    "success"@,
                    Doc::Bool(success),
                ).insert("result_data"@, Doc::Text(result_data)),
            ),
        ),
        CommandView::StorageRequest { file_id, size_bytes } => tagged(
            "StorageRequest"@,
            Doc::Object(
                no_fields().insert("file_id"@, Doc::Text(file_id)).insert(
                    "size_bytes"@,
                    num(size_bytes as u64),
                ),
            ),
        ),
        CommandView::StorageOffer { file_id, node_id, available } => tagged(
            "StorageOffer"@,
            Doc::Object(
                no_fields().insert("file_id"@, Doc::Text(file_id)).insert(
                    "node_id"@,
                    Doc::Text(node_id),
                ).insert("available"@, Doc::Bool(available)),
            ),
        ),
    }
}

/// The unsigned number under `key` in an object, where it is at most `max`.
pub open spec fn unsigned_field(payload: Doc, key: Seq<char>, max: u64) -> Option<u64> {
    if has_field(payload, key) {
        let inner = payload->Object_0[key];
        if inner is Number && inner->Number_0 is Some && inner->Number_0->Some_0 <= max {
            inner->Number_0
        } else {
            None
        }
    } else {
        None
    }
}

/// The text under `key` in an object.
pub open spec fn text_field(payload: Doc, key: Seq<char>) -> Option<Seq<char>> {
    if has_field(payload, key) && payload->Object_0[key] is Text {
        Some(payload->Object_0[key]->Text_0)
    } else {
        None
    }
}

/// The truth value under `key` in an object.
pub open spec fn bool_field(payload: Doc, key: Seq<char>) -> Option<bool> {
    if has_field(payload, key) && payload->Object_0[key] is Bool {
        Some(payload->Object_0[key]->Bool_0)
    } else {
        None
    }
}

/// Whether every item is a text.
pub open spec fn all_text(items: Seq<Doc>) -> bool {
    forall|i: int| 0 <= i < items.len() ==> #[trigger] items[i] is Text
}

/// The texts of an array of texts under `key` in an object.
pub open spec fn texts_field(payload: Doc, key: Seq<char>) -> Option<Seq<Seq<char>>> {
    if has_field(payload, key) && payload->Object_0[key] is Array && all_text(
        payload->Object_0[key]->Array_0,
    ) {
        let items = payload->Object_0[key]->Array_0;
        Some(Seq::new(items.len(), |i: int| items[i]->Text_0))
    } else {
        None
    }
}

/// The resource offer that a payload holds.
pub open spec fn resource_offer_of(payload: Doc) -> Result<CommandView, DecodeError> {
    match (
        unsigned_field(payload, "cpu_cores"@, 0xff),
        unsigned_field(payload, "memory_mb"@, 0xffff_ffff),
        unsigned_field(payload, "storage_gb"@, 0xffff_ffff),
        unsigned_field(payload, "bandwidth_mbps"@, 0xffff_ffff),
        text_field(payload, "node_id"@),
    ) {
        (Some(cpu), Some(memory), Some(storage), Some(bandwidth), Some(node_id)) => Ok(
            CommandView::ResourceOffer {
                cpu_cores: cpu as u8,
                memory_mb: memory as u32,
                storage_gb: storage as u32,
                bandwidth_mbps: bandwidth as u32,
                node_id,
            },
        ),
        _ => Err(DecodeError::BadPayload),
    }
}

/// The task request that a payload holds.
pub open spec fn task_request_of(payload: Doc) -> Result<CommandView, DecodeError> {
    match (
        text_field(payload, "task_id"@),
        text_field(payload, "image_ref"@),
        unsigned_field(payload, "cpu_cores"@, 0xff),
        unsigned_field(payload, "memory_mb"@, 0xffff_ffff),
        texts_field(payload, "command_args"@),
    ) {
        (Some(task_id), Some(image_ref), Some(cpu), Some(memory), Some(command_args)) => Ok(
            CommandView::TaskRequest {
                task_id,
                image_ref,
                cpu_cores: cpu as u8,
                memory_mb: memory as u32,
                command_args,
            },
        ),
        _ => Err(DecodeError::BadPayload),
    }
}

/// The task result that a payload holds.
pub open spec fn task_result_of(payload: Doc) -> Result<CommandView, DecodeError> {
    match (
        text_field(payload, "task_id"@),
        bool_field(payload, "success"@),
        text_field(payload, "result_data"@),
    ) {
        (Some(task_id), Some(success), Some(result_data)) => Ok(
            CommandView::TaskResult { task_id, success, result_data },
        ),
        _ => Err(DecodeError::BadPayload),
    }
}

/// The storage request that a payload holds.
pub open spec fn storage_request_of(payload: Doc) -> Result<CommandView, DecodeError> {
    match (
        text_field(payload, "file_id"@),
        unsigned_field(payload, "size_bytes"@, 0xffff_ffff_ffff_ffff),
    ) {
        (Some(file_id), Some(size_bytes)) => Ok(
            CommandView::StorageRequest { file_id, size_bytes },
        ),
        _ => Err(DecodeError::BadPayload),
    }
}

/// The storage offer that a payload holds.
pub open spec fn storage_offer_of(payload: Doc) -> Result<CommandView, DecodeError> {
    match (
        text_field(payload, "file_id"@),
        text_field(payload, "node_id"@),
        bool_field(payload, "available"@),
    ) {
        (Some(file_id), Some(node_id), Some(available)) => Ok(
            CommandView::StorageOffer { file_id, node_id, available },
        ),
        _ => Err(DecodeError::BadPayload),
    }
}

/// Whether a document is an object with exactly one field.
pub open spec fn single_field(document: Doc) -> bool {
    document is Object && document->Object_0.dom().finite() && document->Object_0.dom().len()
        == 1
}

/// The command that a document stands for, or the reason why it stands for
/// none.
pub open spec fn command_of_doc(document: Doc) -> Result<CommandView, DecodeError> {
    if !single_field(document) {
        Err(DecodeError::NotTagged)
    } else if has_field(document, "ResourceOffer"@) {
        resource_offer_of(document->Object_0["ResourceOffer"@])
    } else if has_field(document, "TaskRequest"@) {
        task_request_of(document->Object_0["TaskRequest"@])
    } else if has_field(document, "TaskResult"@) {
        task_result_of(document->Object_0["TaskResult"@])
    } else if has_field(document, "StorageRequest"@) {
        storage_request_of(document->Object_0["StorageRequest"@])
    } else if has_field(document, "StorageOffer"@) {
        storage_offer_of(document->Object_0["StorageOffer"@])
    } else {
        Err(DecodeError::UnknownTag)
    }
}

/// What decoding makes of a byte string.
pub open spec fn decode_spec(bytes: Seq<u8>) -> Result<CommandView, DecodeError> {
    match json_parse(bytes) {
        Some(document) => command_of_doc(document),
        None => Err(DecodeError::Malformed),
    }
}

/// The bytes that encoding writes for a command.
pub open spec fn encode_spec(c: CommandView) -> Seq<u8> {
    json_text(doc_of_command(c))
}

/// The names of the variants differ from each other, and so do the names of
/// the fields of one variant.
proof fn lemma_names_differ()
    ensures
        "ResourceOffer"@.len() == 13,
        "TaskRequest"@.len() == 11,
        "TaskResult"@.len() == 10,
        "StorageRequest"@.len() == 14,
        "StorageOffer"@.len() == 12,
        "cpu_cores"@.len() == 9 && "cpu_cores"@[0] == 'c',
        "memory_mb"@.len() == 9 && "memory_mb"@[0] == 'm',
        "storage_gb"@.len() == 10,
        "bandwidth_mbps"@.len() == 14,
        "node_id"@.len() == 7 && "node_id"@[0] == 'n',
        "task_id"@.len() == 7 && "task_id"@[0] == 't',
        "image_ref"@.len() == 9 && "image_ref"@[0] == 'i',
        "command_args"@.len() == 12,
        "success"@.len() == 7 && "success"@[0] == 's',
        "result_data"@.len() == 11,
        "file_id"@.len() == 7 && "file_id"@[0] == 'f',
        "size_bytes"@.len() == 10,
        "available"@.len() == 9,
{
    reveal_strlit("ResourceOffer");
    reveal_strlit("TaskRequest");
    reveal_strlit("TaskResult");
    reveal_strlit("StorageRequest");
    reveal_strlit("StorageOffer");
    reveal_strlit("cpu_cores");
    reveal_strlit("memory_mb");
    reveal_strlit("storage_gb");
    reveal_strlit("bandwidth_mbps");
    reveal_strlit("node_id");
    reveal_strlit("task_id");
    reveal_strlit("image_ref");
    reveal_strlit("command_args");
    reveal_strlit("success");
    reveal_strlit("result_data");
    reveal_strlit("file_id");
    reveal_strlit("size_bytes");
    reveal_strlit("available");
}

/// An object with one field has exactly that field.
proof fn lemma_tagged(tag: Seq<char>, payload: Doc)
    ensures
        single_field(tagged(tag, payload)),
        forall|k: Seq<char>| has_field(tagged(tag, payload), k) <==> k == tag,
        tagged(tag, payload)->Object_0[tag] == payload,
{
    let fields = Map::<Seq<char>, Doc>::empty().insert(tag, payload);
    assert(fields.dom() =~= Set::<Seq<char>>::empty().insert(tag));
}

/// Decoding the document of a command gives the command back.
pub proof fn lemma_document_round_trip(c: CommandView)
    ensures
        command_of_doc(doc_of_command(c)) == Ok::<CommandView, DecodeError>(c),
{
    lemma_names_differ();
    match c {
        CommandView::ResourceOffer { cpu_cores, memory_mb, storage_gb, bandwidth_mbps, node_id } => {
            lemma_tagged("ResourceOffer"@, doc_of_command(c)->Object_0["ResourceOffer"@]);
        },
        CommandView::TaskRequest { task_id, image_ref, cpu_cores, memory_mb, command_args } => {
            let payload = doc_of_command(c)->Object_0["TaskRequest"@];
            lemma_tagged("TaskRequest"@, payload);
            let items = text_docs(command_args);
            assert(all_text(items));
            assert(Seq::new(items.len(), |i: int| items[i]->Text_0) =~= command_args);
        },
        CommandView::TaskResult { task_id, success, result_data } => {
            lemma_tagged("TaskResult"@, doc_of_command(c)->Object_0["TaskResult"@]);
        },
        CommandView::StorageRequest { file_id, size_bytes } => {
            lemma_tagged("StorageRequest"@, doc_of_command(c)->Object_0["StorageRequest"@]);
        },
        CommandView::StorageOffer { file_id, node_id, available } => {
            lemma_tagged("StorageOffer"@, doc_of_command(c)->Object_0["StorageOffer"@]);
        },
    }
}

/// Decoding inverts encoding wherever the JSON reader gives back the document
/// that the JSON writer was handed.
pub proof fn lemma_round_trip(c: CommandView)
    ensures
        json_parse(encode_spec(c)) == Some(doc_of_command(c)) ==> decode_spec(encode_spec(c))
            == Ok::<CommandView, DecodeError>(c),
{
    lemma_document_round_trip(c);
}

/// The document of a command nests three deep and holds unsigned numbers
/// only.
proof fn lemma_document_printable(c: CommandView)
    ensures
        printable(doc_of_command(c), 8),
{
    reveal_with_fuel(printable, 4);
}

/// The outcome of decoding, with the command as its mathematical value.
pub open spec fn viewed(r: Result<Command, DecodeError>) -> Result<CommandView, DecodeError> {
    match r {
        Ok(c) => Ok(c@),
        Err(e) => Err(e),
    }
}

/// An object with the single field `tag`.
fn tag_payload(tag: &str, payload: serde_json::Value) -> (r: serde_json::Value)
    ensures
        doc(r) == tagged(tag@, doc(payload)),
{
    let mut object = empty_object();
    set_field(&mut object, tag, payload);
    object
}

/// The array of the texts.
fn text_array(items: &Vec<String>) -> (r: serde_json::Value)
    ensures
        doc(r) == Doc::Array(text_docs(texts(items@))),
{
    let mut values: Vec<serde_json::Value> = Vec::new();
    let mut i: usize = 0;
    while i < items.len()
        invariant
            i <= items.len(),
            values@.len() == i,
            forall|j: int| 0 <= j < i ==> doc(#[trigger] values@[j]) == Doc::Text(items@[j]@),
        decreases items.len() - i,
    {
        values.push(text(items[i].as_str()));
        i += 1;
    }
    assert(docs(values@) =~= text_docs(texts(items@)));
    array(values)
}

/// Builds the JSON value that stands for a command on the wire.
pub fn document_of(c: &Command) -> (r: serde_json::Value)
    ensures
        doc(r) == doc_of_command(c@),
{
    match c {
        Command::ResourceOffer { cpu_cores, memory_mb, storage_gb, bandwidth_mbps, node_id } => {
            let mut payload = empty_object();
            set_field(&mut payload, "cpu_cores", number(*cpu_cores as u64));
            set_field(&mut payload, "memory_mb", number(*memory_mb as u64));
            set_field(&mut payload, "storage_gb", number(*storage_gb as u64));
            set_field(&mut payload, "bandwidth_mbps", number(*bandwidth_mbps as u64));
            set_field(&mut payload, "node_id", text(node_id.as_str()));
            tag_payload("ResourceOffer", payload)
        },
        Command::TaskRequest { task_id, image_ref, cpu_cores, memory_mb, command_args } => {
            let mut payload = empty_object();
            set_field(&mut payload, "task_id", text(task_id.as_str()));
            set_field(&mut payload, "image_ref", text(image_ref.as_str()));
            set_field(&mut payload, "cpu_cores", number(*cpu_cores as u64));
            set_field(&mut payload, "memory_mb", number(*memory_mb as u64));
            set_field(&mut payload, "command_args", text_array(command_args));
            tag_payload("TaskRequest", payload)
        },
        Command::TaskResult { task_id, success, result_data } => {
            let mut payload = empty_object();
            set_field(&mut payload, "task_id", text(task_id.as_str()));
            set_field(&mut payload, "success", boolean(*success));
            set_field(&mut payload, "result_data", text(result_data.as_str()));
            tag_payload("TaskResult", payload)
        },
        Command::StorageRequest { file_id, size_bytes } => {
            let mut payload = empty_object();
            set_field(&mut payload, "file_id", text(file_id.as_str()));
            set_field(&mut payload, "size_bytes", number(*size_bytes));
            tag_payload("StorageRequest", payload)
        },
        Command::StorageOffer { file_id, node_id, available } => {
            let mut payload = empty_object();
            set_field(&mut payload, "file_id", text(file_id.as_str()));
            set_field(&mut payload, "node_id", text(node_id.as_str()));
            set_field(&mut payload, "available", boolean(*available));
            tag_payload("StorageOffer", payload)
        },
    }
}

/// Encodes a command for the wire.
///
/// Every command is encoded: the result is `Ok`, and the bytes are those that
/// the JSON writer gives for the command's document.
pub fn encode(c: &Command) -> (r: Result<Vec<u8>, EncodeError>)
    ensures
        r matches Ok(bytes) && bytes@ == encode_spec(c@),
{
    let document = document_of(c);
    proof {
        lemma_document_printable(c@);
    }
    match print(&document) {
        Ok(bytes) => Ok(bytes),
        Err(_) => Err(EncodeError::Unserializable),
    }
}

/// Reads the unsigned number under `key`, where it is at most `max`.
fn read_unsigned(payload: &serde_json::Value, key: &str, max: u64) -> (r: Option<u64>)
    ensures
        r == unsigned_field(doc(*payload), key@, max),
{
    match field(payload, key) {
        Some(inner) => match as_unsigned(inner) {
            Some(n) => if n <= max {
                Some(n)
            } else {
                None
            },
            None => None,
        },
        None => None,
    }
}

/// Reads the text under `key`.
fn read_text(payload: &serde_json::Value, key: &str) -> (r: Option<String>)
    ensures
        match r {
            Some(s) => text_field(doc(*payload), key@) == Some(s@),
            None => text_field(doc(*payload), key@) is None,
        },
{
    match field(payload, key) {
        Some(inner) => match as_text(inner) {
            Some(s) => Some(s.to_owned()),
            None => None,
        },
        None => None,
    }
}

/// Reads the truth value under `key`.
fn read_bool(payload: &serde_json::Value, key: &str) -> (r: Option<bool>)
    ensures
        r == bool_field(doc(*payload), key@),
{
    match field(payload, key) {
        Some(inner) => as_boolean(inner),
        None => None,
    }
}

/// Reads the array of texts under `key`.
fn read_texts(payload: &serde_json::Value, key: &str) -> (r: Option<Vec<String>>)
    ensures
        match r {
            Some(items) => texts_field(doc(*payload), key@) == Some(texts(items@)),
            None => texts_field(doc(*payload), key@) is None,
        },
{
    let inner = match field(payload, key) {
        Some(inner) => inner,
        None => {
            return None;
        },
    };
    let values = match as_items(inner) {
        Some(values) => values,
        None => {
            return None;
        },
    };
    let ghost items = docs(values@);
    let mut out: Vec<String> = Vec::new();
    let mut i: usize = 0;
    while i < values.len()
        invariant
            i <= values.len(),
            out@.len() == i,
            items == docs(values@),
            has_field(doc(*payload), key@),
            doc(*payload)->Object_0[key@] == Doc::Array(items),
            forall|j: int| 0 <= j < i ==> #[trigger] items[j] == Doc::Text(out@[j]@),
        decreases values.len() - i,
    {
        match as_text(&values[i]) {
            Some(s) => {
                out.push(s.to_owned());
            },
            None => {
                assert(!(items[i as int] is Text));
                return None;
            },
        }
        i += 1;
    }
    assert(all_text(items));
    assert(Seq::new(items.len(), |i: int| items[i]->Text_0) =~= texts(out@));
    Some(out)
}

/// Reads the fields of a resource offer.
fn read_resource_offer(payload: &serde_json::Value) -> (r: Result<Command, DecodeError>)
    ensures
        viewed(r) == resource_offer_of(doc(*payload)),
{
    let cpu = read_unsigned(payload, "cpu_cores", 0xff);
    let memory = read_unsigned(payload, "memory_mb", 0xffff_ffff);
    let storage = read_unsigned(payload, "storage_gb", 0xffff_ffff);
    let bandwidth = read_unsigned(payload, "bandwidth_mbps", 0xffff_ffff);
    let node_id = read_text(payload, "node_id");
    match (cpu, memory, storage, bandwidth, node_id) {
        (Some(cpu), Some(memory), Some(storage), Some(bandwidth), Some(node_id)) => Ok(
            Command::ResourceOffer {
                cpu_cores: cpu as u8,
                memory_mb: memory as u32,
                storage_gb: storage as u32,
                bandwidth_mbps: bandwidth as u32,
                node_id,
            },
        ),
        _ => Err(DecodeError::BadPayload),
    }
}

/// Reads the fields of a task request.
fn read_task_request(payload: &serde_json::Value) -> (r: Result<Command, DecodeError>)
    ensures
        viewed(r) == task_request_of(doc(*payload)),
{
    let task_id = read_text(payload, "task_id");
    let image_ref = read_text(payload, "image_ref");
    let cpu = read_unsigned(payload, "cpu_cores", 0xff);
    let memory = read_unsigned(payload, "memory_mb", 0xffff_ffff);
    let command_args = read_texts(payload, "command_args");
    match (task_id, image_ref, cpu, memory, command_args) {
        (Some(task_id), Some(image_ref), Some(cpu), Some(memory), Some(command_args)) => Ok(
            Command::TaskRequest {
                task_id,
                image_ref,
                cpu_cores: cpu as u8,
                memory_mb: memory as u32,
                command_args,
            },
        ),
        _ => Err(DecodeError::BadPayload),
    }
}

/// Reads the fields of a task result.
fn read_task_result(payload: &serde_json::Value) -> (r: Result<Command, DecodeError>)
    ensures
        viewed(r) == task_result_of(doc(*payload)),
{
    let task_id = read_text(payload, "task_id");
    let success = read_bool(payload, "success");
    let result_data = read_text(payload, "result_data");
    match (task_id, success, result_data) {
        (Some(task_id), Some(success), Some(result_data)) => Ok(
            Command::TaskResult { task_id, success, result_data },
        ),
        _ => Err(DecodeError::BadPayload),
    }
}

/// Reads the fields of a storage request.
fn read_storage_request(payload: &serde_json::Value) -> (r: Result<Command, DecodeError>)
    ensures
        viewed(r) == storage_request_of(doc(*payload)),
{
    let file_id = read_text(payload, "file_id");
    let size_bytes = read_unsigned(payload, "size_bytes", 0xffff_ffff_ffff_ffff);
    match (file_id, size_bytes) {
        (Some(file_id), Some(size_bytes)) => Ok(Command::StorageRequest { file_id, size_bytes }),
        _ => Err(DecodeError::BadPayload),
    }
}

/// Reads the fields of a storage offer.
fn read_storage_offer(payload: &serde_json::Value) -> (r: Result<Command, DecodeError>)
    ensures
        viewed(r) == storage_offer_of(doc(*payload)),
{
    let file_id = read_text(payload, "file_id");
    let node_id = read_text(payload, "node_id");
    let available = read_bool(payload, "available");
    match (file_id, node_id, available) {
        (Some(file_id), Some(node_id), Some(available)) => Ok(
            Command::StorageOffer { file_id, node_id, available },
        ),
        _ => Err(DecodeError::BadPayload),
    }
}

/// Reads the command that a JSON value stands for.
///
/// The value must be an object with one field, keyed by the name of a
/// variant and holding that variant's fields; fields beyond those are ignored.
pub fn command_of(value: &serde_json::Value) -> (r: Result<Command, DecodeError>)
    ensures
        viewed(r) == command_of_doc(doc(*value)),
{
    match field_count(value) {
        Some(1) => {},
        _ => {
            return Err(DecodeError::NotTagged);
        },
    }
    if let Some(payload) = field(value, "ResourceOffer") {
        read_resource_offer(payload)
    } else if let Some(payload) = field(value, "TaskRequest") {
        read_task_request(payload)
    } else if let Some(payload) = field(value, "TaskResult") {
        read_task_result(payload)
    } else if let Some(payload) = field(value, "StorageRequest") {
        read_storage_request(payload)
    } else if let Some(payload) = field(value, "StorageOffer") {
        read_storage_offer(payload)
    } else {
        Err(DecodeError::UnknownTag)
    }
}

/// Decodes a byte string from the wire.
///
/// Any byte string is accepted: one that is no JSON document, or whose
/// document stands for no command, gives the error that says so.
pub fn decode(bytes: &[u8]) -> (r: Result<Command, DecodeError>)
    ensures
        viewed(r) == decode_spec(bytes@),
{
    match parse(bytes) {
        Ok(value) => command_of(&value),
        Err(_) => Err(DecodeError::Malformed),
    }
}

} // verus!
