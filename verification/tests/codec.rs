use opensky_node::codec::{command_of, decode, document_of, encode, DecodeError};
use opensky_node::command::Command;

fn offer() -> Command {
    Command::ResourceOffer {
        cpu_cores: 50,
        memory_mb: 8192,
        storage_gb: 10,
        bandwidth_mbps: 100,
        node_id: "node-a".to_string(),
    }
}

fn request() -> Command {
    Command::TaskRequest {
        task_id: "t1".to_string(),
        image_ref: "registry/image:1".to_string(),
        cpu_cores: 20,
        memory_mb: 512,
        command_args: vec!["run".to_string(), "--fast".to_string(), "".to_string()],
    }
}

fn round_trip(c: &Command) -> Command {
    let bytes = encode(c).expect("a command encodes");
    decode(&bytes).expect("its bytes decode")
}

#[test]
fn resource_offer_round_trips() {
    assert_eq!(round_trip(&offer()), offer());
}

#[test]
fn task_request_round_trips() {
    assert_eq!(round_trip(&request()), request());
}

#[test]
fn task_request_without_arguments_round_trips() {
    let c = Command::TaskRequest {
        task_id: "".to_string(),
        image_ref: "img".to_string(),
        cpu_cores: 0,
        memory_mb: 0,
        command_args: vec![],
    };
    assert_eq!(round_trip(&c), c);
}

#[test]
fn task_result_round_trips() {
    let c = Command::TaskResult {
        task_id: "t1".to_string(),
        success: false,
        result_data: "line one\nline \"two\" \\ \u{1F600} \u{7}".to_string(),
    };
    assert_eq!(round_trip(&c), c);
}

#[test]
fn storage_request_round_trips() {
    let c = Command::StorageRequest { file_id: "f1".to_string(), size_bytes: u64::MAX };
    assert_eq!(round_trip(&c), c);
}

#[test]
fn storage_offer_round_trips() {
    let c = Command::StorageOffer {
        file_id: "f1".to_string(),
        node_id: "node-a".to_string(),
        available: true,
    };
    assert_eq!(round_trip(&c), c);
}

#[test]
fn extreme_field_values_round_trip() {
    let c = Command::ResourceOffer {
        cpu_cores: u8::MAX,
        memory_mb: u32::MAX,
        storage_gb: 0,
        bandwidth_mbps: u32::MAX,
        node_id: "".to_string(),
    };
    assert_eq!(round_trip(&c), c);
}

#[test]
fn encoding_is_a_tagged_object() {
    let c = Command::StorageRequest { file_id: "f1".to_string(), size_bytes: 8589934592 };
    let bytes = encode(&c).unwrap();
    assert_eq!(
        String::from_utf8(bytes).unwrap(),
        "{\"StorageRequest\":{\"file_id\":\"f1\",\"size_bytes\":8589934592}}"
    );
}

#[test]
fn encoding_of_a_task_result() {
    let c = Command::TaskResult {
        task_id: "t1".to_string(),
        success: true,
        result_data: "ok".to_string(),
    };
    let bytes = encode(&c).unwrap();
    assert_eq!(
        String::from_utf8(bytes).unwrap(),
        "{\"TaskResult\":{\"result_data\":\"ok\",\"success\":true,\"task_id\":\"t1\"}}"
    );
}

#[test]
fn document_holds_every_field() {
    let value = document_of(&request());
    let payload = value.get("TaskRequest").expect("tagged with the variant");
    assert_eq!(value.as_object().unwrap().len(), 1);
    assert_eq!(payload.as_object().unwrap().len(), 5);
    assert_eq!(payload.get("task_id").unwrap().as_str(), Some("t1"));
    assert_eq!(payload.get("image_ref").unwrap().as_str(), Some("registry/image:1"));
    assert_eq!(payload.get("cpu_cores").unwrap().as_u64(), Some(20));
    assert_eq!(payload.get("memory_mb").unwrap().as_u64(), Some(512));
    let args = payload.get("command_args").unwrap().as_array().unwrap();
    assert_eq!(args.len(), 3);
    assert_eq!(args[0].as_str(), Some("run"));
    assert_eq!(args[1].as_str(), Some("--fast"));
    assert_eq!(args[2].as_str(), Some(""));
}

#[test]
fn document_of_an_offer_holds_booleans() {
    let c = Command::StorageOffer {
        file_id: "f1".to_string(),
        node_id: "n".to_string(),
        available: false,
    };
    let value = document_of(&c);
    let payload = value.get("StorageOffer").unwrap();
    assert_eq!(payload.get("available").unwrap().as_bool(), Some(false));
    assert_eq!(payload.get("file_id").unwrap().as_str(), Some("f1"));
    assert_eq!(payload.get("node_id").unwrap().as_str(), Some("n"));
}

#[test]
fn command_of_reads_a_built_value() {
    let mut payload = serde_json::Map::new();
    payload.insert("file_id".to_string(), serde_json::Value::from("f9"));
    payload.insert("size_bytes".to_string(), serde_json::Value::from(7u64));
    let mut outer = serde_json::Map::new();
    outer.insert("StorageRequest".to_string(), serde_json::Value::Object(payload));
    let value = serde_json::Value::Object(outer);
    assert_eq!(
        command_of(&value),
        Ok(Command::StorageRequest { file_id: "f9".to_string(), size_bytes: 7 })
    );
}

#[test]
fn command_of_inverts_document_of() {
    assert_eq!(command_of(&document_of(&request())), Ok(request()));
    assert_eq!(command_of(&document_of(&offer())), Ok(offer()));
}

#[test]
fn decode_reads_fields_in_any_order_and_ignores_others() {
    let text = "{\"TaskResult\": {\"note\": [1, 2.5, null], \"task_id\": \"t7\", \
                \"result_data\": \"done\", \"success\": true}}";
    assert_eq!(
        decode(text.as_bytes()),
        Ok(Command::TaskResult {
            task_id: "t7".to_string(),
            success: true,
            result_data: "done".to_string(),
        })
    );
}

#[test]
fn malformed_bytes_are_rejected() {
    assert_eq!(decode(b""), Err(DecodeError::Malformed));
    assert_eq!(decode(b"not json"), Err(DecodeError::Malformed));
    assert_eq!(decode(b"{\"TaskResult\":"), Err(DecodeError::Malformed));
    assert_eq!(decode(&[0xff, 0xfe, 0x00]), Err(DecodeError::Malformed));
    assert_eq!(decode(b"{} trailing"), Err(DecodeError::Malformed));
}

#[test]
fn documents_without_a_single_tag_are_rejected() {
    assert_eq!(decode(b"{}"), Err(DecodeError::NotTagged));
    assert_eq!(decode(b"[]"), Err(DecodeError::NotTagged));
    assert_eq!(decode(b"42"), Err(DecodeError::NotTagged));
    assert_eq!(decode(b"\"TaskResult\""), Err(DecodeError::NotTagged));
    assert_eq!(decode(b"null"), Err(DecodeError::NotTagged));
    let two = "{\"StorageRequest\":{\"file_id\":\"f\",\"size_bytes\":1},\"Other\":{}}";
    assert_eq!(decode(two.as_bytes()), Err(DecodeError::NotTagged));
}

#[test]
fn unknown_variants_are_rejected() {
    assert_eq!(decode(b"{\"Shutdown\":{}}"), Err(DecodeError::UnknownTag));
    assert_eq!(decode(b"{\"taskresult\":{}}"), Err(DecodeError::UnknownTag));
}

#[test]
fn missing_fields_are_rejected() {
    let text = "{\"StorageRequest\":{\"file_id\":\"f1\"}}";
    assert_eq!(decode(text.as_bytes()), Err(DecodeError::BadPayload));
    assert_eq!(decode(b"{\"ResourceOffer\":{}}"), Err(DecodeError::BadPayload));
    assert_eq!(decode(b"{\"TaskRequest\":null}"), Err(DecodeError::BadPayload));
    assert_eq!(decode(b"{\"TaskResult\":[\"t1\",true,\"ok\"]}"), Err(DecodeError::BadPayload));
}

#[test]
fn fields_of_the_wrong_type_are_rejected() {
    let text = "{\"StorageRequest\":{\"file_id\":5,\"size_bytes\":1}}";
    assert_eq!(decode(text.as_bytes()), Err(DecodeError::BadPayload));
    let text = "{\"StorageRequest\":{\"file_id\":\"f\",\"size_bytes\":\"1\"}}";
    assert_eq!(decode(text.as_bytes()), Err(DecodeError::BadPayload));
    let text = "{\"StorageOffer\":{\"file_id\":\"f\",\"node_id\":\"n\",\"available\":1}}";
    assert_eq!(decode(text.as_bytes()), Err(DecodeError::BadPayload));
    let text = "{\"TaskRequest\":{\"task_id\":\"t\",\"image_ref\":\"i\",\"cpu_cores\":1,\
                \"memory_mb\":1,\"command_args\":[\"a\",2]}}";
    assert_eq!(decode(text.as_bytes()), Err(DecodeError::BadPayload));
    let text = "{\"TaskRequest\":{\"task_id\":\"t\",\"image_ref\":\"i\",\"cpu_cores\":1,\
                \"memory_mb\":1,\"command_args\":\"a\"}}";
    assert_eq!(decode(text.as_bytes()), Err(DecodeError::BadPayload));
}

#[test]
fn numbers_out_of_range_are_rejected() {
    let with_cpu = |cpu: &str| {
        format!(
            "{{\"TaskRequest\":{{\"task_id\":\"t\",\"image_ref\":\"i\",\"cpu_cores\":{},\
             \"memory_mb\":1,\"command_args\":[]}}}}",
            cpu
        )
    };
    assert!(decode(with_cpu("255").as_bytes()).is_ok());
    assert_eq!(decode(with_cpu("256").as_bytes()), Err(DecodeError::BadPayload));
    assert_eq!(decode(with_cpu("-1").as_bytes()), Err(DecodeError::BadPayload));
    assert_eq!(decode(with_cpu("1.5").as_bytes()), Err(DecodeError::BadPayload));
    let text = "{\"ResourceOffer\":{\"cpu_cores\":1,\"memory_mb\":4294967296,\
                \"storage_gb\":1,\"bandwidth_mbps\":1,\"node_id\":\"n\"}}";
    assert_eq!(decode(text.as_bytes()), Err(DecodeError::BadPayload));
    let text = "{\"StorageRequest\":{\"file_id\":\"f\",\"size_bytes\":18446744073709551616}}";
    assert_eq!(decode(text.as_bytes()), Err(DecodeError::BadPayload));
}

#[test]
fn arbitrary_bytes_never_decode_by_accident() {
    let mut seed: u32 = 12345;
    for len in 0..200usize {
        let mut bytes = Vec::with_capacity(len);
        for _ in 0..len {
            seed = seed.wrapping_mul(1664525).wrapping_add(1013904223);
            bytes.push((seed >> 24) as u8);
        }
        assert!(decode(&bytes).is_err());
    }
}

#[test]
fn every_command_is_encoded() {
    let commands = vec![
        offer(),
        request(),
        Command::TaskResult { task_id: String::new(), success: false, result_data: "\u{0}\"\\".to_string() },
        Command::StorageRequest { file_id: "\u{1F980}".to_string(), size_bytes: u64::MAX },
        Command::StorageOffer { file_id: "f".to_string(), node_id: "n".to_string(), available: false },
    ];
    for c in commands {
        let bytes = encode(&c).expect("every command encodes");
        assert!(!bytes.is_empty());
        assert_eq!(decode(&bytes), Ok(c));
    }
}
