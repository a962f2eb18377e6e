use opensky_node::console::{
    operator_step, parse_operator_command, status, status_document, OperatorCommand, Reply, Step,
};
use opensky_node::idset::IdSet;
use opensky_node::config::NodeConfig;
use opensky_node::ledger::ResourceLedger;
use opensky_node::peers::{observe, PeerEvent};

fn ledger() -> ResourceLedger {
    let config = NodeConfig {
        max_cpu_percent: 50,
        max_storage_gb: 10,
        max_bandwidth_mbps: 70,
        memory_mb: 4096,
    };
    ResourceLedger::new("node-a".to_string(), &config)
}

#[test]
fn operator_commands_are_recognised() {
    assert_eq!(parse_operator_command("help"), OperatorCommand::Help);
    assert_eq!(parse_operator_command("peers"), OperatorCommand::Peers);
    assert_eq!(parse_operator_command("resources"), OperatorCommand::Resources);
    assert_eq!(parse_operator_command("status"), OperatorCommand::Status);
    assert_eq!(parse_operator_command("quit"), OperatorCommand::Quit);
}

#[test]
fn other_lines_are_unknown() {
    assert_eq!(parse_operator_command(""), OperatorCommand::Unknown);
    assert_eq!(parse_operator_command("Help"), OperatorCommand::Unknown);
    assert_eq!(parse_operator_command("quit "), OperatorCommand::Unknown);
    assert_eq!(parse_operator_command(" status"), OperatorCommand::Unknown);
    assert_eq!(parse_operator_command("exit"), OperatorCommand::Unknown);
}

#[test]
fn quit_and_end_of_input_shut_down() {
    let l = ledger();
    let peers = IdSet::new();
    assert_eq!(operator_step(Some("quit"), &l, &peers), Step::Shutdown);
    assert_eq!(operator_step(None, &l, &peers), Step::Shutdown);
}

#[test]
fn the_loop_goes_on_after_every_other_line() {
    let mut l = ledger();
    l.admit_task("t1", 20);
    l.reserve_storage(1, "f1");
    let mut peers = IdSet::new();
    observe(&mut peers, &PeerEvent::Discovered("p2".to_string()));
    observe(&mut peers, &PeerEvent::Discovered("p1".to_string()));
    assert_eq!(operator_step(Some("help"), &l, &peers), Step::Continue(Reply::Usage));
    assert_eq!(
        operator_step(Some("peers"), &l, &peers),
        Step::Continue(Reply::Peers(vec!["p2".to_string(), "p1".to_string()]))
    );
    assert_eq!(
        operator_step(Some("resources"), &l, &peers),
        Step::Continue(Reply::Resources(l.snapshot()))
    );
    assert_eq!(
        operator_step(Some("status"), &l, &peers),
        Step::Continue(Reply::Status(status(&l, &peers)))
    );
    assert_eq!(
        operator_step(Some("reboot now"), &l, &peers),
        Step::Continue(Reply::UnknownCommand("reboot now".to_string()))
    );
    assert_eq!(l.snapshot().cpu_cores, 30);
}

#[test]
fn status_counts_peers_tasks_and_files() {
    let mut l = ledger();
    l.admit_task("t1", 20);
    l.admit_task("t2", 20);
    l.reserve_storage(1, "f1");
    let mut peers = IdSet::new();
    peers.insert("p1");
    peers.insert("p2");
    peers.insert("p3");
    let st = status(&l, &peers);
    assert_eq!(st.node_id, "node-a");
    assert_eq!(st.resources.cpu_cores, 10);
    assert_eq!(st.resources.memory_mb, 4096);
    assert_eq!(st.resources.storage_gb, 9);
    assert_eq!(st.resources.bandwidth_mbps, 70);
    assert_eq!(st.peers, 3);
    assert_eq!(st.tasks, 2);
    assert_eq!(st.files, 1);
}

#[test]
fn status_document_has_the_endpoint_shape() {
    let mut l = ledger();
    l.admit_task("t1", 20);
    let mut peers = IdSet::new();
    peers.insert("p1");
    let value = status_document(&status(&l, &peers));
    assert_eq!(
        serde_json::to_string(&value).unwrap(),
        "{\"files\":0,\"node_id\":\"node-a\",\"peers\":1,\"resources\":{\"bandwidth_mbps\":70,\
         \"cpu\":30,\"memory_mb\":4096,\"storage_gb\":10},\"tasks\":1}"
    );
}
