use backend::dispatcher::{Dispatcher, Reply};
use backend::engine::{execute, join_chunks, Fault, Request, Role};
use backend::identity::Identity;
use backend::message::{InboundEnvelope, OutboundEnvelope};
use backend::node::{Node, NodeContent};
use backend::session::{Phase, ProcessSettings, Session, Stage};

fn id(name: &str) -> Identity {
    Identity::new(name.to_string())
}

fn no_defaults() -> Dispatcher {
    Dispatcher::new(ProcessSettings { completion_key: None, store_address: None })
}

fn send(dispatcher: &mut Dispatcher, tx: &mut Vec<OutboundEnvelope>, who: &str, frame: &str) -> Option<Request> {
    dispatcher.dispatch(tx, InboundEnvelope { identity: id(who), payload: frame.to_string() })
}

fn payloads(tx: &[OutboundEnvelope]) -> Vec<String> {
    tx.iter().map(|envelope| envelope.payload.clone()).collect()
}

const SETTINGS: &str =
    "{\"type\":\"SetUserSettings\",\"openai_api_key\":\"key-1\",\"mongo_db_uri\":\"db://one\"}";
const SETTINGS_WITHOUT_KEY: &str = "{\"type\":\"SetUserSettings\",\"mongo_db_uri\":\"db://one\"}";
const INITIALIZE: &str = "{\"type\":\"InitializeProject\",\"initial_message\":\"start\"}";
const ECHO: &str =
    "{\"type\":\"HandleNode\",\"node\":{\"_id\":\"n1\",\"kind\":\"Command\",\"command\":\"echo hi\"}}";
const LIST: &str =
    "{\"type\":\"HandleNode\",\"node\":{\"_id\":\"n2\",\"kind\":\"Command\",\"command\":\"ls\"}}";
const PROMPT: &str = "{\"type\":\"HandleNode\",\"node\":{\"_id\":\"ask1\",\"kind\":\"Prompt\",\"system\":\"be brief\",\"prompt\":\"hello\"}}";

/// Brings the session of `who` to `ProjectInitialized` with the sandbox `box-1`.
fn initialized(dispatcher: &mut Dispatcher, who: &str, settings: &str) {
    let mut tx = Vec::new();
    assert!(send(dispatcher, &mut tx, who, settings).is_none());
    assert!(matches!(send(dispatcher, &mut tx, who, INITIALIZE), Some(Request::FetchNodes { .. })));
    assert!(matches!(
        dispatcher.resume(&mut tx, &id(who), Reply::NodesFetched { nodes: Vec::new() }),
        Some(Request::CreateSandbox)
    ));
    assert!(dispatcher
        .resume(&mut tx, &id(who), Reply::SandboxCreated { handle: "box-1".to_string() })
        .is_none());
    assert_eq!(dispatcher.session(&id(who)).unwrap().phase(), Phase::ProjectInitialized);
}

#[test]
fn handle_node_while_unconfigured_yields_an_error_response() {
    let mut dispatcher = no_defaults();
    let mut tx = Vec::new();
    assert!(send(&mut dispatcher, &mut tx, "a", ECHO).is_none());
    assert_eq!(tx.len(), 1);
    assert_eq!(tx[0].identity.name, "a");
    assert_eq!(
        tx[0].payload,
        "{\"action_id\":\"n1\",\"response_text\":\"error: unauthorized state\"}"
    );
    assert!(dispatcher.session(&id("a")).is_none());
}

#[test]
fn handle_node_before_the_project_is_initialized_yields_an_error_response() {
    let mut dispatcher = no_defaults();
    let mut tx = Vec::new();
    assert!(send(&mut dispatcher, &mut tx, "a", SETTINGS).is_none());
    assert_eq!(dispatcher.session(&id("a")).unwrap().phase(), Phase::SettingsSet);
    tx.clear();
    assert!(send(&mut dispatcher, &mut tx, "a", PROMPT).is_none());
    assert_eq!(
        payloads(&tx),
        vec!["{\"action_id\":\"ask1\",\"response_text\":\"error: unauthorized state\"}".to_string()]
    );
    let session = dispatcher.session(&id("a")).unwrap();
    assert!(session.running.is_none());
    assert_eq!(session.history, vec![SETTINGS.to_string(), PROMPT.to_string()]);
}

#[test]
fn commands_other_than_settings_do_not_create_a_session() {
    let mut dispatcher = no_defaults();
    let mut tx = Vec::new();
    assert!(send(&mut dispatcher, &mut tx, "a", INITIALIZE).is_none());
    assert!(send(
        &mut dispatcher,
        &mut tx,
        "a",
        "{\"type\":\"CreateNode\",\"node\":{\"kind\":\"Prompt\",\"prompt\":\"p\"}}"
    )
    .is_none());
    assert!(send(
        &mut dispatcher,
        &mut tx,
        "a",
        "{\"type\":\"UpdateNode\",\"node\":{\"_id\":\"u1\",\"kind\":\"Prompt\",\"prompt\":\"p\"}}"
    )
    .is_none());
    assert_eq!(
        payloads(&tx),
        vec![
            "{\"action_id\":\"InitializeProject\",\"response_text\":\"error: unauthorized state\"}"
                .to_string(),
            "{\"action_id\":\"CreateNode\",\"response_text\":\"error: unauthorized state\"}"
                .to_string(),
            "{\"action_id\":\"UpdateNode\",\"response_text\":\"error: unauthorized state\"}"
                .to_string(),
        ]
    );
    assert!(dispatcher.session(&id("a")).is_none());
}

#[test]
fn settings_are_acknowledged_and_stored() {
    let mut dispatcher = no_defaults();
    let mut tx = Vec::new();
    assert!(send(&mut dispatcher, &mut tx, "a", SETTINGS).is_none());
    assert_eq!(tx.len(), 1);
    assert_eq!(tx[0].identity.name, "a");
    assert_eq!(tx[0].payload, "Settings received");
    let session = dispatcher.session(&id("a")).unwrap();
    let credentials = session.credentials.as_ref().unwrap();
    assert_eq!(credentials.completion_key, Some("key-1".to_string()));
    assert_eq!(credentials.store_address, "db://one");
    assert_eq!(session.phase(), Phase::SettingsSet);
    assert_eq!(session.stage, Stage::Idle);
    assert_eq!(session.history, vec![SETTINGS.to_string()]);
}

#[test]
fn process_wide_settings_win_over_those_of_the_client() {
    let mut dispatcher = Dispatcher::new(ProcessSettings {
        completion_key: Some("process-key".to_string()),
        store_address: None,
    });
    let mut tx = Vec::new();
    assert!(send(&mut dispatcher, &mut tx, "a", SETTINGS).is_none());
    let credentials = dispatcher.session(&id("a")).unwrap().credentials.as_ref().unwrap();
    assert_eq!(credentials.completion_key, Some("process-key".to_string()));
    assert_eq!(credentials.store_address, "db://one");

    let mut dispatcher = Dispatcher::new(ProcessSettings {
        completion_key: None,
        store_address: Some("db://process".to_string()),
    });
    assert!(send(&mut dispatcher, &mut tx, "b", SETTINGS_WITHOUT_KEY).is_none());
    let credentials = dispatcher.session(&id("b")).unwrap().credentials.as_ref().unwrap();
    assert_eq!(credentials.completion_key, None);
    assert_eq!(credentials.store_address, "db://process");
}

#[test]
fn project_initialization_sends_every_node_and_provisions_a_sandbox() {
    let mut dispatcher = no_defaults();
    let mut tx = Vec::new();
    assert!(send(&mut dispatcher, &mut tx, "a", SETTINGS).is_none());
    tx.clear();
    match send(&mut dispatcher, &mut tx, "a", INITIALIZE) {
        Some(Request::FetchNodes { address }) => assert_eq!(address, "db://one"),
        _ => panic!("no fetch"),
    }
    assert!(tx.is_empty());
    assert_eq!(dispatcher.session(&id("a")).unwrap().stage, Stage::FetchingNodes);
    assert_eq!(dispatcher.session(&id("a")).unwrap().phase(), Phase::SettingsSet);

    let nodes = vec![
        Node {
            id: Some("n1".to_string()),
            content: NodeContent::Command { command: "echo hi".to_string() },
        },
        Node {
            id: Some("ask1".to_string()),
            content: NodeContent::Prompt { system: None, prompt: "hello".to_string() },
        },
    ];
    assert!(matches!(
        dispatcher.resume(&mut tx, &id("a"), Reply::NodesFetched { nodes }),
        Some(Request::CreateSandbox)
    ));
    assert_eq!(
        payloads(&tx),
        vec![
            "{\"_id\":\"n1\",\"kind\":\"Command\",\"command\":\"echo hi\"}".to_string(),
            "{\"_id\":\"ask1\",\"kind\":\"Prompt\",\"prompt\":\"hello\"}".to_string(),
        ]
    );
    assert!(tx.iter().all(|envelope| envelope.identity.name == "a"));
    assert_eq!(dispatcher.session(&id("a")).unwrap().stage, Stage::Provisioning);

    tx.clear();
    assert!(dispatcher
        .resume(&mut tx, &id("a"), Reply::SandboxCreated { handle: "box-1".to_string() })
        .is_none());
    assert!(tx.is_empty());
    let session = dispatcher.session(&id("a")).unwrap();
    assert_eq!(session.sandbox, Some("box-1".to_string()));
    assert_eq!(session.stage, Stage::Idle);
    assert_eq!(session.phase(), Phase::ProjectInitialized);
}

#[test]
fn initializing_twice_is_turned_down_and_keeps_the_sandbox() {
    let mut dispatcher = no_defaults();
    let mut tx = Vec::new();
    assert!(send(&mut dispatcher, &mut tx, "a", SETTINGS).is_none());
    assert!(send(&mut dispatcher, &mut tx, "a", INITIALIZE).is_some());
    tx.clear();
    assert!(send(&mut dispatcher, &mut tx, "a", INITIALIZE).is_none());
    assert_eq!(
        payloads(&tx),
        vec!["{\"action_id\":\"InitializeProject\",\"response_text\":\"error: unauthorized state\"}"
            .to_string()]
    );
    assert!(dispatcher.resume(&mut tx, &id("a"), Reply::NodesFetched { nodes: Vec::new() }).is_some());
    assert!(dispatcher
        .resume(&mut tx, &id("a"), Reply::SandboxCreated { handle: "box-1".to_string() })
        .is_none());
    tx.clear();
    assert!(send(&mut dispatcher, &mut tx, "a", INITIALIZE).is_none());
    assert_eq!(tx.len(), 1);
    assert!(dispatcher
        .resume(&mut tx, &id("a"), Reply::SandboxCreated { handle: "box-2".to_string() })
        .is_none());
    assert!(dispatcher.resume(&mut tx, &id("a"), Reply::NodesFetched { nodes: Vec::new() }).is_none());
    let session = dispatcher.session(&id("a")).unwrap();
    assert_eq!(session.sandbox, Some("box-1".to_string()));
    assert_eq!(session.phase(), Phase::ProjectInitialized);
}

#[test]
fn failed_initialization_is_reported_and_can_be_tried_again() {
    let mut dispatcher = no_defaults();
    let mut tx = Vec::new();
    assert!(send(&mut dispatcher, &mut tx, "a", SETTINGS).is_none());
    assert!(send(&mut dispatcher, &mut tx, "a", INITIALIZE).is_some());
    tx.clear();
    assert!(dispatcher.resume(&mut tx, &id("a"), Reply::InitializationFailed).is_none());
    assert_eq!(
        payloads(&tx),
        vec!["{\"action_id\":\"InitializeProject\",\"response_text\":\"error: initialization failed\"}"
            .to_string()]
    );
    assert_eq!(dispatcher.session(&id("a")).unwrap().stage, Stage::Idle);
    assert_eq!(dispatcher.session(&id("a")).unwrap().phase(), Phase::SettingsSet);
    tx.clear();
    assert!(dispatcher.resume(&mut tx, &id("a"), Reply::InitializationFailed).is_none());
    assert!(tx.is_empty());
    assert!(matches!(
        send(&mut dispatcher, &mut tx, "a", INITIALIZE),
        Some(Request::FetchNodes { .. })
    ));
}

#[test]
fn echo_hi_yields_exactly_one_response_with_the_whole_output() {
    let mut dispatcher = no_defaults();
    initialized(&mut dispatcher, "a", SETTINGS);
    let mut tx = Vec::new();
    match send(&mut dispatcher, &mut tx, "a", ECHO) {
        Some(Request::Exec { node_id, sandbox, command }) => {
            assert_eq!(node_id, "n1");
            assert_eq!(sandbox, "box-1");
            assert_eq!(command, "echo hi");
        }
        _ => panic!("no exec"),
    }
    assert!(tx.is_empty());
    assert!(dispatcher
        .resume(&mut tx, &id("a"), Reply::ExecChunk { chunk: "hi\n".to_string() })
        .is_none());
    assert!(tx.is_empty());
    assert!(dispatcher.resume(&mut tx, &id("a"), Reply::ExecEnded).is_none());
    assert_eq!(tx.len(), 1);
    assert_eq!(tx[0].identity.name, "a");
    assert_eq!(tx[0].payload, "{\"action_id\":\"n1\",\"response_text\":\"hi\\n\"}");
    assert!(dispatcher.session(&id("a")).unwrap().running.is_none());
    tx.clear();
    assert!(dispatcher.resume(&mut tx, &id("a"), Reply::ExecEnded).is_none());
    assert!(tx.is_empty());
}

#[test]
fn chunks_are_joined_by_newlines() {
    let mut dispatcher = no_defaults();
    initialized(&mut dispatcher, "a", SETTINGS);
    let mut tx = Vec::new();
    assert!(send(&mut dispatcher, &mut tx, "a", LIST).is_some());
    for chunk in ["bin", "etc", ""] {
        assert!(dispatcher
            .resume(&mut tx, &id("a"), Reply::ExecChunk { chunk: chunk.to_string() })
            .is_none());
    }
    assert_eq!(
        dispatcher.session(&id("a")).unwrap().running.as_ref().unwrap().chunks,
        vec!["bin".to_string(), "etc".to_string(), "".to_string()]
    );
    assert!(dispatcher.resume(&mut tx, &id("a"), Reply::ExecEnded).is_none());
    assert_eq!(
        payloads(&tx),
        vec!["{\"action_id\":\"n2\",\"response_text\":\"bin\\netc\\n\"}".to_string()]
    );
}

#[test]
fn a_command_without_output_is_answered_with_the_empty_text() {
    let mut dispatcher = no_defaults();
    initialized(&mut dispatcher, "a", SETTINGS);
    let mut tx = Vec::new();
    assert!(send(&mut dispatcher, &mut tx, "a", LIST).is_some());
    assert!(dispatcher.resume(&mut tx, &id("a"), Reply::ExecEnded).is_none());
    assert_eq!(payloads(&tx), vec!["{\"action_id\":\"n2\",\"response_text\":\"\"}".to_string()]);
}

#[test]
fn a_chunk_without_a_running_command_is_dropped() {
    let mut dispatcher = no_defaults();
    initialized(&mut dispatcher, "a", SETTINGS);
    let mut tx = Vec::new();
    assert!(dispatcher
        .resume(&mut tx, &id("a"), Reply::ExecChunk { chunk: "stray".to_string() })
        .is_none());
    assert!(tx.is_empty());
    assert!(dispatcher.session(&id("a")).unwrap().running.is_none());
}

#[test]
fn two_commands_run_strictly_one_after_the_other() {
    let mut dispatcher = no_defaults();
    initialized(&mut dispatcher, "a", SETTINGS);
    let mut tx = Vec::new();
    assert!(matches!(
        send(&mut dispatcher, &mut tx, "a", ECHO),
        Some(Request::Exec { node_id, .. }) if node_id == "n1"
    ));
    assert!(send(&mut dispatcher, &mut tx, "a", LIST).is_none());
    assert!(tx.is_empty());
    {
        let session = dispatcher.session(&id("a")).unwrap();
        assert_eq!(session.running.as_ref().unwrap().node_id, "n1");
        assert_eq!(session.waiting.len(), 1);
        assert_eq!(session.waiting[0].node_id, "n2");
        assert_eq!(session.waiting[0].command, "ls");
    }
    assert!(dispatcher
        .resume(&mut tx, &id("a"), Reply::ExecChunk { chunk: "hi\n".to_string() })
        .is_none());
    match dispatcher.resume(&mut tx, &id("a"), Reply::ExecEnded) {
        Some(Request::Exec { node_id, sandbox, command }) => {
            assert_eq!(node_id, "n2");
            assert_eq!(sandbox, "box-1");
            assert_eq!(command, "ls");
        }
        _ => panic!("the second command did not start"),
    }
    assert_eq!(payloads(&tx), vec!["{\"action_id\":\"n1\",\"response_text\":\"hi\\n\"}".to_string()]);
    {
        let session = dispatcher.session(&id("a")).unwrap();
        assert_eq!(session.running.as_ref().unwrap().node_id, "n2");
        assert!(session.running.as_ref().unwrap().chunks.is_empty());
        assert!(session.waiting.is_empty());
    }
    tx.clear();
    assert!(dispatcher
        .resume(&mut tx, &id("a"), Reply::ExecChunk { chunk: "bin".to_string() })
        .is_none());
    assert!(dispatcher.resume(&mut tx, &id("a"), Reply::ExecEnded).is_none());
    assert_eq!(payloads(&tx), vec!["{\"action_id\":\"n2\",\"response_text\":\"bin\"}".to_string()]);
}

#[test]
fn commands_of_different_sessions_do_not_wait_for_each_other() {
    let mut dispatcher = no_defaults();
    initialized(&mut dispatcher, "a", SETTINGS);
    initialized(&mut dispatcher, "b", SETTINGS);
    let mut tx = Vec::new();
    assert!(send(&mut dispatcher, &mut tx, "a", ECHO).is_some());
    assert!(send(&mut dispatcher, &mut tx, "b", LIST).is_some());
    assert!(dispatcher
        .resume(&mut tx, &id("b"), Reply::ExecChunk { chunk: "bin".to_string() })
        .is_none());
    assert!(dispatcher.resume(&mut tx, &id("b"), Reply::ExecEnded).is_none());
    assert_eq!(tx.len(), 1);
    assert_eq!(tx[0].identity.name, "b");
    assert_eq!(tx[0].payload, "{\"action_id\":\"n2\",\"response_text\":\"bin\"}");
    assert!(dispatcher.session(&id("a")).unwrap().running.as_ref().unwrap().chunks.is_empty());
}

#[test]
fn prompt_without_a_credential_yields_one_error_response_and_the_session_stays_usable() {
    let mut dispatcher = no_defaults();
    initialized(&mut dispatcher, "a", SETTINGS_WITHOUT_KEY);
    let mut tx = Vec::new();
    assert!(send(&mut dispatcher, &mut tx, "a", PROMPT).is_none());
    assert_eq!(
        payloads(&tx),
        vec!["{\"action_id\":\"ask1\",\"response_text\":\"error: missing credential\"}".to_string()]
    );
    assert_eq!(dispatcher.session(&id("a")).unwrap().phase(), Phase::ProjectInitialized);
    tx.clear();
    assert!(matches!(send(&mut dispatcher, &mut tx, "a", ECHO), Some(Request::Exec { .. })));
    assert!(send(&mut dispatcher, &mut tx, "a", SETTINGS).is_none());
    assert!(matches!(send(&mut dispatcher, &mut tx, "a", PROMPT), Some(Request::Complete { .. })));
}

#[test]
fn prompt_with_a_credential_asks_for_a_completion_of_two_messages() {
    let mut dispatcher = no_defaults();
    initialized(&mut dispatcher, "a", SETTINGS);
    let mut tx = Vec::new();
    match send(&mut dispatcher, &mut tx, "a", PROMPT) {
        Some(Request::Complete { node_id, transcript, credential }) => {
            assert_eq!(node_id, "ask1");
            assert_eq!(credential, "key-1");
            assert_eq!(transcript.len(), 2);
            assert_eq!(transcript[0].role, Role::System);
            assert_eq!(transcript[0].content, "be brief");
            assert_eq!(transcript[1].role, Role::User);
            assert_eq!(transcript[1].content, "hello");
        }
        _ => panic!("no completion asked for"),
    }
    assert!(tx.is_empty());
    let bare = "{\"type\":\"HandleNode\",\"node\":{\"_id\":\"ask2\",\"kind\":\"Prompt\",\"prompt\":\"again\"}}";
    match send(&mut dispatcher, &mut tx, "a", bare) {
        Some(Request::Complete { transcript, .. }) => {
            assert_eq!(transcript[0].role, Role::System);
            assert_eq!(transcript[0].content, "");
            assert_eq!(transcript[1].content, "again");
        }
        _ => panic!("no completion asked for"),
    }
}

#[test]
fn completion_and_provider_failure_are_answered_under_the_node_id() {
    let mut dispatcher = no_defaults();
    initialized(&mut dispatcher, "a", SETTINGS);
    let mut tx = Vec::new();
    assert!(send(&mut dispatcher, &mut tx, "a", PROMPT).is_some());
    assert!(dispatcher
        .resume(
            &mut tx,
            &id("a"),
            Reply::Completed { node_id: "ask1".to_string(), text: "hello there".to_string() }
        )
        .is_none());
    assert!(dispatcher
        .resume(&mut tx, &id("a"), Reply::CompletionFailed { node_id: "ask1".to_string() })
        .is_none());
    assert_eq!(
        payloads(&tx),
        vec![
            "{\"action_id\":\"ask1\",\"response_text\":\"hello there\"}".to_string(),
            "{\"action_id\":\"ask1\",\"response_text\":\"error: provider failure\"}".to_string(),
        ]
    );
    tx.clear();
    assert!(matches!(send(&mut dispatcher, &mut tx, "a", PROMPT), Some(Request::Complete { .. })));
}

#[test]
fn conditional_and_process_nodes_are_reported_as_unsupported() {
    let mut dispatcher = no_defaults();
    initialized(&mut dispatcher, "a", SETTINGS);
    let mut tx = Vec::new();
    let conditional = "{\"type\":\"HandleNode\",\"node\":{\"_id\":\"c1\",\"kind\":\"Conditional\",\"trigger\":\"t\",\"wait_for_branch\":false,\"creates_branch\":false}}";
    let process = "{\"type\":\"HandleNode\",\"node\":{\"_id\":\"r1\",\"kind\":\"Process\",\"steps\":[],\"trigger\":\"t\",\"wait_for_branch\":false,\"creates_branch\":false}}";
    assert!(send(&mut dispatcher, &mut tx, "a", conditional).is_none());
    assert!(send(&mut dispatcher, &mut tx, "a", process).is_none());
    assert_eq!(
        payloads(&tx),
        vec![
            "{\"action_id\":\"c1\",\"response_text\":\"error: unsupported node\"}".to_string(),
            "{\"action_id\":\"r1\",\"response_text\":\"error: unsupported node\"}".to_string(),
        ]
    );
}

#[test]
fn a_command_without_a_sandbox_is_reported_by_the_engine() {
    let mut session = Session::new();
    let mut tx = Vec::new();
    let node = Node {
        id: Some("n1".to_string()),
        content: NodeContent::Command { command: "echo hi".to_string() },
    };
    assert!(execute(&mut session, &mut tx, &id("a"), &node).is_none());
    assert_eq!(
        payloads(&tx),
        vec!["{\"action_id\":\"n1\",\"response_text\":\"error: missing sandbox\"}".to_string()]
    );
    assert!(session.running.is_none());
    assert_eq!(Fault::MissingSandbox.text(), "error: missing sandbox");
}

#[test]
fn a_malformed_frame_is_dropped_and_the_next_frame_is_processed() {
    let mut dispatcher = no_defaults();
    initialized(&mut dispatcher, "a", SETTINGS);
    let history = dispatcher.session(&id("a")).unwrap().history.clone();
    let mut tx = Vec::new();
    assert!(send(&mut dispatcher, &mut tx, "a", "{\"type\":").is_none());
    assert!(send(&mut dispatcher, &mut tx, "a", "{\"kind\":\"HandleNode\"}").is_none());
    assert!(send(&mut dispatcher, &mut tx, "z", "garbage").is_none());
    assert!(tx.is_empty());
    assert!(dispatcher.session(&id("z")).is_none());
    assert_eq!(dispatcher.session(&id("a")).unwrap().history, history);
    assert!(matches!(
        send(&mut dispatcher, &mut tx, "a", ECHO),
        Some(Request::Exec { node_id, .. }) if node_id == "n1"
    ));
}

#[test]
fn create_node_is_stored_under_a_new_object_identifier() {
    let mut dispatcher = no_defaults();
    let mut tx = Vec::new();
    assert!(send(&mut dispatcher, &mut tx, "a", SETTINGS).is_none());
    tx.clear();
    let frame = "{\"type\":\"CreateNode\",\"node\":{\"_id\":\"mine\",\"kind\":\"Command\",\"command\":\"pwd\"}}";
    let first = match send(&mut dispatcher, &mut tx, "a", frame) {
        Some(Request::InsertNode { address, node }) => {
            assert_eq!(address, "db://one");
            assert!(matches!(&node.content, NodeContent::Command { command } if command == "pwd"));
            node.id.unwrap()
        }
        _ => panic!("no insert"),
    };
    assert_eq!(first.len(), 24);
    assert!(first.chars().all(|c| c.is_ascii_digit() || ('a'..='f').contains(&c)));
    assert_ne!(first, "mine");
    let second = match send(&mut dispatcher, &mut tx, "a", frame) {
        Some(Request::InsertNode { node, .. }) => node.id.unwrap(),
        _ => panic!("no insert"),
    };
    assert_ne!(first, second);
    assert!(tx.is_empty());
}

#[test]
fn handle_command_stores_a_created_node_under_the_given_identifier() {
    let mut dispatcher = no_defaults();
    let mut tx = Vec::new();
    assert!(send(&mut dispatcher, &mut tx, "a", SETTINGS).is_none());
    let node = Node { id: None, content: NodeContent::Command { command: "pwd".to_string() } };
    let request = dispatcher.handle_command(
        &mut tx,
        &id("a"),
        "raw".to_string(),
        backend::message::Command::CreateNode { node },
        "0123456789abcdef01234567".to_string(),
    );
    assert!(matches!(
        request,
        Some(Request::InsertNode { node, .. }) if node.id == Some("0123456789abcdef01234567".to_string())
    ));
    assert_eq!(dispatcher.session(&id("a")).unwrap().history.last().unwrap(), "raw");
}

#[test]
fn update_node_is_passed_through_to_the_store() {
    let mut dispatcher = no_defaults();
    let mut tx = Vec::new();
    assert!(send(&mut dispatcher, &mut tx, "a", SETTINGS).is_none());
    tx.clear();
    let frame = "{\"type\":\"UpdateNode\",\"node\":{\"_id\":\"u1\",\"kind\":\"Prompt\",\"prompt\":\"new\"}}";
    match send(&mut dispatcher, &mut tx, "a", frame) {
        Some(Request::UpdateNode { address, node }) => {
            assert_eq!(address, "db://one");
            assert_eq!(node.id, Some("u1".to_string()));
            assert!(matches!(node.content, NodeContent::Prompt { system: None, prompt } if prompt == "new"));
        }
        _ => panic!("no update"),
    }
    assert!(tx.is_empty());
}

#[test]
fn a_reply_for_an_identity_without_a_session_changes_nothing() {
    let mut dispatcher = no_defaults();
    let mut tx = Vec::new();
    assert!(dispatcher
        .resume(
            &mut tx,
            &id("ghost"),
            Reply::Completed { node_id: "ask1".to_string(), text: "late".to_string() }
        )
        .is_none());
    assert!(dispatcher.resume(&mut tx, &id("ghost"), Reply::ExecEnded).is_none());
    assert!(tx.is_empty());
    assert!(dispatcher.session(&id("ghost")).is_none());
}

fn output_of(chunks: &[&str]) -> String {
    let mut dispatcher = no_defaults();
    initialized(&mut dispatcher, "a", SETTINGS);
    let mut tx = Vec::new();
    assert!(send(&mut dispatcher, &mut tx, "a", LIST).is_some());
    for chunk in chunks {
        assert!(dispatcher
            .resume(&mut tx, &id("a"), Reply::ExecChunk { chunk: chunk.to_string() })
            .is_none());
        assert!(tx.is_empty());
    }
    assert!(dispatcher.resume(&mut tx, &id("a"), Reply::ExecEnded).is_none());
    assert_eq!(tx.len(), 1);
    let document: serde_json::Value = serde_json::from_str(&tx[0].payload).unwrap();
    assert_eq!(document["action_id"], "n2");
    document["response_text"].as_str().unwrap().to_string()
}

#[test]
fn the_response_text_is_the_chunks_joined_by_newlines() {
    assert_eq!(output_of(&[]), "");
    assert_eq!(output_of(&["hi"]), "hi");
    assert_eq!(output_of(&["hi\n"]), "hi\n");
    assert_eq!(output_of(&["a", "b"]), "a\nb");
    assert_eq!(output_of(&["a", "b", "c"]), "a\nb\nc");
    assert_eq!(output_of(&[""]), "");
    assert_eq!(output_of(&["", "x"]), "\nx");
    assert_eq!(output_of(&["x", ""]), "x\n");
    assert_eq!(output_of(&["", ""]), "\n");
}

#[test]
fn join_chunks_puts_a_newline_between_chunks_only() {
    assert_eq!(join_chunks(&Vec::new()), "");
    assert_eq!(join_chunks(&vec!["one".to_string()]), "one");
    assert_eq!(join_chunks(&vec!["one".to_string(), "two".to_string()]), "one\ntwo");
}
