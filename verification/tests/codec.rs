use backend::identity::Identity;
use backend::message::{send_message, Command, InboundEnvelope, OutboundEnvelope, Response};
use backend::node::{Branching, Node, NodeContent};

fn parse(text: &str) -> serde_json::Value {
    serde_json::from_str(text).unwrap()
}

#[test]
fn identity_new_keeps_the_name() {
    let identity = Identity::new("client-1".to_string());
    assert_eq!(identity.name, "client-1");
    assert!(identity == Identity::new("client-1".to_string()));
    assert!(identity != Identity::new("client-2".to_string()));
    assert!(identity.clone() == identity);
}

#[test]
fn command_node_round_trips_through_its_document() {
    let node = Node {
        id: Some("n1".to_string()),
        content: NodeContent::Command { command: "echo hi".to_string() },
    };
    let text = node.to_document().to_string();
    assert_eq!(text, "{\"_id\":\"n1\",\"kind\":\"Command\",\"command\":\"echo hi\"}");
    let back = Node::from_document(&parse(&text)).unwrap();
    assert_eq!(back.id, Some("n1".to_string()));
    assert!(matches!(back.content, NodeContent::Command { command } if command == "echo hi"));
}

#[test]
fn prompt_node_document_lists_members_in_order() {
    let node = Node {
        id: Some("ask1".to_string()),
        content: NodeContent::Prompt {
            system: Some("be brief".to_string()),
            prompt: "say \"hi\"".to_string(),
        },
    };
    assert_eq!(
        node.to_document().to_string(),
        "{\"_id\":\"ask1\",\"kind\":\"Prompt\",\"system\":\"be brief\",\"prompt\":\"say \\\"hi\\\"\"}"
    );
}

#[test]
fn prompt_node_without_optional_members_has_none_in_its_document() {
    let node = Node {
        id: None,
        content: NodeContent::Prompt { system: None, prompt: "hello".to_string() },
    };
    let text = node.to_document().to_string();
    assert_eq!(text, "{\"kind\":\"Prompt\",\"prompt\":\"hello\"}");
    let back = Node::from_document(&parse(&text)).unwrap();
    assert_eq!(back.id, None);
    assert!(matches!(
        back.content,
        NodeContent::Prompt { system: None, prompt } if prompt == "hello"
    ));
}

#[test]
fn process_node_round_trips_with_steps_and_branching() {
    let node = Node {
        id: Some("proc".to_string()),
        content: NodeContent::Process {
            steps: vec!["a".to_string(), "b".to_string(), "c".to_string()],
            branching: Branching {
                trigger: "manual".to_string(),
                next_process: Some("after".to_string()),
                wait_for_branch: true,
                creates_branch: false,
                branch_step: None,
            },
        },
    };
    let text = node.to_document().to_string();
    assert_eq!(
        text,
        "{\"_id\":\"proc\",\"kind\":\"Process\",\"steps\":[\"a\",\"b\",\"c\"],\
         \"trigger\":\"manual\",\"next_process\":\"after\",\"wait_for_branch\":true,\
         \"creates_branch\":false}"
    );
    let back = Node::from_document(&parse(&text)).unwrap();
    match back.content {
        NodeContent::Process { steps, branching } => {
            assert_eq!(steps, vec!["a".to_string(), "b".to_string(), "c".to_string()]);
            assert_eq!(branching.trigger, "manual");
            assert_eq!(branching.next_process, Some("after".to_string()));
            assert!(branching.wait_for_branch);
            assert!(!branching.creates_branch);
            assert_eq!(branching.branch_step, None);
        }
        _ => panic!("not a process"),
    }
}

#[test]
fn conditional_node_round_trips() {
    let node = Node {
        id: Some("c1".to_string()),
        content: NodeContent::Conditional {
            branching: Branching {
                trigger: "on-done".to_string(),
                next_process: None,
                wait_for_branch: false,
                creates_branch: true,
                branch_step: Some("s2".to_string()),
            },
        },
    };
    let back = Node::from_document(&node.to_document()).unwrap();
    match back.content {
        NodeContent::Conditional { branching } => {
            assert_eq!(branching.trigger, "on-done");
            assert_eq!(branching.next_process, None);
            assert!(!branching.wait_for_branch);
            assert!(branching.creates_branch);
            assert_eq!(branching.branch_step, Some("s2".to_string()));
        }
        _ => panic!("not a conditional"),
    }
}

#[test]
fn node_with_a_member_of_the_wrong_type_is_unreadable() {
    assert!(Node::from_document(&parse("{\"kind\":\"Prompt\",\"system\":5,\"prompt\":\"x\"}"))
        .is_none());
    assert!(Node::from_document(&parse("{\"kind\":\"Command\",\"command\":true}")).is_none());
    assert!(Node::from_document(&parse("{\"_id\":7,\"kind\":\"Command\",\"command\":\"ls\"}"))
        .is_none());
    assert!(Node::from_document(&parse(
        "{\"kind\":\"Process\",\"steps\":[\"a\",1],\"trigger\":\"t\",\
         \"wait_for_branch\":true,\"creates_branch\":true}"
    ))
    .is_none());
    assert!(Node::from_document(&parse(
        "{\"kind\":\"Conditional\",\"trigger\":\"t\",\"wait_for_branch\":\"yes\",\
         \"creates_branch\":true}"
    ))
    .is_none());
}

#[test]
fn node_without_or_with_unknown_kind_is_unreadable() {
    assert!(Node::from_document(&parse("{\"command\":\"ls\"}")).is_none());
    assert!(Node::from_document(&parse("{\"kind\":\"Shell\",\"command\":\"ls\"}")).is_none());
    assert!(Node::from_document(&parse("[\"kind\",\"Command\"]")).is_none());
    assert!(Node::from_document(&parse("\"Command\"")).is_none());
}

#[test]
fn frame_without_discriminant_is_unreadable() {
    assert!(Command::decode("{\"node\":{}}").is_none());
    assert!(Command::decode("not json").is_none());
    assert!(Command::decode("").is_none());
    assert!(Command::decode("{\"type\":5}").is_none());
    assert!(Command::decode("{\"type\":\"Shutdown\"}").is_none());
    assert!(Command::decode("{\"type\":\"InitializeProject\"} trailing").is_none());
}

#[test]
fn set_user_settings_is_decoded_with_and_without_a_key() {
    let with_key = Command::decode(
        "{\"type\":\"SetUserSettings\",\"openai_api_key\":\"SECRET-REDACTED\",\"mongo_db_uri\":\"db://x\"}",
    )
    .unwrap();
    match with_key {
        Command::SetUserSettings { completion_key, store_address } => {
            assert_eq!(completion_key, Some("SECRET-REDACTED".to_string()));
            assert_eq!(store_address, "db://x");
        }
        _ => panic!("wrong command"),
    }
    let without_key =
        Command::decode("{\"type\":\"SetUserSettings\",\"mongo_db_uri\":\"db://y\"}").unwrap();
    assert!(matches!(
        without_key,
        Command::SetUserSettings { completion_key: None, store_address } if store_address == "db://y"
    ));
    assert!(Command::decode("{\"type\":\"SetUserSettings\",\"openai_api_key\":\"k\"}").is_none());
    assert!(Command::decode(
        "{\"type\":\"SetUserSettings\",\"openai_api_key\":1,\"mongo_db_uri\":\"db://y\"}"
    )
    .is_none());
}

#[test]
fn initialize_project_is_decoded() {
    let command =
        Command::decode("{\"type\":\"InitializeProject\",\"initial_message\":\"go\"}").unwrap();
    assert!(matches!(
        command,
        Command::InitializeProject { initial_message } if initial_message == "go"
    ));
    assert_eq!(
        Command::decode("{\"type\":\"InitializeProject\",\"initial_message\":\"go\"}")
            .unwrap()
            .name(),
        "InitializeProject"
    );
    assert!(Command::decode("{\"type\":\"InitializeProject\"}").is_none());
}

#[test]
fn handle_node_and_update_node_need_an_identifier() {
    let frame = "{\"type\":\"HandleNode\",\"node\":{\"_id\":\"n1\",\"kind\":\"Command\",\"command\":\"ls\"}}";
    match Command::decode(frame).unwrap() {
        Command::HandleNode { node } => {
            assert_eq!(node.id, Some("n1".to_string()));
            assert!(matches!(node.content, NodeContent::Command { command } if command == "ls"));
        }
        _ => panic!("wrong command"),
    }
    assert!(Command::decode(
        "{\"type\":\"HandleNode\",\"node\":{\"kind\":\"Command\",\"command\":\"ls\"}}"
    )
    .is_none());
    assert!(Command::decode("{\"type\":\"HandleNode\"}").is_none());
    assert!(Command::decode("{\"type\":\"HandleNode\",\"node\":\"n1\"}").is_none());
    let update = "{\"type\":\"UpdateNode\",\"node\":{\"_id\":\"n2\",\"kind\":\"Prompt\",\"prompt\":\"p\"}}";
    assert!(matches!(
        Command::decode(update).unwrap(),
        Command::UpdateNode { node } if node.id == Some("n2".to_string())
    ));
    assert!(Command::decode(
        "{\"type\":\"UpdateNode\",\"node\":{\"kind\":\"Prompt\",\"prompt\":\"p\"}}"
    )
    .is_none());
}

#[test]
fn create_node_needs_no_identifier() {
    let frame = "{\"type\":\"CreateNode\",\"node\":{\"kind\":\"Prompt\",\"prompt\":\"p\"}}";
    assert!(matches!(
        Command::decode(frame).unwrap(),
        Command::CreateNode { node } if node.id.is_none()
    ));
}

#[test]
fn command_from_document_agrees_with_decode() {
    let frame = "{\"type\":\"CreateNode\",\"node\":{\"kind\":\"Command\",\"command\":\"pwd\"}}";
    let from_document = Command::from_document(&parse(frame)).unwrap();
    assert!(matches!(
        from_document,
        Command::CreateNode { node }
            if matches!(&node.content, NodeContent::Command { command } if command == "pwd")
    ));
    assert!(Command::from_document(&parse("[1,2]")).is_none());
}

#[test]
fn response_document_has_both_members_in_order() {
    let response = Response { action_id: "n1".to_string(), response_text: "hi\n".to_string() };
    let text = response.to_document().to_string();
    assert_eq!(text, "{\"action_id\":\"n1\",\"response_text\":\"hi\\n\"}");
    let back = parse(&text);
    assert_eq!(back["action_id"], "n1");
    assert_eq!(back["response_text"], "hi\n");
}

#[test]
fn send_message_appends_the_text_of_the_document() {
    let mut tx: Vec<OutboundEnvelope> = Vec::new();
    tx.push(OutboundEnvelope {
        identity: Identity::new("a".to_string()),
        payload: "first".to_string(),
    });
    send_message(&mut tx, Identity::new("b".to_string()), &parse("{\"k\": [1, \"two\", null]}"));
    assert_eq!(tx.len(), 2);
    assert_eq!(tx[0].identity.name, "a");
    assert_eq!(tx[0].payload, "first");
    assert_eq!(tx[1].identity.name, "b");
    assert_eq!(tx[1].payload, "{\"k\":[1,\"two\",null]}");
}

#[test]
fn a_frame_becomes_an_envelope_only_if_it_is_utf8() {
    let envelope =
        InboundEnvelope::from_frame(Identity::new("a".to_string()), "h\u{e9}llo".as_bytes().to_vec())
            .unwrap();
    assert_eq!(envelope.identity.name, "a");
    assert_eq!(envelope.payload, "h\u{e9}llo");
    assert!(InboundEnvelope::from_frame(Identity::new("a".to_string()), vec![0x68, 0xff]).is_none());
    let empty = InboundEnvelope::from_frame(Identity::new("a".to_string()), Vec::new()).unwrap();
    assert_eq!(empty.payload, "");
}
