//! The messages that cross the connection: commands coming in, responses
//! going out, and the envelopes that tie a payload to an identity.
//!
//! An inbound frame is a JSON object whose member `type` names the command.
//! A frame that is no JSON, has no such member, names no known command or
//! lacks what the named command needs is unreadable, whatever else it holds.

use crate::identity::Identity;
use crate::json::{
    json_model, json_parse, json_text, member, no_fields, object_document, parse_document, render,
    Fields, Json,
};
use crate::node::{
    decode_node, optional_text, read_optional_text, read_required_text, required_text, write_text,
    Node, NodeView,
};
use crate::text::{same_text, text_of_bytes, text_view};
use vstd::prelude::*;
use vstd::utf8::{decode_utf8, valid_utf8};

verus! {

/// A command that a client sends.
pub enum Command {
    /// Hands over the client's credentials.
    SetUserSettings { completion_key: Option<String>, store_address: String },
    /// Asks for the project's nodes and a sandbox.
    InitializeProject { initial_message: String },
    /// Asks for a node to be executed. The node carries its identifier.
    HandleNode { node: Node },
    /// Asks for a node to be stored under a new identifier.
    CreateNode { node: Node },
    /// Asks for a stored node to be changed. The node carries its identifier.
    UpdateNode { node: Node },
}

pub enum CommandView {
    SetUserSettings { completion_key: Option<Seq<char>>, store_address: Seq<char> },
    InitializeProject { initial_message: Seq<char> },
    HandleNode { node: NodeView },
    CreateNode { node: NodeView },
    UpdateNode { node: NodeView },
}

impl View for Command {
    type V = CommandView;

    open spec fn view(&self) -> CommandView {
        match self {
            Command::SetUserSettings { completion_key, store_address } => {
                CommandView::SetUserSettings {
                    completion_key: text_view(*completion_key),
                    store_address: store_address@,
                }
            },
            Command::InitializeProject { initial_message } => CommandView::InitializeProject {
                initial_message: initial_message@,
            },
            Command::HandleNode { node } => CommandView::HandleNode { node: node@ },
            Command::CreateNode { node } => CommandView::CreateNode { node: node@ },
            Command::UpdateNode { node } => CommandView::UpdateNode { node: node@ },
        }
    }
}

/// The node stored under `node`.
pub open spec fn node_member(doc: Json) -> Option<NodeView> {
    match doc.field("node"@) {
        Some(inner) => decode_node(inner),
        None => None,
    }
}

/// The node stored under `node`, where it carries an identifier.
pub open spec fn identified_node_member(doc: Json) -> Option<NodeView> {
    match node_member(doc) {
        Some(node) => if node.id is Some {
            Some(node)
        } else {
            None
        },
        None => None,
    }
}

/// The command that an object with the given `type` describes.
pub open spec fn decode_tagged(doc: Json, tag: Seq<char>) -> Option<CommandView> {
    if tag == "SetUserSettings"@ {
        match (optional_text(doc, "openai_api_key"@), required_text(doc, "mongo_db_uri"@)) {
            (Some(completion_key), Some(store_address)) => Some(
                CommandView::SetUserSettings { completion_key, store_address },
            ),
            _ => None,
        }
    } else if tag == "InitializeProject"@ {
        match required_text(doc, "initial_message"@) {
            Some(initial_message) => Some(CommandView::InitializeProject { initial_message }),
            None => None,
        }
    } else if tag == "HandleNode"@ {
        match identified_node_member(doc) {
            Some(node) => Some(CommandView::HandleNode { node }),
            None => None,
        }
    } else if tag == "CreateNode"@ {
        match node_member(doc) {
            Some(node) => Some(CommandView::CreateNode { node }),
            None => None,
        }
    } else if tag == "UpdateNode"@ {
        match identified_node_member(doc) {
            Some(node) => Some(CommandView::UpdateNode { node }),
            None => None,
        }
    } else {
        None
    }
}

/// The command that a JSON document describes, if it describes one.
pub open spec fn decode_command(doc: Json) -> Option<CommandView> {
    match required_text(doc, "type"@) {
        Some(tag) => decode_tagged(doc, tag),
        None => None,
    }
}

/// The command that a frame holds, if it holds one.
pub open spec fn decode_frame(text: Seq<char>) -> Option<CommandView> {
    match json_parse(text) {
        Some(doc) => decode_command(doc),
        None => None,
    }
}

/// Reads the node stored under `node`.
fn read_node_member(doc: &serde_json::Value) -> (found: Option<Node>)
    ensures
        match found {
            Some(node) => node_member(json_model(*doc)) == Some(node@),
            None => node_member(json_model(*doc)) is None,
        },
{
    match member(doc, "node") {
        Some(inner) => Node::from_document(inner),
        None => None,
    }
}

/// Reads the node stored under `node`, where it carries an identifier.
fn read_identified_node_member(doc: &serde_json::Value) -> (found: Option<Node>)
    ensures
        match found {
            Some(node) => identified_node_member(json_model(*doc)) == Some(node@),
            None => identified_node_member(json_model(*doc)) is None,
        },
{
    match read_node_member(doc) {
        Some(node) => if node.id.is_some() {
            Some(node)
        } else {
            None
        },
        None => None,
    }
}

impl Command {
    /// The command that a JSON document describes: `None` exactly where the
    /// document describes none.
    pub fn from_document(doc: &serde_json::Value) -> (found: Option<Command>)
        ensures
            match found {
                Some(command) => decode_command(json_model(*doc)) == Some(command@),
                None => decode_command(json_model(*doc)) is None,
            },
    {
        let tag = match read_required_text(doc, "type") {
            Some(tag) => tag,
            None => {
                return None;
            },
        };
        let tag = tag.as_str();
        if same_text(tag, "SetUserSettings") {
            let completion_key = match read_optional_text(doc, "openai_api_key") {
                Some(completion_key) => completion_key,
                None => {
                    return None;
                },
            };
            match read_required_text(doc, "mongo_db_uri") {
                Some(store_address) => Some(
                    Command::SetUserSettings { completion_key, store_address },
                ),
                None => None,
            }
        } else if same_text(tag, "InitializeProject") {
            match read_required_text(doc, "initial_message") {
                Some(initial_message) => Some(Command::InitializeProject { initial_message }),
                None => None,
            }
        } else if same_text(tag, "HandleNode") {
            match read_identified_node_member(doc) {
                Some(node) => Some(Command::HandleNode { node }),
                None => None,
            }
        } else if same_text(tag, "CreateNode") {
            match read_node_member(doc) {
                Some(node) => Some(Command::CreateNode { node }),
                None => None,
            }
        } else if same_text(tag, "UpdateNode") {
            match read_identified_node_member(doc) {
                Some(node) => Some(Command::UpdateNode { node }),
                None => None,
            }
        } else {
            None
        }
    }

    /// The command that a frame holds: `None` exactly where the frame is
    /// unreadable.
    pub fn decode(payload: &str) -> (found: Option<Command>)
        ensures
            match found {
                Some(command) => decode_frame(payload@) == Some(command@),
                None => decode_frame(payload@) is None,
            },
    {
        match parse_document(payload) {
            Some(doc) => Command::from_document(&doc),
            None => None,
        }
    }

    /// The name of the command, as the member `type` spells it.
    pub fn name(&self) -> (name: String)
        ensures
            name@ == command_name(self@),
    {
        match self {
            Command::SetUserSettings { .. } => "SetUserSettings".to_owned(),
            Command::InitializeProject { .. } => "InitializeProject".to_owned(),
            Command::HandleNode { .. } => "HandleNode".to_owned(),
            Command::CreateNode { .. } => "CreateNode".to_owned(),
            Command::UpdateNode { .. } => "UpdateNode".to_owned(),
        }
    }
}

/// The name of a command, as the member `type` spells it.
pub open spec fn command_name(command: CommandView) -> Seq<char> {
    match command {
        CommandView::SetUserSettings { .. } => "SetUserSettings"@,
        CommandView::InitializeProject { .. } => "InitializeProject"@,
        CommandView::HandleNode { .. } => "HandleNode"@,
        CommandView::CreateNode { .. } => "CreateNode"@,
        CommandView::UpdateNode { .. } => "UpdateNode"@,
    }
}

/// The result of one action: the identifier of the node or action it answers
/// and the text that came of it.
pub struct Response {
    pub action_id: String,
    pub response_text: String,
}

pub struct ResponseView {
    pub action_id: Seq<char>,
    pub response_text: Seq<char>,
}

impl View for Response {
    type V = ResponseView;

    open spec fn view(&self) -> ResponseView {
        ResponseView { action_id: self.action_id@, response_text: self.response_text@ }
    }
}

/// The JSON document that stands for a response.
pub open spec fn response_document(response: ResponseView) -> Json {
    Json::Object(
        Fields::empty().with("action_id"@, Json::Text(response.action_id)).with(
            "response_text"@,
            Json::Text(response.response_text),
        ),
    )
}

/// The response that a JSON document describes, if it describes one.
pub open spec fn decode_response(doc: Json) -> Option<ResponseView> {
    match (required_text(doc, "action_id"@), required_text(doc, "response_text"@)) {
        (Some(action_id), Some(response_text)) => Some(ResponseView { action_id, response_text }),
        _ => None,
    }
}

impl Response {
    /// The JSON document that stands for the response.
    pub fn to_document(&self) -> (doc: serde_json::Value)
        ensures
            json_model(doc) == response_document(self@),
    {
        let mut fields = no_fields();
        write_text(&mut fields, "action_id", &self.action_id);
        write_text(&mut fields, "response_text", &self.response_text);
        object_document(fields)
    }
}

/// Reading back the document that stands for a response gives that response.
pub proof fn lemma_response_round_trip(response: ResponseView)
    ensures
        decode_response(response_document(response)) == Some(response),
{
    reveal_strlit("action_id");
    reveal_strlit("response_text");
    assert("action_id"@.len() != "response_text"@.len());
}

/// A payload on its way in, with the identity of the connection it came from.
pub struct InboundEnvelope {
    pub identity: Identity,
    pub payload: String,
}

impl InboundEnvelope {
    /// Wraps a frame as it came off the connection of `identity`. A frame
    /// that is no well-formed UTF-8 gives no envelope.
    pub fn from_frame(identity: Identity, frame: Vec<u8>) -> (envelope: Option<InboundEnvelope>)
        ensures
            match envelope {
                Some(envelope) => valid_utf8(frame@) && envelope@ == (EnvelopeView {
                    identity: identity@,
                    payload: decode_utf8(frame@),
                }),
                None => !valid_utf8(frame@),
            },
    {
        match text_of_bytes(frame) {
            Some(payload) => Some(InboundEnvelope { identity, payload }),
            None => None,
        }
    }
}

/// A payload on its way out, with the identity of the connection it is for.
pub struct OutboundEnvelope {
    pub identity: Identity,
    pub payload: String,
}

pub struct EnvelopeView {
    pub identity: Seq<char>,
    pub payload: Seq<char>,
}

impl View for InboundEnvelope {
    type V = EnvelopeView;

    open spec fn view(&self) -> EnvelopeView {
        EnvelopeView { identity: self.identity@, payload: self.payload@ }
    }
}

impl View for OutboundEnvelope {
    type V = EnvelopeView;

    open spec fn view(&self) -> EnvelopeView {
        EnvelopeView { identity: self.identity@, payload: self.payload@ }
    }
}

/// The envelopes of a queue, by their content.
pub open spec fn envelopes_view(queue: Seq<OutboundEnvelope>) -> Seq<EnvelopeView> {
    queue.map_values(|envelope: OutboundEnvelope| envelope@)
}

/// Queues a JSON document for an identity: the compact text of the document
/// goes to the end of the queue, addressed to that identity, and what was
/// queued before stays as it was.
pub fn send_message(tx: &mut Vec<OutboundEnvelope>, identity: Identity, message: &serde_json::Value)
    ensures
        envelopes_view(final(tx)@) == envelopes_view(old(tx)@).push(
            EnvelopeView { identity: identity@, payload: json_text(json_model(*message)) },
        ),
{
    let payload = render(message);
    tx.push(OutboundEnvelope { identity, payload });
    assert(envelopes_view(tx@) =~= envelopes_view(old(tx)@).push(
        EnvelopeView { identity: identity@, payload: json_text(json_model(*message)) },
    ));
}

} // verus!
