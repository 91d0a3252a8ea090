//! The node execution engine: what executing a node asks of the outside
//! world, and what becomes of the answers.
//!
//! The engine never waits. Executing a node either answers at once or hands
//! back a request for outside work; the answer to that work comes in later as
//! a reply. Commands of one session run one at a time: a command that
//! arrives while another occupies the sandbox waits in the session's queue
//! and starts when the output stream of the one before it has ended. The
//! one response of a command carries its whole output: the chunks of the
//! stream, joined by newlines.

use crate::identity::Identity;
use crate::json::json_text;
use crate::message::{
    envelopes_view, response_document, send_message, EnvelopeView, OutboundEnvelope, Response,
    ResponseView,
};
use crate::node::{Node, NodeContent, NodeContentView, NodeView};
use crate::session::{Queued, QueuedView, Running, RunningView, Session, SessionView};
use crate::text::{text_view, texts_view};
use vstd::prelude::*;
use vstd::string::StringExecFns;

verus! {

/// Who speaks in a transcript.
#[derive(Clone, Copy, Debug, PartialEq, Eq, Structural)]
pub enum Role {
    System,
    User,
}

/// One message of a transcript for the completion provider.
pub struct ChatMessage {
    pub role: Role,
    pub content: String,
}

pub struct ChatMessageView {
    pub role: Role,
    pub content: Seq<char>,
}

impl View for ChatMessage {
    type V = ChatMessageView;

    open spec fn view(&self) -> ChatMessageView {
        ChatMessageView { role: self.role, content: self.content@ }
    }
}

/// The messages of a transcript, by their content.
pub open spec fn transcript_view(transcript: Seq<ChatMessage>) -> Seq<ChatMessageView> {
    transcript.map_values(|message: ChatMessage| message@)
}

/// Outside work that the core asks its host to perform for one identity.
pub enum Request {
    /// Fetch the current node set from the document store.
    FetchNodes { address: String },
    /// Provision a sandbox.
    CreateSandbox,
    /// Ask the completion provider to continue a transcript.
    Complete { node_id: String, transcript: Vec<ChatMessage>, credential: String },
    /// Run a shell command in a sandbox and stream its output back.
    Exec { node_id: String, sandbox: String, command: String },
    /// Store a node in the document store.
    InsertNode { address: String, node: Node },
    /// Change a stored node in the document store.
    UpdateNode { address: String, node: Node },
}

pub enum RequestView {
    FetchNodes { address: Seq<char> },
    CreateSandbox,
    Complete { node_id: Seq<char>, transcript: Seq<ChatMessageView>, credential: Seq<char> },
    Exec { node_id: Seq<char>, sandbox: Seq<char>, command: Seq<char> },
    InsertNode { address: Seq<char>, node: NodeView },
    UpdateNode { address: Seq<char>, node: NodeView },
}

impl View for Request {
    type V = RequestView;

    open spec fn view(&self) -> RequestView {
        match self {
            Request::FetchNodes { address } => RequestView::FetchNodes { address: address@ },
            Request::CreateSandbox => RequestView::CreateSandbox,
            Request::Complete { node_id, transcript, credential } => RequestView::Complete {
                node_id: node_id@,
                transcript: transcript_view(transcript@),
                credential: credential@,
            },
            Request::Exec { node_id, sandbox, command } => RequestView::Exec {
                node_id: node_id@,
                sandbox: sandbox@,
                command: command@,
            },
            Request::InsertNode { address, node } => RequestView::InsertNode {
                address: address@,
                node: node@,
            },
            Request::UpdateNode { address, node } => RequestView::UpdateNode {
                address: address@,
                node: node@,
            },
        }
    }
}

/// The request that may have been made, by its content.
pub open spec fn request_view(request: Option<Request>) -> Option<RequestView> {
    match request {
        Some(request) => Some(request@),
        None => None,
    }
}

/// Why a command was turned down. Each of these is answered with a response
/// to the client and leaves the session usable.
#[derive(Clone, Copy, Debug, PartialEq, Eq, Structural)]
pub enum Fault {
    /// The session has not reached the state that the command needs.
    UnauthorizedState,
    /// A prompt was to run without a completion credential.
    MissingCredential,
    /// A command was to run without a sandbox.
    MissingSandbox,
    /// The completion provider failed.
    ProviderFailure,
    /// The node set or the sandbox could not be had.
    InitializationFailed,
    /// The node is of a kind that cannot be executed.
    UnsupportedNode,
}

/// The text that reports a fault to the client.
pub open spec fn fault_text(fault: Fault) -> Seq<char> {
    match fault {
        Fault::UnauthorizedState => "error: unauthorized state"@,
        Fault::MissingCredential => "error: missing credential"@,
        Fault::MissingSandbox => "error: missing sandbox"@,
        Fault::ProviderFailure => "error: provider failure"@,
        Fault::InitializationFailed => "error: initialization failed"@,
        Fault::UnsupportedNode => "error: unsupported node"@,
    }
}

impl Fault {
    /// The text that reports the fault to the client.
    pub fn text(&self) -> (text: String)
        ensures
            text@ == fault_text(*self),
    {
        match self {
            Fault::UnauthorizedState => "error: unauthorized state".to_owned(),
            Fault::MissingCredential => "error: missing credential".to_owned(),
            Fault::MissingSandbox => "error: missing sandbox".to_owned(),
            Fault::ProviderFailure => "error: provider failure".to_owned(),
            Fault::InitializationFailed => "error: initialization failed".to_owned(),
            Fault::UnsupportedNode => "error: unsupported node".to_owned(),
        }
    }
}

/// The frame that carries a response.
pub open spec fn response_frame(response: ResponseView) -> Seq<char> {
    json_text(response_document(response))
}

/// The response that reports a fault about the action `action_id`.
pub open spec fn fault_response(action_id: Seq<char>, fault: Fault) -> ResponseView {
    ResponseView { action_id, response_text: fault_text(fault) }
}

/// What one step leaves behind: the session after it, the frames it sends to
/// the session's identity, in order, and the outside work it asks for.
pub struct Outcome {
    pub session: SessionView,
    pub frames: Seq<Seq<char>>,
    pub request: Option<RequestView>,
}

/// The step that changes nothing and says nothing.
pub open spec fn ignored(session: SessionView) -> Outcome {
    Outcome { session, frames: Seq::empty(), request: None }
}

/// The step that answers with one response and asks for nothing.
pub open spec fn answered(session: SessionView, response: ResponseView) -> Outcome {
    Outcome { session, frames: seq![response_frame(response)], request: None }
}

/// The step that turns an action down.
pub open spec fn refused(session: SessionView, action_id: Seq<char>, fault: Fault) -> Outcome {
    answered(session, fault_response(action_id, fault))
}

/// The frames of a step as envelopes for the session's identity.
pub open spec fn addressed(identity: Seq<char>, frames: Seq<Seq<char>>) -> Seq<EnvelopeView> {
    frames.map_values(|payload: Seq<char>| EnvelopeView { identity, payload })
}

/// The identifier under which a node is answered.
pub open spec fn node_key(node: NodeView) -> Seq<char> {
    match node.id {
        Some(id) => id,
        None => Seq::empty(),
    }
}

/// The transcript of a prompt: the system text, or the empty text where the
/// node has none, and then the prompt itself as the user's message.
pub open spec fn prompt_transcript(system: Option<Seq<char>>, prompt: Seq<char>) -> Seq<
    ChatMessageView,
> {
    seq![
        ChatMessageView {
            role: Role::System,
            content: match system {
                Some(text) => text,
                None => Seq::empty(),
            },
        },
        ChatMessageView { role: Role::User, content: prompt },
    ]
}

/// The completion key of a session.
pub open spec fn completion_key(session: SessionView) -> Option<Seq<char>> {
    match session.credentials {
        Some(credentials) => credentials.completion_key,
        None => None,
    }
}

/// The command in flight when the sandbox is entered with nothing gathered.
pub open spec fn started(node_id: Seq<char>) -> RunningView {
    RunningView { node_id, chunks: Seq::empty() }
}

/// What executing a node does to a session.
pub open spec fn after_execute(session: SessionView, node: NodeView) -> Outcome {
    match node.content {
        NodeContentView::Prompt { system, prompt } => match completion_key(session) {
            Some(credential) => Outcome {
                session,
                frames: Seq::empty(),
                request: Some(
                    RequestView::Complete {
                        node_id: node_key(node),
                        transcript: prompt_transcript(system, prompt),
                        credential,
                    },
                ),
            },
            None => refused(session, node_key(node), Fault::MissingCredential),
        },
        NodeContentView::Command { command } => match session.sandbox {
            Some(sandbox) => if session.running is Some {
                Outcome {
                    session: SessionView {
                        waiting: session.waiting.push(
                            QueuedView { node_id: node_key(node), command },
                        ),
                        ..session
                    },
                    frames: Seq::empty(),
                    request: None,
                }
            } else {
                Outcome {
                    session: SessionView { running: Some(started(node_key(node))), ..session },
                    frames: Seq::empty(),
                    request: Some(
                        RequestView::Exec { node_id: node_key(node), sandbox, command },
                    ),
                }
            },
            None => refused(session, node_key(node), Fault::MissingSandbox),
        },
        NodeContentView::Conditional { .. } => refused(
            session,
            node_key(node),
            Fault::UnsupportedNode,
        ),
        NodeContentView::Process { .. } => refused(session, node_key(node), Fault::UnsupportedNode),
    }
}

/// The chunks of an output stream joined by newlines: one newline between
/// every two chunks, none before the first and none after the last. No
/// chunks give the empty text.
pub open spec fn joined(chunks: Seq<Seq<char>>) -> Seq<char>
    decreases chunks.len(),
{
    if chunks.len() == 0 {
        Seq::empty()
    } else if chunks.len() == 1 {
        chunks[0]
    } else {
        joined(chunks.drop_last()).push('\n') + chunks.last()
    }
}

/// What a chunk of output does to a session: it is kept behind the chunks
/// that the running command has put out so far. Without a running command
/// the chunk is dropped.
pub open spec fn after_chunk(session: SessionView, chunk: Seq<char>) -> Outcome {
    match session.running {
        Some(running) => ignored(
            SessionView {
                running: Some(
                    RunningView { node_id: running.node_id, chunks: running.chunks.push(chunk) },
                ),
                ..session
            },
        ),
        None => ignored(session),
    }
}

/// What the end of the output stream does to a session: the chunks of the
/// stream, joined by newlines, go out as the one response of the command,
/// and the oldest waiting command, if there is one, enters the sandbox.
pub open spec fn after_stream_end(session: SessionView) -> Outcome {
    match session.running {
        Some(running) => {
            let response = ResponseView {
                action_id: running.node_id,
                response_text: joined(running.chunks),
            };
            if session.waiting.len() > 0 && session.sandbox is Some {
                let next = session.waiting[0];
                Outcome {
                    session: SessionView {
                        running: Some(started(next.node_id)),
                        waiting: session.waiting.drop_first(),
                        ..session
                    },
                    frames: seq![response_frame(response)],
                    request: Some(
                        RequestView::Exec {
                            node_id: next.node_id,
                            sandbox: session.sandbox->0,
                            command: next.command,
                        },
                    ),
                }
            } else {
                answered(SessionView { running: None, ..session }, response)
            }
        },
        None => ignored(session),
    }
}

/// Joins the chunks of an output stream by newlines.
pub fn join_chunks(chunks: &Vec<String>) -> (text: String)
    ensures
        text@ == joined(texts_view(chunks@)),
{
    let ghost all = texts_view(chunks@);
    proof {
        reveal_strlit("\n");
        assert("\n"@ =~= seq!['\n']);
    }
    let mut text = String::new();
    let mut i: usize = 0;
    while i < chunks.len()
        invariant
            i <= chunks.len(),
            all == texts_view(chunks@),
            "\n"@ == seq!['\n'],
            text@ == joined(all.take(i as int)),
        decreases chunks.len() - i,
    {
        let ghost so_far = text@;
        if i > 0 {
            text.append("\n");
        }
        text.append(chunks[i].as_str());
        proof {
            let next = all.take(i as int + 1);
            assert(next.drop_last() =~= all.take(i as int));
            assert(next.last() == chunks@[i as int]@);
            if i > 0 {
                assert(text@ =~= so_far.push('\n') + chunks@[i as int]@);
            } else {
                assert(so_far =~= Seq::<char>::empty());
                assert(text@ =~= chunks@[i as int]@);
                assert(next[0] == chunks@[i as int]@);
            }
        }
        i += 1;
    }
    assert(all.take(i as int) =~= all);
    text
}

/// Queues a response for an identity.
pub fn respond(tx: &mut Vec<OutboundEnvelope>, identity: &Identity, response: &Response)
    ensures
        envelopes_view(final(tx)@) == envelopes_view(old(tx)@) + addressed(
            identity@,
            seq![response_frame(response@)],
        ),
{
    let doc = response.to_document();
    send_message(tx, identity.clone(), &doc);
    assert(envelopes_view(tx@) =~= envelopes_view(old(tx)@) + addressed(
        identity@,
        seq![response_frame(response@)],
    ));
}

/// Queues the response that reports a fault about the action `action_id`.
pub fn refuse(tx: &mut Vec<OutboundEnvelope>, identity: &Identity, action_id: String, fault: Fault)
    ensures
        envelopes_view(final(tx)@) == envelopes_view(old(tx)@) + addressed(
            identity@,
            seq![response_frame(fault_response(action_id@, fault))],
        ),
{
    let response = Response { action_id, response_text: fault.text() };
    respond(tx, identity, &response);
}

/// The identifier under which a node is answered.
pub fn key_of(node: &Node) -> (key: String)
    ensures
        key@ == node_key(node@),
{
    match &node.id {
        Some(id) => id.clone(),
        None => String::new(),
    }
}

/// The transcript of a prompt.
pub fn build_transcript(system: &Option<String>, prompt: &String) -> (transcript: Vec<ChatMessage>)
    ensures
        transcript_view(transcript@) == prompt_transcript(
            text_view(*system),
            prompt@,
        ),
{
    let system_text = match system {
        Some(text) => text.clone(),
        None => String::new(),
    };
    let mut transcript: Vec<ChatMessage> = Vec::new();
    transcript.push(ChatMessage { role: Role::System, content: system_text });
    transcript.push(ChatMessage { role: Role::User, content: prompt.clone() });
    assert(transcript_view(transcript@) =~= prompt_transcript(
        text_view(*system),
        prompt@,
    ));
    transcript
}

/// Executes a node for a session: the session, the queue of outbound
/// envelopes and the request handed back are exactly what `after_execute`
/// says, and every envelope added is addressed to `identity`.
pub fn execute(
    session: &mut Session,
    tx: &mut Vec<OutboundEnvelope>,
    identity: &Identity,
    node: &Node,
) -> (request: Option<Request>)
    ensures
        final(session)@ == after_execute(old(session)@, node@).session,
        envelopes_view(final(tx)@) == envelopes_view(old(tx)@) + addressed(
            identity@,
            after_execute(old(session)@, node@).frames,
        ),
        request_view(request) == after_execute(old(session)@, node@).request,
{
    let ghost before = envelopes_view(tx@);
    proof {
        assert(before + addressed(identity@, Seq::empty()) =~= before);
    }
    match &node.content {
        NodeContent::Prompt { system, prompt } => {
            let credential = match &session.credentials {
                Some(credentials) => match &credentials.completion_key {
                    Some(key) => Some(key.clone()),
                    None => None,
                },
                None => None,
            };
            match credential {
                Some(credential) => Some(
                    Request::Complete {
                        node_id: key_of(node),
                        transcript: build_transcript(system, prompt),
                        credential,
                    },
                ),
                None => {
                    refuse(tx, identity, key_of(node), Fault::MissingCredential);
                    None
                },
            }
        },
        NodeContent::Command { command } => {
            let sandbox = match &session.sandbox {
                Some(handle) => Some(handle.clone()),
                None => None,
            };
            match sandbox {
                Some(sandbox) => {
                    if session.running.is_some() {
                        session.waiting.push(
                            Queued { node_id: key_of(node), command: command.clone() },
                        );
                        assert(session@.waiting =~= old(session)@.waiting.push(
                            QueuedView { node_id: node_key(node@), command: command@ },
                        ));
                        None
                    } else {
                        session.running = Some(
                            Running { node_id: key_of(node), chunks: Vec::new() },
                        );
                        assert(texts_view(Seq::<String>::empty()) =~= Seq::<
                            Seq<char>,
                        >::empty());
                        Some(
                            Request::Exec {
                                node_id: key_of(node),
                                sandbox,
                                command: command.clone(),
                            },
                        )
                    }
                },
                None => {
                    refuse(tx, identity, key_of(node), Fault::MissingSandbox);
                    None
                },
            }
        },
        NodeContent::Conditional { .. } => {
            refuse(tx, identity, key_of(node), Fault::UnsupportedNode);
            None
        },
        NodeContent::Process { .. } => {
            refuse(tx, identity, key_of(node), Fault::UnsupportedNode);
            None
        },
    }
}

/// Keeps a chunk of output for the running command.
pub fn gather_chunk(session: &mut Session, chunk: &str)
    ensures
        final(session)@ == after_chunk(old(session)@, chunk@).session,
{
    match &mut session.running {
        Some(running) => {
            let ghost kept = running.chunks@;
            running.chunks.push(chunk.to_owned());
            assert(texts_view(running.chunks@) =~= texts_view(kept).push(chunk@));
        },
        None => {},
    }
}

/// Ends the output stream of the running command: its chunks, joined by
/// newlines, go out as one response, and the oldest waiting command enters
/// the sandbox.
pub fn end_stream(session: &mut Session, tx: &mut Vec<OutboundEnvelope>, identity: &Identity) -> (request:
    Option<Request>)
    ensures
        final(session)@ == after_stream_end(old(session)@).session,
        envelopes_view(final(tx)@) == envelopes_view(old(tx)@) + addressed(
            identity@,
            after_stream_end(old(session)@).frames,
        ),
        request_view(request) == after_stream_end(old(session)@).request,
{
    let ghost before = envelopes_view(tx@);
    proof {
        assert(before + addressed(identity@, Seq::empty()) =~= before);
    }
    let finished = match session.running.take() {
        Some(running) => running,
        None => {
            return None;
        },
    };
    let response = Response {
        action_id: finished.node_id,
        response_text: join_chunks(&finished.chunks),
    };
    respond(tx, identity, &response);
    let sandbox = match &session.sandbox {
        Some(handle) => Some(handle.clone()),
        None => None,
    };
    match sandbox {
        Some(sandbox) => {
            if session.waiting.len() > 0 {
                let next = session.waiting.remove(0);
                assert(session@.waiting =~= old(session)@.waiting.drop_first());
                session.running = Some(
                    Running { node_id: next.node_id.clone(), chunks: Vec::new() },
                );
                assert(texts_view(Seq::<String>::empty()) =~= Seq::<Seq<char>>::empty());
                Some(Request::Exec { node_id: next.node_id, sandbox, command: next.command })
            } else {
                None
            }
        },
        None => None,
    }
}

} // verus!
