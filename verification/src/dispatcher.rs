//! The dispatcher: the state machine that each session runs through, driven
//! by the commands of its client and by the replies of the outside world.
//!
//! `Unconfigured --SetUserSettings--> SettingsSet --InitializeProject-->
//! ProjectInitialized`, and there the session stays. A command that needs a
//! state which the session has not reached is answered with a response that
//! says so; nothing is dropped in silence but a frame that cannot be read.

use crate::engine::{
    addressed, after_chunk, after_execute, after_stream_end, answered, end_stream, execute,
    fault_response, gather_chunk, ignored, key_of, node_key, refuse, refused, request_view,
    respond, response_frame, Fault, Outcome, Request, RequestView,
};
use crate::identity::Identity;
use crate::json::json_text;
use crate::message::{
    command_name, decode_frame, envelopes_view, send_message, Command, CommandView, EnvelopeView,
    InboundEnvelope, OutboundEnvelope, Response, ResponseView,
};
use crate::node::{node_document, Node, NodeView};
use crate::object_id::{fresh_object_id, is_object_id};
use crate::session::{
    effective_credentials, Phase, ProcessSettings, ProcessSettingsView, Session, SessionRegistry,
    SessionView, Sessions, Stage,
};
use vstd::prelude::*;

verus! {

/// What the outside world answers to a request.
pub enum Reply {
    /// The document store handed over the current node set.
    NodesFetched { nodes: Vec<Node> },
    /// The sandbox runtime provisioned a sandbox.
    SandboxCreated { handle: String },
    /// The node set or the sandbox could not be had.
    InitializationFailed,
    /// The completion provider answered a prompt.
    Completed { node_id: String, text: String },
    /// The completion provider failed on a prompt.
    CompletionFailed { node_id: String },
    /// The running command put out a chunk.
    ExecChunk { chunk: String },
    /// The output stream of the running command ended.
    ExecEnded,
}

pub enum ReplyView {
    NodesFetched { nodes: Seq<NodeView> },
    SandboxCreated { handle: Seq<char> },
    InitializationFailed,
    Completed { node_id: Seq<char>, text: Seq<char> },
    CompletionFailed { node_id: Seq<char> },
    ExecChunk { chunk: Seq<char> },
    ExecEnded,
}

/// The nodes of a list, by their content.
pub open spec fn nodes_view(nodes: Seq<Node>) -> Seq<NodeView> {
    nodes.map_values(|node: Node| node@)
}

impl View for Reply {
    type V = ReplyView;

    open spec fn view(&self) -> ReplyView {
        match self {
            Reply::NodesFetched { nodes } => ReplyView::NodesFetched { nodes: nodes_view(nodes@) },
            Reply::SandboxCreated { handle } => ReplyView::SandboxCreated { handle: handle@ },
            Reply::InitializationFailed => ReplyView::InitializationFailed,
            Reply::Completed { node_id, text } => ReplyView::Completed {
                node_id: node_id@,
                text: text@,
            },
            Reply::CompletionFailed { node_id } => ReplyView::CompletionFailed {
                node_id: node_id@,
            },
            Reply::ExecChunk { chunk } => ReplyView::ExecChunk { chunk: chunk@ },
            Reply::ExecEnded => ReplyView::ExecEnded,
        }
    }
}

/// The status text that acknowledges settings.
pub open spec fn settings_acknowledgement() -> Seq<char> {
    "Settings received"@
}

/// The frame that carries a node.
pub open spec fn node_frame(node: NodeView) -> Seq<char> {
    json_text(node_document(node))
}

/// The frames that carry the nodes of a list, in order.
pub open spec fn node_frames(nodes: Seq<NodeView>) -> Seq<Seq<char>> {
    nodes.map_values(|node: NodeView| node_frame(node))
}

/// The session with one more payload in its history.
pub open spec fn logged(session: SessionView, payload: Seq<char>) -> SessionView {
    SessionView { history: session.history.push(payload), ..session }
}

/// The identifier under which a command is answered: that of its node for
/// `HandleNode`, the name of the command for every other.
pub open spec fn action_key(command: CommandView) -> Seq<char> {
    match command {
        CommandView::HandleNode { node } => node_key(node),
        _ => command_name(command),
    }
}

/// What a command does to the session of its identity. `fresh_id` is the
/// identifier under which `CreateNode` stores its node; no other command
/// looks at it.
pub open spec fn after_command(
    defaults: ProcessSettingsView,
    session: SessionView,
    payload: Seq<char>,
    command: CommandView,
    fresh_id: Seq<char>,
) -> Outcome {
    let session = logged(session, payload);
    match command {
        CommandView::SetUserSettings { completion_key, store_address } => Outcome {
            session: SessionView {
                credentials: Some(effective_credentials(defaults, completion_key, store_address)),
                ..session
            },
            frames: seq![settings_acknowledgement()],
            request: None,
        },
        CommandView::InitializeProject { .. } => if session.phase() == Phase::SettingsSet
            && session.stage == Stage::Idle {
            Outcome {
                session: SessionView { stage: Stage::FetchingNodes, ..session },
                frames: Seq::empty(),
                request: Some(
                    RequestView::FetchNodes { address: session.credentials->0.store_address },
                ),
            }
        } else {
            refused(session, action_key(command), Fault::UnauthorizedState)
        },
        CommandView::HandleNode { node } => if session.phase() == Phase::ProjectInitialized {
            after_execute(session, node)
        } else {
            refused(session, action_key(command), Fault::UnauthorizedState)
        },
        CommandView::CreateNode { node } => match session.credentials {
            Some(credentials) => Outcome {
                session,
                frames: Seq::empty(),
                request: Some(
                    RequestView::InsertNode {
                        address: credentials.store_address,
                        node: NodeView { id: Some(fresh_id), content: node.content },
                    },
                ),
            },
            None => refused(session, action_key(command), Fault::UnauthorizedState),
        },
        CommandView::UpdateNode { node } => match session.credentials {
            Some(credentials) => Outcome {
                session,
                frames: Seq::empty(),
                request: Some(
                    RequestView::UpdateNode { address: credentials.store_address, node },
                ),
            },
            None => refused(session, action_key(command), Fault::UnauthorizedState),
        },
    }
}

/// What a reply does to the session of its identity. A reply that the
/// session does not wait for changes nothing.
pub open spec fn after_reply(session: SessionView, reply: ReplyView) -> Outcome {
    match reply {
        ReplyView::NodesFetched { nodes } => if session.stage == Stage::FetchingNodes {
            Outcome {
                session: SessionView { stage: Stage::Provisioning, ..session },
                frames: node_frames(nodes),
                request: Some(RequestView::CreateSandbox),
            }
        } else {
            ignored(session)
        },
        ReplyView::SandboxCreated { handle } => if session.stage == Stage::Provisioning {
            ignored(SessionView { sandbox: Some(handle), stage: Stage::Idle, ..session })
        } else {
            ignored(session)
        },
        ReplyView::InitializationFailed => if session.stage != Stage::Idle {
            refused(
                SessionView { stage: Stage::Idle, ..session },
                "InitializeProject"@,
                Fault::InitializationFailed,
            )
        } else {
            ignored(session)
        },
        ReplyView::Completed { node_id, text } => answered(
            session,
            ResponseView { action_id: node_id, response_text: text },
        ),
        ReplyView::CompletionFailed { node_id } => refused(
            session,
            node_id,
            Fault::ProviderFailure,
        ),
        ReplyView::ExecChunk { chunk } => after_chunk(session, chunk),
        ReplyView::ExecEnded => after_stream_end(session),
    }
}

/// What handling one event leaves behind: the sessions after it, the frames
/// sent to the identity of the event, and the outside work asked for.
pub struct Handled {
    pub sessions: Sessions,
    pub frames: Seq<Seq<char>>,
    pub request: Option<RequestView>,
}

/// What a command of `identity` does to the sessions. A session is created
/// by `SetUserSettings` alone; any other command of an identity without a
/// session is turned down and creates none.
pub open spec fn command_handled(
    defaults: ProcessSettingsView,
    sessions: Sessions,
    identity: Seq<char>,
    payload: Seq<char>,
    command: CommandView,
    fresh_id: Seq<char>,
) -> Handled {
    if sessions.contains_key(identity) || command is SetUserSettings {
        let session = if sessions.contains_key(identity) {
            sessions[identity]
        } else {
            SessionView::fresh()
        };
        let outcome = after_command(defaults, session, payload, command, fresh_id);
        Handled {
            sessions: sessions.insert(identity, outcome.session),
            frames: outcome.frames,
            request: outcome.request,
        }
    } else {
        Handled {
            sessions,
            frames: seq![
                response_frame(fault_response(action_key(command), Fault::UnauthorizedState)),
            ],
            request: None,
        }
    }
}

/// What a reply for `identity` does to the sessions. A reply for an identity
/// without a session changes nothing.
pub open spec fn reply_handled(sessions: Sessions, identity: Seq<char>, reply: ReplyView) -> Handled {
    if sessions.contains_key(identity) {
        let outcome = after_reply(sessions[identity], reply);
        Handled {
            sessions: sessions.insert(identity, outcome.session),
            frames: outcome.frames,
            request: outcome.request,
        }
    } else {
        Handled { sessions, frames: Seq::empty(), request: None }
    }
}

/// The identifier under which a command is answered.
pub fn action_key_of(command: &Command) -> (key: String)
    ensures
        key@ == action_key(command@),
{
    match command {
        Command::HandleNode { node } => key_of(node),
        _ => command.name(),
    }
}

/// Queues the frames that carry the nodes of a list.
pub fn send_nodes(tx: &mut Vec<OutboundEnvelope>, identity: &Identity, nodes: &Vec<Node>)
    ensures
        envelopes_view(final(tx)@) == envelopes_view(old(tx)@) + addressed(
            identity@,
            node_frames(nodes_view(nodes@)),
        ),
{
    let ghost before = envelopes_view(tx@);
    let ghost frames = node_frames(nodes_view(nodes@));
    let mut i: usize = 0;
    assert(before + addressed(identity@, frames.take(0)) =~= before);
    while i < nodes.len()
        invariant
            i <= nodes.len(),
            frames == node_frames(nodes_view(nodes@)),
            envelopes_view(tx@) == before + addressed(identity@, frames.take(i as int)),
        decreases nodes.len() - i,
    {
        let doc = nodes[i].to_document();
        send_message(tx, identity.clone(), &doc);
        assert(before + addressed(identity@, frames.take(i as int + 1)) =~= (before + addressed(
            identity@,
            frames.take(i as int),
        )).push(EnvelopeView { identity: identity@, payload: frames[i as int] }));
        i += 1;
    }
    assert(frames.take(i as int) =~= frames);
}

/// Applies a command to the session of its identity: the session, the queue
/// of outbound envelopes and the request handed back are exactly what
/// `after_command` says, and every envelope added is addressed to
/// `identity`.
pub fn apply_command(
    session: &mut Session,
    defaults: &ProcessSettings,
    tx: &mut Vec<OutboundEnvelope>,
    identity: &Identity,
    payload: String,
    command: Command,
    fresh_id: String,
) -> (request: Option<Request>)
    ensures
        final(session)@ == after_command(
            defaults@,
            old(session)@,
            payload@,
            command@,
            fresh_id@,
        ).session,
        envelopes_view(final(tx)@) == envelopes_view(old(tx)@) + addressed(
            identity@,
            after_command(defaults@, old(session)@, payload@, command@, fresh_id@).frames,
        ),
        request_view(request) == after_command(
            defaults@,
            old(session)@,
            payload@,
            command@,
            fresh_id@,
        ).request,
{
    let ghost before = envelopes_view(tx@);
    proof {
        assert(before + addressed(identity@, Seq::empty()) =~= before);
    }
    session.history.push(payload);
    assert(session@ == logged(old(session)@, payload@)) by {
        assert(session@.history =~= old(session)@.history.push(payload@));
    }
    let key = action_key_of(&command);
    match command {
        Command::SetUserSettings { completion_key, store_address } => {
            session.credentials = Some(defaults.resolve(completion_key, store_address));
            tx.push(
                OutboundEnvelope {
                    identity: identity.clone(),
                    payload: "Settings received".to_owned(),
                },
            );
            assert(envelopes_view(tx@) =~= before + addressed(
                identity@,
                seq![settings_acknowledgement()],
            ));
            None
        },
        Command::InitializeProject { .. } => {
            let address = match &session.credentials {
                Some(credentials) => Some(credentials.store_address.clone()),
                None => None,
            };
            match address {
                Some(address) => {
                    if session.sandbox.is_none() && session.stage == Stage::Idle {
                        session.stage = Stage::FetchingNodes;
                        Some(Request::FetchNodes { address })
                    } else {
                        refuse(tx, identity, key, Fault::UnauthorizedState);
                        None
                    }
                },
                None => {
                    refuse(tx, identity, key, Fault::UnauthorizedState);
                    None
                },
            }
        },
        Command::HandleNode { node } => {
            if session.credentials.is_some() && session.sandbox.is_some() {
                execute(session, tx, identity, &node)
            } else {
                refuse(tx, identity, key, Fault::UnauthorizedState);
                None
            }
        },
        Command::CreateNode { node } => {
            let address = match &session.credentials {
                Some(credentials) => Some(credentials.store_address.clone()),
                None => None,
            };
            match address {
                Some(address) => Some(
                    Request::InsertNode {
                        address,
                        node: Node { id: Some(fresh_id), content: node.content },
                    },
                ),
                None => {
                    refuse(tx, identity, key, Fault::UnauthorizedState);
                    None
                },
            }
        },
        Command::UpdateNode { node } => {
            let address = match &session.credentials {
                Some(credentials) => Some(credentials.store_address.clone()),
                None => None,
            };
            match address {
                Some(address) => Some(Request::UpdateNode { address, node }),
                None => {
                    refuse(tx, identity, key, Fault::UnauthorizedState);
                    None
                },
            }
        },
    }
}

/// Applies a reply to the session of its identity: the session, the queue of
/// outbound envelopes and the request handed back are exactly what
/// `after_reply` says, and every envelope added is addressed to `identity`.
pub fn apply_reply(
    session: &mut Session,
    tx: &mut Vec<OutboundEnvelope>,
    identity: &Identity,
    reply: Reply,
) -> (request: Option<Request>)
    ensures
        final(session)@ == after_reply(old(session)@, reply@).session,
        envelopes_view(final(tx)@) == envelopes_view(old(tx)@) + addressed(
            identity@,
            after_reply(old(session)@, reply@).frames,
        ),
        request_view(request) == after_reply(old(session)@, reply@).request,
{
    let ghost before = envelopes_view(tx@);
    proof {
        assert(before + addressed(identity@, Seq::empty()) =~= before);
    }
    match reply {
        Reply::NodesFetched { nodes } => {
            if session.stage == Stage::FetchingNodes {
                session.stage = Stage::Provisioning;
                send_nodes(tx, identity, &nodes);
                Some(Request::CreateSandbox)
            } else {
                None
            }
        },
        Reply::SandboxCreated { handle } => {
            if session.stage == Stage::Provisioning {
                session.sandbox = Some(handle);
                session.stage = Stage::Idle;
            }
            None
        },
        Reply::InitializationFailed => {
            if session.stage != Stage::Idle {
                session.stage = Stage::Idle;
                refuse(
                    tx,
                    identity,
                    "InitializeProject".to_owned(),
                    Fault::InitializationFailed,
                );
            }
            None
        },
        Reply::Completed { node_id, text } => {
            let response = Response { action_id: node_id, response_text: text };
            respond(tx, identity, &response);
            None
        },
        Reply::CompletionFailed { node_id } => {
            refuse(tx, identity, node_id, Fault::ProviderFailure);
            None
        },
        Reply::ExecChunk { chunk } => {
            gather_chunk(session, chunk.as_str());
            None
        },
        Reply::ExecEnded => end_stream(session, tx, identity),
    }
}

/// The dispatcher: the process-wide settings and the sessions.
pub struct Dispatcher {
    defaults: ProcessSettings,
    sessions: SessionRegistry,
}

impl Dispatcher {
    /// Whether the dispatcher is well formed: no identity has two sessions.
    pub closed spec fn wf(&self) -> bool {
        self.sessions.wf()
    }

    /// The settings that the process was configured with.
    pub closed spec fn defaults(&self) -> ProcessSettingsView {
        self.defaults@
    }

    /// The sessions of every identity that has one.
    pub closed spec fn sessions(&self) -> Sessions {
        self.sessions@
    }

    /// The dispatcher of a process configured with `defaults`, before any
    /// client has sent anything.
    pub fn new(defaults: ProcessSettings) -> (dispatcher: Dispatcher)
        ensures
            dispatcher.wf(),
            dispatcher.defaults() == defaults@,
            dispatcher.sessions() == Sessions::empty(),
    {
        Dispatcher { defaults, sessions: SessionRegistry::new() }
    }

    /// The session of `identity`, if it has one.
    pub fn session(&self, identity: &Identity) -> (found: Option<&Session>)
        requires
            self.wf(),
        ensures
            match found {
                Some(session) => self.sessions().contains_key(identity@) && session@
                    == self.sessions()[identity@],
                None => !self.sessions().contains_key(identity@),
            },
    {
        self.sessions.get(identity)
    }

    /// Handles one command of `identity`, read from `payload`. The sessions,
    /// the queue of outbound envelopes and the request handed back are
    /// exactly what `command_handled` says; every envelope added is addressed
    /// to `identity`, and no session but that of `identity` is touched.
    pub fn handle_command(
        &mut self,
        tx: &mut Vec<OutboundEnvelope>,
        identity: &Identity,
        payload: String,
        command: Command,
        fresh_id: String,
    ) -> (request: Option<Request>)
        requires
            old(self).wf(),
        ensures
            final(self).wf(),
            final(self).defaults() == old(self).defaults(),
            final(self).sessions() == command_handled(
                old(self).defaults(),
                old(self).sessions(),
                identity@,
                payload@,
                command@,
                fresh_id@,
            ).sessions,
            envelopes_view(final(tx)@) == envelopes_view(old(tx)@) + addressed(
                identity@,
                command_handled(
                    old(self).defaults(),
                    old(self).sessions(),
                    identity@,
                    payload@,
                    command@,
                    fresh_id@,
                ).frames,
            ),
            request_view(request) == command_handled(
                old(self).defaults(),
                old(self).sessions(),
                identity@,
                payload@,
                command@,
                fresh_id@,
            ).request,
    {
        let creates = match &command {
            Command::SetUserSettings { .. } => true,
            _ => false,
        };
        if creates || self.sessions.contains(identity) {
            let session = self.sessions.get_or_create(identity);
            apply_command(session, &self.defaults, tx, identity, payload, command, fresh_id)
        } else {
            refuse(tx, identity, action_key_of(&command), Fault::UnauthorizedState);
            None
        }
    }

    /// Handles one inbound envelope. A frame that cannot be read is dropped:
    /// nothing changes, nothing is sent and nothing is asked for. A frame
    /// that holds a command is handled as `handle_command` says, with a
    /// newly drawn object identifier where the command is `CreateNode`.
    pub fn dispatch(&mut self, tx: &mut Vec<OutboundEnvelope>, envelope: InboundEnvelope) -> (request:
        Option<Request>)
        requires
            old(self).wf(),
        ensures
            final(self).wf(),
            final(self).defaults() == old(self).defaults(),
            match decode_frame(envelope@.payload) {
                Some(command) => exists|fresh_id: Seq<char>|
                    {
                        &&& command is CreateNode ==> is_object_id(fresh_id)
                        &&& carried_out(
                            envelopes_view(old(tx)@),
                            final(self).sessions(),
                            envelopes_view(final(tx)@),
                            request_view(request),
                            envelope@.identity,
                            #[trigger] command_handled(
                                old(self).defaults(),
                                old(self).sessions(),
                                envelope@.identity,
                                envelope@.payload,
                                command,
                                fresh_id,
                            ),
                        )
                    },
                None => {
                    &&& final(self).sessions() == old(self).sessions()
                    &&& envelopes_view(final(tx)@) == envelopes_view(old(tx)@)
                    &&& request is None
                },
            },
    {
        let ghost inbound = envelope@;
        let InboundEnvelope { identity, payload } = envelope;
        assert(identity@ == inbound.identity && payload@ == inbound.payload);
        match Command::decode(payload.as_str()) {
            Some(command) => {
                let fresh_id = match &command {
                    Command::CreateNode { .. } => fresh_object_id(),
                    _ => String::new(),
                };
                let ghost witness = fresh_id@;
                let ghost handled = command_handled(
                    self.defaults(),
                    self.sessions(),
                    inbound.identity,
                    inbound.payload,
                    decode_frame(inbound.payload)->0,
                    witness,
                );
                let request = self.handle_command(tx, &identity, payload, command, fresh_id);
                assert(carried_out(
                    envelopes_view(old(tx)@),
                    self.sessions(),
                    envelopes_view(tx@),
                    request_view(request),
                    inbound.identity,
                    handled,
                ));
                request
            },
            None => None,
        }
    }

    /// Handles one reply of the outside world to a request made for
    /// `identity`. The sessions, the queue of outbound envelopes and the
    /// request handed back are exactly what `reply_handled` says.
    pub fn resume(&mut self, tx: &mut Vec<OutboundEnvelope>, identity: &Identity, reply: Reply) -> (request:
        Option<Request>)
        requires
            old(self).wf(),
        ensures
            final(self).wf(),
            final(self).defaults() == old(self).defaults(),
            carried_out(
                envelopes_view(old(tx)@),
                final(self).sessions(),
                envelopes_view(final(tx)@),
                request_view(request),
                identity@,
                reply_handled(old(self).sessions(), identity@, reply@),
            ),
    {
        if self.sessions.contains(identity) {
            let session = self.sessions.get_or_create(identity);
            apply_reply(session, tx, identity, reply)
        } else {
            assert(envelopes_view(tx@) + addressed(identity@, Seq::empty()) =~= envelopes_view(
                tx@,
            ));
            None
        }
    }
}

/// Whether an event was carried out as `handled` says: the sessions are
/// those of `handled`, the queue of outbound envelopes grew by its frames,
/// each addressed to `identity`, and the request is its request.
pub open spec fn carried_out(
    queue_before: Seq<EnvelopeView>,
    sessions_after: Sessions,
    queue_after: Seq<EnvelopeView>,
    request: Option<RequestView>,
    identity: Seq<char>,
    handled: Handled,
) -> bool {
    &&& sessions_after == handled.sessions
    &&& queue_after == queue_before + addressed(identity, handled.frames)
    &&& request == handled.request
}

} // verus!
