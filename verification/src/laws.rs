//! What holds of every session, whatever the clients send and whatever the
//! outside world answers. Each statement is proved from the definitions of
//! the steps in the engine and the dispatcher.

use crate::dispatcher::{
    after_command, after_reply, command_handled, logged, reply_handled, ReplyView,
};
use crate::engine::{
    after_chunk, after_execute, after_stream_end, completion_key, fault_response, joined,
    node_key, response_frame, started, Fault, RequestView,
};
use crate::message::{CommandView, ResponseView};
use crate::node::NodeView;
use crate::session::{
    Phase, ProcessSettingsView, QueuedView, RunningView, SessionView, Sessions,
};
use vstd::prelude::*;

verus! {

/// The rank of a state in the order in which a session passes through them.
pub open spec fn phase_rank(phase: Phase) -> int {
    match phase {
        Phase::Unconfigured => 0,
        Phase::SettingsSet => 1,
        Phase::ProjectInitialized => 2,
    }
}

/// The session after a list of output chunks has been gathered, in order.
pub open spec fn after_chunks(session: SessionView, chunks: Seq<Seq<char>>) -> SessionView
    decreases chunks.len(),
{
    if chunks.len() == 0 {
        session
    } else {
        after_chunk(after_chunks(session, chunks.drop_last()), chunks.last()).session
    }
}

/// A node is executed only for a session that has reached
/// `ProjectInitialized`. In any earlier state `HandleNode` asks for no
/// outside work and is answered with exactly one response, which carries the
/// node's identifier and reports the unauthorized state; the session itself
/// is left as it was, but for the payload in its history.
pub proof fn lemma_handle_node_needs_initialized_project(
    defaults: ProcessSettingsView,
    session: SessionView,
    payload: Seq<char>,
    node: NodeView,
    fresh_id: Seq<char>,
)
    ensures
        after_command(
            defaults,
            session,
            payload,
            CommandView::HandleNode { node },
            fresh_id,
        ).request is Some ==> session.phase() == Phase::ProjectInitialized,
        session.phase() != Phase::ProjectInitialized ==> {
            let outcome = after_command(
                defaults,
                session,
                payload,
                CommandView::HandleNode { node },
                fresh_id,
            );
            &&& outcome.request is None
            &&& outcome.session == logged(session, payload)
            &&& outcome.frames == seq![
                response_frame(fault_response(node_key(node), Fault::UnauthorizedState)),
            ]
        },
{
}

/// `HandleNode` from an identity that has no session is answered with exactly
/// one response, which carries the node's identifier and reports the
/// unauthorized state. No session is created and no outside work is asked
/// for.
pub proof fn lemma_handle_node_without_session(
    defaults: ProcessSettingsView,
    sessions: Sessions,
    identity: Seq<char>,
    payload: Seq<char>,
    node: NodeView,
    fresh_id: Seq<char>,
)
    requires
        !sessions.contains_key(identity),
    ensures
        ({
            let handled = command_handled(
                defaults,
                sessions,
                identity,
                payload,
                CommandView::HandleNode { node },
                fresh_id,
            );
            &&& handled.sessions == sessions
            &&& handled.request is None
            &&& handled.frames == seq![
                response_frame(fault_response(node_key(node), Fault::UnauthorizedState)),
            ]
        }),
{
}

/// A prompt executed for a session without a completion credential is
/// answered with exactly one response, which carries the node's identifier
/// and reports the missing credential. No outside work is asked for and the
/// session is left exactly as it was.
pub proof fn lemma_prompt_needs_credential(session: SessionView, node: NodeView)
    requires
        node.content is Prompt,
        completion_key(session) is None,
    ensures
        after_execute(session, node).request is None,
        after_execute(session, node).session == session,
        after_execute(session, node).frames == seq![
            response_frame(fault_response(node_key(node), Fault::MissingCredential)),
        ],
{
}

/// A command enters the sandbox only while no other command occupies it: a
/// step that is set off by a client's command asks for an execution only if
/// nothing ran before the step.
pub proof fn lemma_command_starts_in_free_sandbox(
    defaults: ProcessSettingsView,
    session: SessionView,
    payload: Seq<char>,
    command: CommandView,
    fresh_id: Seq<char>,
)
    ensures
        after_command(defaults, session, payload, command, fresh_id).request matches Some(
            RequestView::Exec { .. },
        ) ==> session.running is None,
{
}

/// A reply sets off an execution only if it is the end of the output stream
/// of the command that ran: the next command starts after the one before it
/// has fully ended, and at no other time.
pub proof fn lemma_reply_starts_next_at_stream_end(session: SessionView, reply: ReplyView)
    ensures
        after_reply(session, reply).request matches Some(RequestView::Exec { .. }) ==> reply
            is ExecEnded && session.running is Some,
{
}

/// Gathering chunks changes nothing of a session but what the running
/// command has put out, which grows by the chunks, in order.
pub proof fn lemma_chunks_are_gathered(session: SessionView, chunks: Seq<Seq<char>>)
    requires
        session.running is Some,
    ensures
        after_chunks(session, chunks) == (SessionView {
            running: Some(
                RunningView {
                    node_id: session.running->0.node_id,
                    chunks: session.running->0.chunks + chunks,
                },
            ),
            ..session
        }),
    decreases chunks.len(),
{
    let kept = session.running->0.chunks;
    if chunks.len() == 0 {
        assert(kept + chunks =~= kept);
    } else {
        lemma_chunks_are_gathered(session, chunks.drop_last());
        assert((kept + chunks.drop_last()).push(chunks.last()) =~= kept + chunks);
    }
}

/// The response of a command carries every chunk of its output stream once,
/// in stream order, with one newline between every two chunks and nothing
/// after the last: whatever the chunks were, the session that ran the
/// command answers with their join when the stream ends, and with the empty
/// text where there were none.
pub proof fn lemma_output_is_joined_chunks(session: SessionView, chunks: Seq<Seq<char>>)
    requires
        session.running is Some,
        session.running->0.chunks.len() == 0,
    ensures
        after_stream_end(after_chunks(session, chunks)).frames == seq![
            response_frame(
                ResponseView {
                    action_id: session.running->0.node_id,
                    response_text: joined(chunks),
                },
            ),
        ],
        joined(Seq::empty()) == Seq::<char>::empty(),
        chunks.len() == 1 ==> joined(chunks) == chunks[0],
        chunks.len() == 2 ==> joined(chunks) == chunks[0].push('\n') + chunks[1],
{
    lemma_chunks_are_gathered(session, chunks);
    assert(session.running->0.chunks + chunks =~= chunks);
    if chunks.len() == 2 {
        assert(chunks.drop_last().len() == 1);
        assert(joined(chunks.drop_last()) == chunks[0]);
    }
}

/// Two commands handed to an idle session one after the other run strictly
/// in sequence. The first enters the sandbox at once. The second asks for
/// nothing while the first runs, whatever output arrives. When the output
/// stream of the first ends, its chunks, joined by newlines, go out as one
/// response, and only then is the execution of the second asked for.
pub proof fn lemma_commands_run_one_at_a_time(
    session: SessionView,
    first: NodeView,
    second: NodeView,
    chunks: Seq<Seq<char>>,
)
    requires
        session.sandbox is Some,
        session.running is None,
        session.waiting.len() == 0,
        first.content is Command,
        second.content is Command,
    ensures
        ({
            let begun = after_execute(session, first);
            let queued = after_execute(begun.session, second);
            let streamed = after_chunks(queued.session, chunks);
            let ended = after_stream_end(streamed);
            &&& begun.request == Some(
                RequestView::Exec {
                    node_id: node_key(first),
                    sandbox: session.sandbox->0,
                    command: first.content->Command_command,
                },
            )
            &&& begun.frames.len() == 0
            &&& queued.request is None
            &&& queued.frames.len() == 0
            &&& ended.frames == seq![
                response_frame(
                    ResponseView { action_id: node_key(first), response_text: joined(chunks) },
                ),
            ]
            &&& ended.request == Some(
                RequestView::Exec {
                    node_id: node_key(second),
                    sandbox: session.sandbox->0,
                    command: second.content->Command_command,
                },
            )
            &&& ended.session.running == Some(started(node_key(second)))
            &&& ended.session.waiting.len() == 0
        }),
{
    let begun = after_execute(session, first);
    let queued = after_execute(begun.session, second);
    lemma_chunks_are_gathered(queued.session, chunks);
    assert(Seq::<Seq<char>>::empty() + chunks =~= chunks);
    let streamed = after_chunks(queued.session, chunks);
    assert(streamed.waiting =~= seq![
        QueuedView {
            node_id: node_key(second),
            command: second.content->Command_command,
        },
    ]);
    assert(streamed.waiting.drop_first() =~= Seq::empty());
}

/// A step that a command sets off keeps a session well formed.
pub proof fn lemma_command_keeps_session_well_formed(
    defaults: ProcessSettingsView,
    session: SessionView,
    payload: Seq<char>,
    command: CommandView,
    fresh_id: Seq<char>,
)
    requires
        session.wf(),
    ensures
        after_command(defaults, session, payload, command, fresh_id).session.wf(),
{
}

/// A step that a reply sets off keeps a session well formed.
pub proof fn lemma_reply_keeps_session_well_formed(session: SessionView, reply: ReplyView)
    requires
        session.wf(),
    ensures
        after_reply(session, reply).session.wf(),
{
}

/// Whether every session of a table is well formed.
pub open spec fn sessions_well_formed(sessions: Sessions) -> bool {
    forall|identity: Seq<char>| #[trigger]
        sessions.contains_key(identity) ==> sessions[identity].wf()
}

/// Every session is well formed at all times: none exists at the start, and
/// neither a command nor a reply, of whatever identity, makes a session ill
/// formed or creates one that is.
pub proof fn lemma_sessions_stay_well_formed(
    defaults: ProcessSettingsView,
    sessions: Sessions,
    identity: Seq<char>,
    payload: Seq<char>,
    command: CommandView,
    fresh_id: Seq<char>,
    reply: ReplyView,
)
    requires
        sessions_well_formed(sessions),
    ensures
        sessions_well_formed(Sessions::empty()),
        sessions_well_formed(
            command_handled(defaults, sessions, identity, payload, command, fresh_id).sessions,
        ),
        sessions_well_formed(reply_handled(sessions, identity, reply).sessions),
{
    let session = if sessions.contains_key(identity) {
        sessions[identity]
    } else {
        SessionView::fresh()
    };
    lemma_command_keeps_session_well_formed(defaults, session, payload, command, fresh_id);
    lemma_reply_keeps_session_well_formed(session, reply);
}

/// A session never goes back to an earlier state, and a sandbox, once the
/// session has one, stays the session's sandbox whatever command arrives.
pub proof fn lemma_command_never_goes_back(
    defaults: ProcessSettingsView,
    session: SessionView,
    payload: Seq<char>,
    command: CommandView,
    fresh_id: Seq<char>,
)
    ensures
        phase_rank(session.phase()) <= phase_rank(
            after_command(defaults, session, payload, command, fresh_id).session.phase(),
        ),
        session.sandbox is Some ==> after_command(
            defaults,
            session,
            payload,
            command,
            fresh_id,
        ).session.sandbox == session.sandbox,
{
}

/// A session never goes back to an earlier state, and a sandbox, once the
/// session has one, stays the session's sandbox whatever reply arrives.
pub proof fn lemma_reply_never_goes_back(session: SessionView, reply: ReplyView)
    requires
        session.wf(),
    ensures
        phase_rank(session.phase()) <= phase_rank(after_reply(session, reply).session.phase()),
        session.sandbox is Some ==> after_reply(session, reply).session.sandbox
            == session.sandbox,
{
}

/// An event of one identity leaves the session of every other identity as
/// it was.
pub proof fn lemma_events_touch_one_session(
    defaults: ProcessSettingsView,
    sessions: Sessions,
    identity: Seq<char>,
    other: Seq<char>,
    payload: Seq<char>,
    command: CommandView,
    fresh_id: Seq<char>,
    reply: ReplyView,
)
    requires
        identity != other,
    ensures
        command_handled(defaults, sessions, identity, payload, command, fresh_id).sessions.contains_key(
            other,
        ) == sessions.contains_key(other),
        sessions.contains_key(other) ==> command_handled(
            defaults,
            sessions,
            identity,
            payload,
            command,
            fresh_id,
        ).sessions[other] == sessions[other],
        reply_handled(sessions, identity, reply).sessions.contains_key(other)
            == sessions.contains_key(other),
        sessions.contains_key(other) ==> reply_handled(sessions, identity, reply).sessions[other]
            == sessions[other],
{
}

} // verus!
