//! The hub: the routing registry and the dispatcher side by side, as one
//! value that a host program drives.
//!
//! The host tells the hub when a connection opens or closes, hands it every
//! inbound frame and every reply of the outside world, performs the requests
//! that come back, and writes to each connection what the hub holds for it.

use crate::dispatcher::{
    carried_out, command_handled, reply_handled, Dispatcher, Handled, Reply,
};
use crate::engine::{addressed, request_view, Request, RequestView};
use crate::identity::Identity;
use crate::message::{
    decode_frame, envelopes_view, EnvelopeView, InboundEnvelope, OutboundEnvelope,
};
use crate::object_id::{fresh_object_id, is_object_id};
use crate::routing::{after_next, after_send, after_sends, next_frame, Routes, RoutingRegistry};
use crate::session::{ProcessSettings, ProcessSettingsView, Session, Sessions};
use crate::text::text_view;
use vstd::prelude::*;

verus! {

/// The routes after each of `envelopes` is sent to the identity it is
/// addressed to, in order.
pub open spec fn after_deliveries(routes: Routes, envelopes: Seq<EnvelopeView>) -> Routes
    decreases envelopes.len(),
{
    if envelopes.len() == 0 {
        routes
    } else {
        after_send(
            after_deliveries(routes, envelopes.drop_last()),
            envelopes.last().identity,
            envelopes.last().payload,
        )
    }
}

/// Delivering frames that are all addressed to one identity is sending them
/// to that identity, in order.
pub proof fn lemma_deliveries_to_one_identity(
    routes: Routes,
    identity: Seq<char>,
    frames: Seq<Seq<char>>,
)
    ensures
        after_deliveries(routes, addressed(identity, frames)) == after_sends(
            routes,
            identity,
            frames,
        ),
    decreases frames.len(),
{
    if frames.len() > 0 {
        lemma_deliveries_to_one_identity(routes, identity, frames.drop_last());
        assert(addressed(identity, frames).drop_last() =~= addressed(
            identity,
            frames.drop_last(),
        ));
    }
}

/// How many of `envelopes` are addressed to an identity that is not
/// connected.
pub open spec fn undeliverable(routes: Routes, envelopes: Seq<EnvelopeView>) -> nat
    decreases envelopes.len(),
{
    if envelopes.len() == 0 {
        0
    } else {
        let rest = undeliverable(routes, envelopes.drop_last());
        if routes.contains_key(envelopes.last().identity) {
            rest
        } else {
            rest + 1
        }
    }
}

/// Hands every envelope of a queue to the routing registry, in order. An
/// envelope for an identity that is not connected is dropped; the number of
/// those is returned.
pub fn deliver(routes: &mut RoutingRegistry, tx: &Vec<OutboundEnvelope>) -> (dropped: usize)
    requires
        old(routes).wf(),
    ensures
        final(routes).wf(),
        final(routes)@ == after_deliveries(old(routes)@, envelopes_view(tx@)),
        dropped == undeliverable(old(routes)@, envelopes_view(tx@)),
{
    let ghost envelopes = envelopes_view(tx@);
    let mut dropped: usize = 0;
    let mut i: usize = 0;
    while i < tx.len()
        invariant
            i <= tx.len(),
            dropped <= i,
            routes.wf(),
            envelopes == envelopes_view(tx@),
            routes@.dom() == old(routes)@.dom(),
            routes@ == after_deliveries(old(routes)@, envelopes.take(i as int)),
            dropped == undeliverable(old(routes)@, envelopes.take(i as int)),
        decreases tx.len() - i,
    {
        let ghost before = routes@;
        let queued = routes.send(&tx[i].identity, tx[i].payload.clone());
        if !queued {
            dropped += 1;
        }
        assert(routes@.dom() =~= before.dom());
        assert(envelopes.take(i as int + 1).drop_last() =~= envelopes.take(i as int));
        i += 1;
    }
    assert(envelopes.take(i as int) =~= envelopes);
    dropped
}

/// The routing registry and the dispatcher of one process.
pub struct Hub {
    routes: RoutingRegistry,
    dispatcher: Dispatcher,
}

impl Hub {
    /// Whether the hub is well formed: no identity has two routing entries or
    /// two sessions.
    pub closed spec fn wf(&self) -> bool {
        self.routes.wf() && self.dispatcher.wf()
    }

    /// The waiting payloads of every connected identity.
    pub closed spec fn routes(&self) -> Routes {
        self.routes@
    }

    /// The sessions of every identity that has one.
    pub closed spec fn sessions(&self) -> Sessions {
        self.dispatcher.sessions()
    }

    /// The settings that the process was configured with.
    pub closed spec fn defaults(&self) -> ProcessSettingsView {
        self.dispatcher.defaults()
    }

    /// The hub of a process configured with `defaults`, with no connection
    /// and no session.
    pub fn new(defaults: ProcessSettings) -> (hub: Hub)
        ensures
            hub.wf(),
            hub.defaults() == defaults@,
            hub.routes() == Routes::empty(),
            hub.sessions() == Sessions::empty(),
    {
        Hub { routes: RoutingRegistry::new(), dispatcher: Dispatcher::new(defaults) }
    }

    /// Whether `identity` is connected.
    pub fn is_connected(&self, identity: &Identity) -> (connected: bool)
        requires
            self.wf(),
        ensures
            connected == self.routes().contains_key(identity@),
    {
        self.routes.is_registered(identity)
    }

    /// The session of `identity`, if it has one.
    pub fn session(&self, identity: &Identity) -> (found: Option<&Session>)
        requires
            self.wf(),
        ensures
            match found {
                Some(session) => self.sessions().contains_key(identity@) && session@
                    == self.sessions()[identity@],
                None => !self.sessions().contains_key(identity@),
            },
    {
        self.dispatcher.session(identity)
    }

    /// Admits a new connection: an object identifier is drawn and the
    /// connection is admitted under it as `connect` would admit it. The
    /// identifier becomes the identity of the connection and gets an empty
    /// queue, unless it is in use: then nothing changes and no identity is
    /// handed out. So a connection is always admitted where neither an open
    /// connection nor a session goes by an object identifier, and in
    /// particular where there is none of either. Sessions are not touched.
    pub fn accept(&mut self) -> (admitted: Option<Identity>)
        requires
            old(self).wf(),
        ensures
            final(self).wf(),
            final(self).defaults() == old(self).defaults(),
            final(self).sessions() == old(self).sessions(),
            exists|drawn: Seq<char>|
                is_object_id(drawn) && #[trigger] admitted_as(
                    old(self).routes(),
                    old(self).sessions(),
                    final(self).routes(),
                    identity_view(admitted),
                    drawn,
                ),
            (forall|token: Seq<char>| #[trigger]
                in_use(old(self).routes(), old(self).sessions(), token) ==> !is_object_id(
                    token,
                )) ==> admitted is Some,
            match admitted {
                Some(identity) => {
                    &&& is_object_id(identity@)
                    &&& !old(self).routes().contains_key(identity@)
                    &&& !old(self).sessions().contains_key(identity@)
                    &&& final(self).routes() == old(self).routes().insert(
                        identity@,
                        Seq::empty(),
                    )
                },
                None => final(self).routes() == old(self).routes(),
            },
    {
        let identity = Identity::new(fresh_object_id());
        let admitted = if self.connect(identity.clone()) {
            Some(identity)
        } else {
            None
        };
        assert(admitted_as(
            old(self).routes(),
            old(self).sessions(),
            self.routes(),
            identity_view(admitted),
            identity@,
        ));
        assert(in_use(old(self).routes(), old(self).sessions(), identity@) == (admitted is None));
        admitted
    }

    /// Takes note of a connection that has opened: the identity gets an empty
    /// queue. An identity is never used twice: where it is that of an open
    /// connection, or a session is kept for it from an earlier connection,
    /// `false` is returned and nothing changes. Sessions are not touched.
    pub fn connect(&mut self, identity: Identity) -> (connected: bool)
        requires
            old(self).wf(),
        ensures
            final(self).wf(),
            final(self).defaults() == old(self).defaults(),
            final(self).sessions() == old(self).sessions(),
            connected == !in_use(old(self).routes(), old(self).sessions(), identity@),
            final(self).routes() == if connected {
                old(self).routes().insert(identity@, Seq::empty())
            } else {
                old(self).routes()
            },
    {
        if self.dispatcher.session(&identity).is_some() {
            false
        } else {
            self.routes.register(identity)
        }
    }

    /// Takes note of a connection that has closed: the routing entry of the
    /// identity goes, and nothing else. Its session stays, and so do the
    /// entries and sessions of every other identity.
    pub fn disconnect(&mut self, identity: &Identity) -> (disconnected: bool)
        requires
            old(self).wf(),
        ensures
            final(self).wf(),
            final(self).defaults() == old(self).defaults(),
            final(self).sessions() == old(self).sessions(),
            disconnected == old(self).routes().contains_key(identity@),
            final(self).routes() == old(self).routes().remove(identity@),
    {
        self.routes.unregister(identity)
    }

    /// Handles one inbound envelope and routes what it sends. A frame that
    /// cannot be read changes nothing. A frame that holds a command changes
    /// the sessions as `command_handled` says, and the frames that the
    /// command sends go to the queue of the envelope's identity, in order, or
    /// nowhere if that identity is no longer connected.
    pub fn receive(&mut self, envelope: InboundEnvelope) -> (request: Option<Request>)
        requires
            old(self).wf(),
        ensures
            final(self).wf(),
            final(self).defaults() == old(self).defaults(),
            match decode_frame(envelope@.payload) {
                Some(command) => exists|fresh_id: Seq<char>|
                    {
                        &&& command is CreateNode ==> is_object_id(fresh_id)
                        &&& settled(
                            old(self).routes(),
                            final(self).sessions(),
                            final(self).routes(),
                            request_view(request),
                            envelope@.identity,
                            #[trigger] command_handled(
                                old(self).defaults(),
                                old(self).sessions(),
                                envelope@.identity,
                                envelope@.payload,
                                command,
                                fresh_id,
                            ),
                        )
                    },
                None => {
                    &&& final(self).sessions() == old(self).sessions()
                    &&& final(self).routes() == old(self).routes()
                    &&& request is None
                },
            },
    {
        let ghost inbound = envelope@;
        let mut tx: Vec<OutboundEnvelope> = Vec::new();
        assert(envelopes_view(tx@) =~= Seq::empty());
        let request = self.dispatcher.dispatch(&mut tx, envelope);
        let _ = deliver(&mut self.routes, &tx);
        proof {
            match decode_frame(inbound.payload) {
                Some(command) => {
                    let fresh_id = choose|fresh_id: Seq<char>|
                        {
                            &&& command is CreateNode ==> is_object_id(fresh_id)
                            &&& carried_out(
                                Seq::empty(),
                                self.dispatcher.sessions(),
                                envelopes_view(tx@),
                                request_view(request),
                                inbound.identity,
                                #[trigger] command_handled(
                                    old(self).defaults(),
                                    old(self).sessions(),
                                    inbound.identity,
                                    inbound.payload,
                                    command,
                                    fresh_id,
                                ),
                            )
                        };
                    let handled = command_handled(
                        old(self).defaults(),
                        old(self).sessions(),
                        inbound.identity,
                        inbound.payload,
                        command,
                        fresh_id,
                    );
                    assert(envelopes_view(tx@) =~= addressed(inbound.identity, handled.frames));
                    lemma_deliveries_to_one_identity(
                        old(self).routes(),
                        inbound.identity,
                        handled.frames,
                    );
                    assert(settled(
                        old(self).routes(),
                        self.sessions(),
                        self.routes(),
                        request_view(request),
                        inbound.identity,
                        handled,
                    ));
                },
                None => {},
            }
        }
        request
    }

    /// Handles one reply of the outside world to a request made for
    /// `identity`, and routes what it sends: the sessions change as
    /// `reply_handled` says, and the frames go to the queue of `identity`, in
    /// order, or nowhere if that identity is no longer connected.
    pub fn complete(&mut self, identity: &Identity, reply: Reply) -> (request: Option<Request>)
        requires
            old(self).wf(),
        ensures
            final(self).wf(),
            final(self).defaults() == old(self).defaults(),
            settled(
                old(self).routes(),
                final(self).sessions(),
                final(self).routes(),
                request_view(request),
                identity@,
                reply_handled(old(self).sessions(), identity@, reply@),
            ),
    {
        let ghost handled = reply_handled(self.sessions(), identity@, reply@);
        let mut tx: Vec<OutboundEnvelope> = Vec::new();
        assert(envelopes_view(tx@) =~= Seq::empty());
        let request = self.dispatcher.resume(&mut tx, identity, reply);
        let _ = deliver(&mut self.routes, &tx);
        proof {
            assert(envelopes_view(tx@) =~= addressed(identity@, handled.frames));
            lemma_deliveries_to_one_identity(old(self).routes(), identity@, handled.frames);
        }
        request
    }

    /// Hands out the oldest payload that waits for `identity` and takes it
    /// off its queue; `None` where nothing waits. Sessions, and the queues of
    /// every other identity, are not touched.
    pub fn next_frame(&mut self, identity: &Identity) -> (payload: Option<String>)
        requires
            old(self).wf(),
        ensures
            final(self).wf(),
            final(self).defaults() == old(self).defaults(),
            final(self).sessions() == old(self).sessions(),
            text_view(payload) == next_frame(old(self).routes(), identity@),
            final(self).routes() == after_next(old(self).routes(), identity@),
    {
        self.routes.next(identity)
    }
}

/// The characters of the identity that may have been handed out.
pub open spec fn identity_view(identity: Option<Identity>) -> Option<Seq<char>> {
    match identity {
        Some(identity) => Some(identity@),
        None => None,
    }
}

/// Whether an identity is in use: it is that of an open connection, or a
/// session is kept for it.
pub open spec fn in_use(routes: Routes, sessions: Sessions, token: Seq<char>) -> bool {
    routes.contains_key(token) || sessions.contains_key(token)
}

/// Whether a connection was admitted under the token `drawn` as it should
/// be: a token that is not in use becomes the identity of the connection and
/// gets an empty queue; one that is in use admits nothing and changes
/// nothing.
pub open spec fn admitted_as(
    routes_before: Routes,
    sessions: Sessions,
    routes_after: Routes,
    admitted: Option<Seq<char>>,
    drawn: Seq<char>,
) -> bool {
    if in_use(routes_before, sessions, drawn) {
        admitted is None && routes_after == routes_before
    } else {
        admitted == Some(drawn) && routes_after == routes_before.insert(drawn, Seq::empty())
    }
}

/// Whether an event was settled as `handled` says: the sessions are those of
/// `handled`, its frames were sent to `identity` in order, and the request is
/// its request.
pub open spec fn settled(
    routes_before: Routes,
    sessions_after: Sessions,
    routes_after: Routes,
    request: Option<RequestView>,
    identity: Seq<char>,
    handled: Handled,
) -> bool {
    &&& sessions_after == handled.sessions
    &&& routes_after == after_sends(routes_before, identity, handled.frames)
    &&& request == handled.request
}

} // verus!
