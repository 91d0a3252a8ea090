//! The routing registry: for each connected identity, the payloads that wait
//! to be written to its connection, oldest first.
//!
//! An identity has an entry exactly while its connection is open. A payload
//! sent to an identity without an entry is dropped.

use crate::identity::Identity;
use crate::registry::Registry;
use crate::text::{text_view, texts_view};
use vstd::prelude::*;

verus! {

/// The waiting payloads of every connected identity.
pub type Routes = Map<Seq<char>, Seq<Seq<char>>>;

/// The routes after `payload` is sent to `identity`: it goes to the end of
/// that identity's queue, or nowhere if the identity is not connected.
pub open spec fn after_send(routes: Routes, identity: Seq<char>, payload: Seq<char>) -> Routes {
    if routes.contains_key(identity) {
        routes.insert(identity, routes[identity].push(payload))
    } else {
        routes
    }
}

/// The payload that the connection of `identity` is handed next.
pub open spec fn next_frame(routes: Routes, identity: Seq<char>) -> Option<Seq<char>> {
    if routes.contains_key(identity) && routes[identity].len() > 0 {
        Some(routes[identity][0])
    } else {
        None
    }
}

/// The routes after the connection of `identity` has been handed its next
/// payload.
pub open spec fn after_next(routes: Routes, identity: Seq<char>) -> Routes {
    if next_frame(routes, identity) is Some {
        routes.insert(identity, routes[identity].drop_first())
    } else {
        routes
    }
}

/// The routes after each of `payloads` is sent to `identity`, in order.
pub open spec fn after_sends(routes: Routes, identity: Seq<char>, payloads: Seq<Seq<char>>) -> Routes
    decreases payloads.len(),
{
    if payloads.len() == 0 {
        routes
    } else {
        after_send(after_sends(routes, identity, payloads.drop_last()), identity, payloads.last())
    }
}

/// What the connection of `identity` is handed when it asks `count` times.
pub open spec fn delivered(routes: Routes, identity: Seq<char>, count: nat) -> Seq<Seq<char>>
    decreases count,
{
    if count == 0 {
        Seq::empty()
    } else {
        match next_frame(routes, identity) {
            Some(payload) => seq![payload] + delivered(
                after_next(routes, identity),
                identity,
                (count - 1) as nat,
            ),
            None => Seq::empty(),
        }
    }
}

/// The queues of a table of outboxes, by the characters of their payloads.
pub open spec fn queues_view(outboxes: Map<Seq<char>, Vec<String>>) -> Routes {
    Map::new(
        |identity: Seq<char>| outboxes.contains_key(identity),
        |identity: Seq<char>| texts_view(outboxes[identity]@),
    )
}

/// The process-wide table from identity to outbound queue.
pub struct RoutingRegistry {
    outboxes: Registry<Vec<String>>,
}

impl RoutingRegistry {
    /// Whether the registry is well formed: no identity has two entries.
    pub closed spec fn wf(&self) -> bool {
        self.outboxes.wf()
    }

    /// The waiting payloads of every connected identity.
    pub closed spec fn view(&self) -> Routes {
        queues_view(self.outboxes@)
    }

    /// The registry with no connection.
    pub fn new() -> (registry: RoutingRegistry)
        ensures
            registry.wf(),
            registry@ == Routes::empty(),
    {
        let registry = RoutingRegistry { outboxes: Registry::new() };
        assert(registry@ =~= Routes::empty());
        registry
    }

    /// Whether `identity` is connected.
    pub fn is_registered(&self, identity: &Identity) -> (connected: bool)
        requires
            self.wf(),
        ensures
            connected == self@.contains_key(identity@),
    {
        self.outboxes.contains(identity)
    }

    /// Gives a newly connected identity an empty queue. An identity that is
    /// connected already keeps its entry, and `false` is returned.
    pub fn register(&mut self, identity: Identity) -> (registered: bool)
        requires
            old(self).wf(),
        ensures
            final(self).wf(),
            registered == !old(self)@.contains_key(identity@),
            final(self)@ == if registered {
                old(self)@.insert(identity@, Seq::empty())
            } else {
                old(self)@
            },
    {
        if self.outboxes.contains(&identity) {
            false
        } else {
            self.outboxes.insert(identity, Vec::new());
            assert(texts_view(Seq::<String>::empty()) =~= Seq::<Seq<char>>::empty());
            assert(self@ =~= old(self)@.insert(identity@, Seq::empty()));
            true
        }
    }

    /// Drops the entry of a disconnected identity, with whatever still waited
    /// in it. Every other entry stays as it was.
    pub fn unregister(&mut self, identity: &Identity) -> (removed: bool)
        requires
            old(self).wf(),
        ensures
            final(self).wf(),
            removed == old(self)@.contains_key(identity@),
            final(self)@ == old(self)@.remove(identity@),
    {
        let removed = self.outboxes.remove(identity);
        assert(self@ =~= old(self)@.remove(identity@));
        removed.is_some()
    }

    /// Queues `payload` for `identity`. Returns whether the identity is
    /// connected; if it is not, the payload is dropped and nothing changes.
    pub fn send(&mut self, identity: &Identity, payload: String) -> (queued: bool)
        requires
            old(self).wf(),
        ensures
            final(self).wf(),
            queued == old(self)@.contains_key(identity@),
            final(self)@ == after_send(old(self)@, identity@, payload@),
    {
        if self.outboxes.contains(identity) {
            let outbox = self.outboxes.get_or_insert(identity, Vec::new());
            outbox.push(payload);
            assert(texts_view(old(self).outboxes@[identity@]@.push(payload)) =~= texts_view(
                old(self).outboxes@[identity@]@,
            ).push(payload@));
            assert(self@ =~= after_send(old(self)@, identity@, payload@));
            true
        } else {
            false
        }
    }

    /// Hands out the oldest payload that waits for `identity` and takes it
    /// off the queue. `None` where nothing waits or the identity is not
    /// connected; nothing changes then.
    pub fn next(&mut self, identity: &Identity) -> (payload: Option<String>)
        requires
            old(self).wf(),
        ensures
            final(self).wf(),
            text_view(payload) == next_frame(old(self)@, identity@),
            final(self)@ == after_next(old(self)@, identity@),
    {
        if self.outboxes.contains(identity) {
            let outbox = self.outboxes.get_or_insert(identity, Vec::new());
            if outbox.len() > 0 {
                let payload = outbox.remove(0);
                assert(texts_view(old(self).outboxes@[identity@]@.remove(0)) =~= texts_view(
                    old(self).outboxes@[identity@]@,
                ).drop_first());
                assert(self@ =~= after_next(old(self)@, identity@));
                Some(payload)
            } else {
                assert(self@ =~= old(self)@);
                None
            }
        } else {
            None
        }
    }
}

/// A payload sent to one identity never shows on the connection of another:
/// the other's queue, and what it is handed next, stay what they were.
pub proof fn lemma_send_reaches_one_identity(
    routes: Routes,
    target: Seq<char>,
    other: Seq<char>,
    payload: Seq<char>,
    count: nat,
)
    requires
        target != other,
    ensures
        after_send(routes, target, payload).contains_key(other) == routes.contains_key(other),
        routes.contains_key(other) ==> after_send(routes, target, payload)[other] == routes[other],
        delivered(after_send(routes, target, payload), other, count) == delivered(
            routes,
            other,
            count,
        ),
    decreases count,
{
    if count > 0 && next_frame(routes, other) is Some {
        let sent = after_send(routes, target, payload);
        assert(after_next(sent, other) =~= after_send(after_next(routes, other), target, payload));
        lemma_send_reaches_one_identity(
            after_next(routes, other),
            target,
            other,
            payload,
            (count - 1) as nat,
        );
    }
}

/// However many payloads are sent to one identity, the queue of every other
/// identity stays what it was, and so does the set of connected identities.
pub proof fn lemma_sends_reach_one_identity(
    routes: Routes,
    target: Seq<char>,
    other: Seq<char>,
    payloads: Seq<Seq<char>>,
)
    requires
        target != other,
    ensures
        after_sends(routes, target, payloads).contains_key(other) == routes.contains_key(other),
        routes.contains_key(other) ==> after_sends(routes, target, payloads)[other]
            == routes[other],
        after_sends(routes, target, payloads).contains_key(target) == routes.contains_key(target),
    decreases payloads.len(),
{
    if payloads.len() > 0 {
        lemma_sends_reach_one_identity(routes, target, other, payloads.drop_last());
    }
}

/// Sending a list of payloads to a connected identity puts them behind what
/// waited already, in the order of the list.
pub proof fn lemma_sends_append(routes: Routes, identity: Seq<char>, payloads: Seq<Seq<char>>)
    requires
        routes.contains_key(identity),
    ensures
        after_sends(routes, identity, payloads).contains_key(identity),
        after_sends(routes, identity, payloads)[identity] == routes[identity] + payloads,
    decreases payloads.len(),
{
    if payloads.len() == 0 {
        assert(routes[identity] + payloads =~= routes[identity]);
    } else {
        lemma_sends_append(routes, identity, payloads.drop_last());
        assert((routes[identity] + payloads.drop_last()).push(payloads.last()) =~= routes[identity]
            + payloads);
    }
}

/// A connection that asks as often as payloads wait is handed exactly the
/// queue, first payload first.
pub proof fn lemma_delivered_is_queue(routes: Routes, identity: Seq<char>)
    requires
        routes.contains_key(identity),
    ensures
        delivered(routes, identity, routes[identity].len()) == routes[identity],
    decreases routes[identity].len(),
{
    let queue = routes[identity];
    if queue.len() > 0 {
        lemma_delivered_is_queue(after_next(routes, identity), identity);
        assert(seq![queue[0]] + queue.drop_first() =~= queue);
    } else {
        assert(queue =~= Seq::empty());
    }
}

/// Payloads queued for one identity are delivered to its connection in the
/// order in which they were queued, behind what waited before them.
pub proof fn lemma_delivery_in_enqueue_order(
    routes: Routes,
    identity: Seq<char>,
    payloads: Seq<Seq<char>>,
)
    requires
        routes.contains_key(identity),
    ensures
        delivered(
            after_sends(routes, identity, payloads),
            identity,
            routes[identity].len() + payloads.len(),
        ) == routes[identity] + payloads,
{
    lemma_sends_append(routes, identity, payloads);
    lemma_delivered_is_queue(after_sends(routes, identity, payloads), identity);
}

} // verus!
