//! Session state: what the service remembers about one identity, and the
//! process-wide registry of sessions.
//!
//! A session is created by the first settings message of its identity and is
//! kept after the connection closes.

use crate::identity::Identity;
use crate::registry::Registry;
use crate::text::{copy_optional, text_view, texts_view};
use vstd::prelude::*;

verus! {

/// The credentials that a session works with.
pub struct Credentials {
    /// The key for the completion provider, if one is configured.
    pub completion_key: Option<String>,
    /// The address of the document store.
    pub store_address: String,
}

pub struct CredentialsView {
    pub completion_key: Option<Seq<char>>,
    pub store_address: Seq<char>,
}

impl View for Credentials {
    type V = CredentialsView;

    open spec fn view(&self) -> CredentialsView {
        CredentialsView {
            completion_key: text_view(self.completion_key),
            store_address: self.store_address@,
        }
    }
}

/// The credentials that the process itself was configured with. Each one
/// that is present takes the place of what a client supplies.
pub struct ProcessSettings {
    pub completion_key: Option<String>,
    pub store_address: Option<String>,
}

pub struct ProcessSettingsView {
    pub completion_key: Option<Seq<char>>,
    pub store_address: Option<Seq<char>>,
}

impl View for ProcessSettings {
    type V = ProcessSettingsView;

    open spec fn view(&self) -> ProcessSettingsView {
        ProcessSettingsView {
            completion_key: text_view(self.completion_key),
            store_address: text_view(self.store_address),
        }
    }
}

/// The credentials in force when a client supplies `completion_key` and
/// `store_address`: what the process was configured with wins wherever it is
/// present.
pub open spec fn effective_credentials(
    defaults: ProcessSettingsView,
    completion_key: Option<Seq<char>>,
    store_address: Seq<char>,
) -> CredentialsView {
    CredentialsView {
        completion_key: if defaults.completion_key is Some {
            defaults.completion_key
        } else {
            completion_key
        },
        store_address: match defaults.store_address {
            Some(address) => address,
            None => store_address,
        },
    }
}

impl ProcessSettings {
    /// The credentials in force when a client supplies the given ones.
    pub fn resolve(&self, completion_key: Option<String>, store_address: String) -> (credentials:
        Credentials)
        ensures
            credentials@ == effective_credentials(
                self@,
                text_view(completion_key),
                store_address@,
            ),
    {
        Credentials {
            completion_key: if self.completion_key.is_some() {
                copy_optional(&self.completion_key)
            } else {
                completion_key
            },
            store_address: match &self.store_address {
                Some(address) => address.clone(),
                None => store_address,
            },
        }
    }
}

/// How far project initialization has come while it is under way.
#[derive(Clone, Copy, Debug, PartialEq, Eq, Structural)]
pub enum Stage {
    /// No initialization is under way.
    Idle,
    /// The node set has been asked for.
    FetchingNodes,
    /// The nodes went out; the sandbox has been asked for.
    Provisioning,
}

/// The states of a session.
#[derive(Clone, Copy, Debug, PartialEq, Eq, Structural)]
pub enum Phase {
    Unconfigured,
    SettingsSet,
    ProjectInitialized,
}

/// The command that runs in the sandbox, with the chunks of output that
/// have arrived so far, in stream order.
pub struct Running {
    pub node_id: String,
    pub chunks: Vec<String>,
}

pub struct RunningView {
    pub node_id: Seq<char>,
    pub chunks: Seq<Seq<char>>,
}

impl View for Running {
    type V = RunningView;

    open spec fn view(&self) -> RunningView {
        RunningView { node_id: self.node_id@, chunks: texts_view(self.chunks@) }
    }
}

/// A command that waits for the sandbox to become free.
pub struct Queued {
    pub node_id: String,
    pub command: String,
}

pub struct QueuedView {
    pub node_id: Seq<char>,
    pub command: Seq<char>,
}

impl View for Queued {
    type V = QueuedView;

    open spec fn view(&self) -> QueuedView {
        QueuedView { node_id: self.node_id@, command: self.command@ }
    }
}

/// The waiting commands of a queue, by their content.
pub open spec fn waiting_view(waiting: Seq<Queued>) -> Seq<QueuedView> {
    waiting.map_values(|queued: Queued| queued@)
}

/// The credentials that may be in force, by their content.
pub open spec fn credentials_view(credentials: Option<Credentials>) -> Option<CredentialsView> {
    match credentials {
        Some(credentials) => Some(credentials@),
        None => None,
    }
}

/// The command in flight, by its content.
pub open spec fn running_view(running: Option<Running>) -> Option<RunningView> {
    match running {
        Some(running) => Some(running@),
        None => None,
    }
}

/// What the service remembers about one identity.
pub struct Session {
    /// The credentials in force, once settings have been received.
    pub credentials: Option<Credentials>,
    /// The handle of the session's sandbox, once one has been provisioned.
    pub sandbox: Option<String>,
    /// The payloads of the commands received for the session, in order.
    pub history: Vec<String>,
    /// How far project initialization has come.
    pub stage: Stage,
    /// The command that occupies the sandbox.
    pub running: Option<Running>,
    /// The commands that wait for the sandbox, oldest first.
    pub waiting: Vec<Queued>,
}

pub struct SessionView {
    pub credentials: Option<CredentialsView>,
    pub sandbox: Option<Seq<char>>,
    pub history: Seq<Seq<char>>,
    pub stage: Stage,
    pub running: Option<RunningView>,
    pub waiting: Seq<QueuedView>,
}

impl View for Session {
    type V = SessionView;

    open spec fn view(&self) -> SessionView {
        SessionView {
            credentials: credentials_view(self.credentials),
            sandbox: text_view(self.sandbox),
            history: texts_view(self.history@),
            stage: self.stage,
            running: running_view(self.running),
            waiting: waiting_view(self.waiting@),
        }
    }
}

impl SessionView {
    /// The session of an identity that has not sent anything yet.
    pub open spec fn fresh() -> SessionView {
        SessionView {
            credentials: None,
            sandbox: None,
            history: Seq::empty(),
            stage: Stage::Idle,
            running: None,
            waiting: Seq::empty(),
        }
    }

    /// The state of the session.
    pub open spec fn phase(self) -> Phase {
        if self.credentials is None {
            Phase::Unconfigured
        } else if self.sandbox is None {
            Phase::SettingsSet
        } else {
            Phase::ProjectInitialized
        }
    }

    /// What holds of every session that the service builds: a sandbox comes
    /// after credentials, initialization is under way only between the two,
    /// a command runs only in a sandbox, and commands wait only while one
    /// runs.
    pub open spec fn wf(self) -> bool {
        &&& self.sandbox is Some ==> self.credentials is Some
        &&& self.stage != Stage::Idle ==> self.credentials is Some && self.sandbox is None
        &&& self.running is Some ==> self.sandbox is Some
        &&& self.waiting.len() > 0 ==> self.running is Some
    }
}

impl Session {
    /// The session of an identity that has not sent anything yet.
    pub fn new() -> (session: Session)
        ensures
            session@ == SessionView::fresh(),
    {
        let session = Session {
            credentials: None,
            sandbox: None,
            history: Vec::new(),
            stage: Stage::Idle,
            running: None,
            waiting: Vec::new(),
        };
        assert(session@.history =~= Seq::empty());
        assert(session@.waiting =~= Seq::empty());
        session
    }

    /// The state of the session.
    pub fn phase(&self) -> (phase: Phase)
        ensures
            phase == self@.phase(),
    {
        if self.credentials.is_none() {
            Phase::Unconfigured
        } else if self.sandbox.is_none() {
            Phase::SettingsSet
        } else {
            Phase::ProjectInitialized
        }
    }
}

/// The sessions of every identity that has one.
pub type Sessions = Map<Seq<char>, SessionView>;

/// The sessions of a table, by their content.
pub open spec fn sessions_view(sessions: Map<Seq<char>, Session>) -> Sessions {
    Map::new(
        |identity: Seq<char>| sessions.contains_key(identity),
        |identity: Seq<char>| sessions[identity]@,
    )
}

/// The process-wide table from identity to session.
pub struct SessionRegistry {
    sessions: Registry<Session>,
}

impl SessionRegistry {
    /// Whether the registry is well formed: no identity has two sessions.
    pub closed spec fn wf(&self) -> bool {
        self.sessions.wf()
    }

    /// The sessions of every identity that has one.
    pub closed spec fn view(&self) -> Sessions {
        sessions_view(self.sessions@)
    }

    /// The registry without sessions.
    pub fn new() -> (registry: SessionRegistry)
        ensures
            registry.wf(),
            registry@ == Sessions::empty(),
    {
        let registry = SessionRegistry { sessions: Registry::new() };
        assert(registry@ =~= Sessions::empty());
        registry
    }

    /// Whether `identity` has a session.
    pub fn contains(&self, identity: &Identity) -> (found: bool)
        requires
            self.wf(),
        ensures
            found == self@.contains_key(identity@),
    {
        self.sessions.contains(identity)
    }

    /// The session of `identity`, if it has one.
    pub fn get(&self, identity: &Identity) -> (found: Option<&Session>)
        requires
            self.wf(),
        ensures
            match found {
                Some(session) => self@.contains_key(identity@) && session@ == self@[identity@],
                None => !self@.contains_key(identity@),
            },
    {
        self.sessions.get(identity)
    }

    /// The session of `identity`, for the caller to change. An identity
    /// without a session gets a fresh one first. Every other session stays as
    /// it was.
    pub fn get_or_create(&mut self, identity: &Identity) -> (session: &mut Session)
        requires
            old(self).wf(),
        ensures
            session@ == if old(self)@.contains_key(identity@) {
                old(self)@[identity@]
            } else {
                SessionView::fresh()
            },
            final(self).wf(),
            final(self)@ == old(self)@.insert(identity@, final(session)@),
    {
        let session = self.sessions.get_or_insert(identity, Session::new());
        proof {
            assert(sessions_view(old(self).sessions@.insert(identity@, *final(session)))
                =~= sessions_view(old(self).sessions@).insert(identity@, final(session)@));
        }
        session
    }
}

} // verus!
