//! The registry of known clients and the rule by which a client is removed.
//!
//! A client that is not connected is removed at once. A client in any other
//! state is only marked for removal: the connection manager tears the
//! session down and removes the entry when that is done.

use crate::text::same_text;
use vstd::prelude::*;

verus! {

/// Where a client stands in its connection's life.
#[derive(Clone, Copy, Debug, PartialEq, Eq, Structural)]
pub enum ConnectionState {
    /// No session exists.
    Disconnected,
    /// A session is being set up.
    Connecting,
    /// A session is established.
    Connected,
    /// A session is established and carries a stream.
    Streaming,
    /// The session is being torn down; the entry is removed afterwards if
    /// `should_be_removed` is set.
    Disconnecting { should_be_removed: bool },
}

/// One known client.
#[derive(Debug)]
pub struct ClientEntry {
    /// The name under which the client is registered.
    pub hostname: String,
    /// Where its connection stands.
    pub connection_state: ConnectionState,
}

/// A change to the registry that the dashboard can ask for.
#[derive(Clone, Copy, Debug, PartialEq, Eq, Structural)]
pub enum ClientListAction {
    /// Register the client as disconnected unless it is known already.
    AddIfMissing,
    /// Record a new connection state for a known client.
    SetConnectionState(ConnectionState),
    /// Remove the client.
    RemoveEntry,
}

/// What became of a request to remove a client.
#[derive(Clone, Copy, Debug, PartialEq, Eq, Structural)]
pub enum Removal {
    /// The client was not connected and is gone from the registry.
    Removed,
    /// The client is marked for removal and stays until its session is torn down.
    Deferred,
    /// No such client was registered.
    Absent,
}

/// The state in which a client waits for its removal.
pub open spec fn marked_for_removal() -> ConnectionState {
    ConnectionState::Disconnecting { should_be_removed: true }
}

/// The registry after a request to remove `hostname`.
pub open spec fn after_removal_request(
    clients: Map<Seq<char>, ConnectionState>,
    hostname: Seq<char>,
) -> Map<Seq<char>, ConnectionState> {
    if !clients.contains_key(hostname) {
        clients
    } else if clients[hostname] == ConnectionState::Disconnected {
        clients.remove(hostname)
    } else {
        clients.insert(hostname, marked_for_removal())
    }
}

/// What a request to remove `hostname` reports.
pub open spec fn removal_outcome(
    clients: Map<Seq<char>, ConnectionState>,
    hostname: Seq<char>,
) -> Removal {
    if !clients.contains_key(hostname) {
        Removal::Absent
    } else if clients[hostname] == ConnectionState::Disconnected {
        Removal::Removed
    } else {
        Removal::Deferred
    }
}

/// The registry after `action` was applied to `hostname` as it stands,
/// without regard to the client's session.
pub open spec fn after_action(
    clients: Map<Seq<char>, ConnectionState>,
    hostname: Seq<char>,
    action: ClientListAction,
) -> Map<Seq<char>, ConnectionState> {
    match action {
        ClientListAction::AddIfMissing => if clients.contains_key(hostname) {
            clients
        } else {
            clients.insert(hostname, ConnectionState::Disconnected)
        },
        ClientListAction::SetConnectionState(state) => if clients.contains_key(hostname) {
            clients.insert(hostname, state)
        } else {
            clients
        },
        ClientListAction::RemoveEntry => clients.remove(hostname),
    }
}

/// The known clients, each under its own hostname.
pub struct ClientRegistry {
    entries: Vec<ClientEntry>,
}

impl View for ClientRegistry {
    type V = Map<Seq<char>, ConnectionState>;

    closed spec fn view(&self) -> Map<Seq<char>, ConnectionState> {
        Map::new(
            |name: Seq<char>|
                exists|i: int| 0 <= i < self.entries@.len() && self.entries@[i].hostname@ == name,
            |name: Seq<char>|
                self.entries@[choose|i: int|
                    0 <= i < self.entries@.len() && self.entries@[i].hostname@
                        == name].connection_state,
        )
    }
}

impl ClientRegistry {
    /// The representation invariant: no hostname is registered twice.
    pub closed spec fn wf(&self) -> bool {
        forall|i: int, j: int|
            0 <= i < j < self.entries@.len() ==> self.entries@[i].hostname@
                != self.entries@[j].hostname@
    }

    /// In a well-formed registry the entry at `i` is what the view holds
    /// under its hostname.
    proof fn lemma_entry(&self, i: int)
        requires
            self.wf(),
            0 <= i < self.entries@.len(),
        ensures
            self@.contains_key(self.entries@[i].hostname@),
            self@[self.entries@[i].hostname@] == self.entries@[i].connection_state,
    {
        let name = self.entries@[i].hostname@;
        let j = choose|j: int| 0 <= j < self.entries@.len() && self.entries@[j].hostname@ == name;
        assert(j == i);
    }

    /// A registry without clients.
    pub fn new() -> (registry: Self)
        ensures
            registry.wf(),
            registry@ == Map::<Seq<char>, ConnectionState>::empty(),
    {
        let registry = ClientRegistry { entries: Vec::new() };
        assert(registry@ =~= Map::<Seq<char>, ConnectionState>::empty());
        registry
    }

    /// The position of `hostname` among the entries, or their number if it
    /// is not registered.
    fn position(&self, hostname: &str) -> (at: usize)
        requires
            self.wf(),
        ensures
            at <= self.entries@.len(),
            at < self.entries@.len() ==> self.entries@[at as int].hostname@ == hostname@,
            at == self.entries@.len() ==> !self@.contains_key(hostname@),
    {
        let mut i: usize = 0;
        while i < self.entries.len()
            invariant
                i <= self.entries@.len(),
                forall|k: int| 0 <= k < i ==> self.entries@[k].hostname@ != hostname@,
            decreases self.entries@.len() - i,
        {
            if same_text(self.entries[i].hostname.as_str(), hostname) {
                return i;
            }
            i = i + 1;
        }
        i
    }

    /// The connection state of `hostname`, if it is registered.
    pub fn get(&self, hostname: &str) -> (state: Option<ConnectionState>)
        requires
            self.wf(),
        ensures
            state == if self@.contains_key(hostname@) {
                Some(self@[hostname@])
            } else {
                None
            },
    {
        let at = self.position(hostname);
        if at < self.entries.len() {
            proof {
                self.lemma_entry(at as int);
            }
            Some(self.entries[at].connection_state)
        } else {
            None
        }
    }

    /// The entry that the view holds under a registered hostname.
    proof fn index_of(&self, name: Seq<char>) -> (i: int)
        requires
            self.wf(),
            self@.contains_key(name),
        ensures
            0 <= i < self.entries@.len(),
            self.entries@[i].hostname@ == name,
            self@[name] == self.entries@[i].connection_state,
    {
        let i = choose|i: int| 0 <= i < self.entries@.len() && self.entries@[i].hostname@ == name;
        self.lemma_entry(i);
        i
    }

    /// Records `state` for the entry at `at`.
    fn set_at(&mut self, at: usize, state: ConnectionState)
        requires
            old(self).wf(),
            at < old(self).entries@.len(),
        ensures
            final(self).wf(),
            final(self)@ == old(self)@.insert(old(self).entries@[at as int].hostname@, state),
    {
        let hostname = self.entries[at].hostname.clone();
        self.entries.set(at, ClientEntry { hostname, connection_state: state });
        proof {
            let name = old(self).entries@[at as int].hostname@;
            let want = old(self)@.insert(name, state);
            assert forall|k: int| 0 <= k < self.entries@.len() implies #[trigger] self.entries@[k].hostname@
                == old(self).entries@[k].hostname@ by {}
            assert(self.wf());
            assert forall|other: Seq<char>| self@.contains_key(other) == want.contains_key(
                other,
            ) by {
                if self@.contains_key(other) {
                    let i = self.index_of(other);
                    old(self).lemma_entry(i);
                }
                if want.contains_key(other) {
                    if other == name {
                        self.lemma_entry(at as int);
                    } else {
                        let i = old(self).index_of(other);
                        self.lemma_entry(i);
                    }
                }
            }
            assert forall|other: Seq<char>| #[trigger] self@.contains_key(other) implies self@[other]
                == want[other] by {
                let i = self.index_of(other);
                old(self).lemma_entry(i);
            }
            assert(self@ =~= want);
        }
    }

    /// Takes the entry at `at` out of the registry.
    fn remove_at(&mut self, at: usize)
        requires
            old(self).wf(),
            at < old(self).entries@.len(),
        ensures
            final(self).wf(),
            final(self)@ == old(self)@.remove(old(self).entries@[at as int].hostname@),
    {
        let _ = self.entries.remove(at);
        proof {
            let name = old(self).entries@[at as int].hostname@;
            let want = old(self)@.remove(name);
            let ghost shift = |k: int|
                if k < at {
                    k
                } else {
                    k + 1
                };
            assert forall|k: int| 0 <= k < self.entries@.len() implies #[trigger] self.entries@[k]
                == old(self).entries@[shift(k)] by {}
            assert(self.wf()) by {
                assert forall|i: int, j: int| 0 <= i < j < self.entries@.len() implies self.entries@[i].hostname@
                    != self.entries@[j].hostname@ by {
                    assert(self.entries@[i] == old(self).entries@[shift(i)]);
                    assert(self.entries@[j] == old(self).entries@[shift(j)]);
                }
            }
            assert forall|other: Seq<char>| self@.contains_key(other) == want.contains_key(
                other,
            ) by {
                if self@.contains_key(other) {
                    let i = self.index_of(other);
                    assert(self.entries@[i] == old(self).entries@[shift(i)]);
                    old(self).lemma_entry(shift(i));
                }
                if want.contains_key(other) {
                    let i = old(self).index_of(other);
                    let k = if i < at {
                        i
                    } else {
                        i - 1
                    };
                    assert(self.entries@[k] == old(self).entries@[shift(k)]);
                    self.lemma_entry(k);
                }
            }
            assert forall|other: Seq<char>| #[trigger] self@.contains_key(other) implies self@[other]
                == want[other] by {
                let i = self.index_of(other);
                assert(self.entries@[i] == old(self).entries@[shift(i)]);
                old(self).lemma_entry(shift(i));
            }
            assert(self@ =~= want);
        }
    }

    /// Applies `action` to `hostname` as it stands, without regard to the
    /// client's session.
    pub fn apply(&mut self, hostname: &str, action: ClientListAction)
        requires
            old(self).wf(),
        ensures
            final(self).wf(),
            final(self)@ == after_action(old(self)@, hostname@, action),
    {
        let at = self.position(hostname);
        let known = at < self.entries.len();
        match action {
            ClientListAction::AddIfMissing => {
                if !known {
                    self.entries.push(
                        ClientEntry {
                            hostname: String::from_str(hostname),
                            connection_state: ConnectionState::Disconnected,
                        },
                    );
                    proof {
                        let want = old(self)@.insert(hostname@, ConnectionState::Disconnected);
                        let last = self.entries@.len() - 1;
                        assert forall|k: int| 0 <= k < last implies #[trigger] self.entries@[k]
                            == old(self).entries@[k] by {}
                        assert(self.wf()) by {
                            assert forall|i: int, j: int|
                                0 <= i < j < self.entries@.len() implies self.entries@[i].hostname@
                                != self.entries@[j].hostname@ by {
                                if j == last {
                                    old(self).lemma_entry(i);
                                }
                            }
                        }
                        assert forall|other: Seq<char>| self@.contains_key(other)
                            == want.contains_key(other) by {
                            if self@.contains_key(other) {
                                let i = self.index_of(other);
                                if i < last {
                                    old(self).lemma_entry(i);
                                }
                            }
                            if want.contains_key(other) {
                                if other == hostname@ {
                                    self.lemma_entry(last);
                                } else {
                                    let i = old(self).index_of(other);
                                    self.lemma_entry(i);
                                }
                            }
                        }
                        assert forall|other: Seq<char>| #[trigger]
                            self@.contains_key(other) implies self@[other] == want[other] by {
                            let i = self.index_of(other);
                            if i < last {
                                old(self).lemma_entry(i);
                            }
                        }
                        assert(self@ =~= want);
                    }
                } else {
                    proof {
                        self.lemma_entry(at as int);
                    }
                }
            },
            ClientListAction::SetConnectionState(state) => {
                if known {
                    self.set_at(at, state);
                }
            },
            ClientListAction::RemoveEntry => {
                if known {
                    self.remove_at(at);
                } else {
                    assert(self@.remove(hostname@) =~= self@);
                }
            },
        }
    }

    /// Handles a request to remove `hostname`. A disconnected client is
    /// removed at once. A client in any other state stays registered and is
    /// marked for removal. An unknown hostname changes nothing.
    pub fn request_removal(&mut self, hostname: &str) -> (outcome: Removal)
        requires
            old(self).wf(),
        ensures
            final(self).wf(),
            final(self)@ == after_removal_request(old(self)@, hostname@),
            outcome == removal_outcome(old(self)@, hostname@),
    {
        match self.get(hostname) {
            None => Removal::Absent,
            Some(ConnectionState::Disconnected) => {
                self.apply(hostname, ClientListAction::RemoveEntry);
                Removal::Removed
            },
            Some(_) => {
                self.apply(
                    hostname,
                    ClientListAction::SetConnectionState(
                        ConnectionState::Disconnecting { should_be_removed: true },
                    ),
                );
                Removal::Deferred
            },
        }
    }
}

/// A client that is asked to be removed while it is not disconnected stays
/// in the registry, marked for removal; a disconnected one is gone; and
/// asking again for a client that is gone changes nothing.
pub proof fn lemma_removal_request(clients: Map<Seq<char>, ConnectionState>, hostname: Seq<char>)
    ensures
        ({
            let after = after_removal_request(clients, hostname);
            &&& removal_outcome(clients, hostname) == Removal::Removed ==> !after.contains_key(
                hostname,
            )
            &&& removal_outcome(clients, hostname) == Removal::Deferred ==> after.contains_key(
                hostname,
            ) && after[hostname] == marked_for_removal()
            &&& removal_outcome(clients, hostname) == Removal::Absent ==> after == clients
            &&& forall|other: Seq<char>|
                other != hostname ==> (after.contains_key(other) == clients.contains_key(other))
                    && (clients.contains_key(other) ==> after[other] == clients[other])
            &&& !after.contains_key(hostname) ==> after_removal_request(after, hostname) == after
        }),
{
}

} // verus!
