//! The process lifecycle and the per-client connection state machine.

use vstd::prelude::*;

verus! {

/// The process-wide lifecycle. It only ever moves forward.
#[derive(Clone, Copy, Debug, PartialEq, Eq, Structural)]
pub enum LifecycleState {
    StartingUp,
    Resumed,
    ShuttingDown,
}

/// The connection state of one client.
#[derive(Clone, Copy, Debug, PartialEq, Eq, Structural)]
pub enum ConnectionState {
    Connecting,
    Connected,
    Disconnecting,
    Disconnected,
}

/// What can happen to a client's connection.
#[derive(Clone, Copy, Debug, PartialEq, Eq, Structural)]
pub enum ClientEvent {
    HandshakeSucceeded,
    HandshakeFailed,
    ConnectionLost,
    TeardownCompleted,
}

/// Position of a lifecycle state in the order in which the states are passed.
pub open spec fn lifecycle_rank(state: LifecycleState) -> nat {
    match state {
        LifecycleState::StartingUp => 0,
        LifecycleState::Resumed => 1,
        LifecycleState::ShuttingDown => 2,
    }
}

/// The lifecycle after the host asked for connections to start.
pub open spec fn resumed_from(state: LifecycleState) -> LifecycleState {
    match state {
        LifecycleState::StartingUp => LifecycleState::Resumed,
        other => other,
    }
}

/// The state that `event` leads to from `state`, where the machine has such
/// a transition.
pub open spec fn transition(state: ConnectionState, event: ClientEvent) -> Option<ConnectionState> {
    match (state, event) {
        (ConnectionState::Connecting, ClientEvent::HandshakeSucceeded) => Some(
            ConnectionState::Connected,
        ),
        (ConnectionState::Connecting, ClientEvent::HandshakeFailed) => Some(
            ConnectionState::Disconnected,
        ),
        (ConnectionState::Connected, ClientEvent::ConnectionLost) => Some(
            ConnectionState::Disconnecting,
        ),
        (ConnectionState::Disconnecting, ClientEvent::TeardownCompleted) => Some(
            ConnectionState::Disconnected,
        ),
        _ => None,
    }
}

/// The state of a client once the process winds down: whoever is neither
/// disconnected nor disconnecting starts to disconnect.
pub open spec fn wound_down(state: ConnectionState) -> ConnectionState {
    match state {
        ConnectionState::Connecting => ConnectionState::Disconnecting,
        ConnectionState::Connected => ConnectionState::Disconnecting,
        other => other,
    }
}

/// One row of the client table.
pub struct ClientModel {
    pub hostname: Seq<char>,
    pub state: ConnectionState,
}

/// Some row of the table belongs to `hostname`.
pub open spec fn listed(clients: Seq<ClientModel>, hostname: Seq<char>) -> bool {
    exists|i: int| 0 <= i < clients.len() && (#[trigger] clients[i]).hostname == hostname
}

/// No two rows of the table belong to the same client.
pub open spec fn distinct_clients(clients: Seq<ClientModel>) -> bool {
    forall|i: int, j: int|
        0 <= i < clients.len() && 0 <= j < clients.len() && i != j ==> (#[trigger] clients[i]).hostname
            != (#[trigger] clients[j]).hostname
}

/// The table after the client `hostname` began a handshake: a client not
/// listed gets a row, a disconnected one starts over, any other stays.
pub open spec fn with_handshake(clients: Seq<ClientModel>, hostname: Seq<char>) -> Seq<ClientModel> {
    if listed(clients, hostname) {
        Seq::new(
            clients.len(),
            |j: int|
                if clients[j].hostname == hostname && clients[j].state == ConnectionState::Disconnected {
                    ClientModel { hostname, state: ConnectionState::Connecting }
                } else {
                    clients[j]
                },
        )
    } else {
        clients.push(ClientModel { hostname, state: ConnectionState::Connecting })
    }
}

/// A handshake of `hostname` can begin: the client is not listed, or is
/// disconnected.
pub open spec fn may_handshake(clients: Seq<ClientModel>, hostname: Seq<char>) -> bool {
    forall|i: int|
        0 <= i < clients.len() && (#[trigger] clients[i]).hostname == hostname ==> clients[i].state
            == ConnectionState::Disconnected
}

/// The machine has a transition for `event` from the state of `hostname`.
pub open spec fn accepts(clients: Seq<ClientModel>, hostname: Seq<char>, event: ClientEvent) -> bool {
    exists|i: int|
        0 <= i < clients.len() && (#[trigger] clients[i]).hostname == hostname && transition(
            clients[i].state,
            event,
        ).is_some()
}

/// The table after `event` reached the client `hostname`.
pub open spec fn applied(clients: Seq<ClientModel>, hostname: Seq<char>, event: ClientEvent) -> Seq<
    ClientModel,
> {
    Seq::new(
        clients.len(),
        |j: int|
            if clients[j].hostname == hostname && transition(clients[j].state, event).is_some() {
                ClientModel { hostname, state: transition(clients[j].state, event).unwrap() }
            } else {
                clients[j]
            },
    )
}

/// The row of the client `hostname` in a table that lists it.
pub open spec fn row_of(clients: Seq<ClientModel>, hostname: Seq<char>) -> int {
    choose|i: int| 0 <= i < clients.len() && (#[trigger] clients[i]).hostname == hostname
}

/// The client `hostname` is listed and disconnected.
pub open spec fn is_down(clients: Seq<ClientModel>, hostname: Seq<char>) -> bool {
    listed(clients, hostname) && clients[row_of(clients, hostname)].state
        == ConnectionState::Disconnected
}

/// The table after the disconnection of `hostname` was acknowledged: the
/// row of a disconnected client leaves, any other table stays as it is.
pub open spec fn acknowledged(clients: Seq<ClientModel>, hostname: Seq<char>) -> Seq<ClientModel> {
    if is_down(clients, hostname) {
        clients.remove(row_of(clients, hostname))
    } else {
        clients
    }
}

/// The table with every client wound down.
pub open spec fn all_wound_down(clients: Seq<ClientModel>) -> Seq<ClientModel> {
    Seq::new(
        clients.len(),
        |i: int| ClientModel { hostname: clients[i].hostname, state: wound_down(clients[i].state) },
    )
}

/// Every client of the table is disconnected.
pub open spec fn all_disconnected(clients: Seq<ClientModel>) -> bool {
    forall|i: int| 0 <= i < clients.len() ==> (#[trigger] clients[i]).state == ConnectionState::Disconnected
}

/// Some client of the table is connected.
pub open spec fn any_connected(clients: Seq<ClientModel>) -> bool {
    exists|i: int| 0 <= i < clients.len() && (#[trigger] clients[i]).state == ConnectionState::Connected
}

/// Frames may be dispatched: the process is resumed and a client is connected.
pub open spec fn dispatch_permitted(lifecycle: LifecycleState, clients: Seq<ClientModel>) -> bool {
    lifecycle == LifecycleState::Resumed && any_connected(clients)
}

impl ConnectionState {
    /// Takes the transition for `event`, where the machine has one.
    pub fn on_event(self, event: ClientEvent) -> (next: Option<ConnectionState>)
        ensures
            next == transition(self, event),
    {
        match (self, event) {
            (ConnectionState::Connecting, ClientEvent::HandshakeSucceeded) => Some(
                ConnectionState::Connected,
            ),
            (ConnectionState::Connecting, ClientEvent::HandshakeFailed) => Some(
                ConnectionState::Disconnected,
            ),
            (ConnectionState::Connected, ClientEvent::ConnectionLost) => Some(
                ConnectionState::Disconnecting,
            ),
            (ConnectionState::Disconnecting, ClientEvent::TeardownCompleted) => Some(
                ConnectionState::Disconnected,
            ),
            _ => None,
        }
    }

    pub fn wind_down(self) -> (next: ConnectionState)
        ensures
            next == wound_down(self),
    {
        match self {
            ConnectionState::Connecting => ConnectionState::Disconnecting,
            ConnectionState::Connected => ConnectionState::Disconnecting,
            other => other,
        }
    }
}

/// The clients known to the server, one row for each.
pub struct ClientTable {
    hostnames: Vec<String>,
    states: Vec<ConnectionState>,
}

impl View for ClientTable {
    type V = Seq<ClientModel>;

    closed spec fn view(&self) -> Seq<ClientModel> {
        Seq::new(
            self.states@.len(),
            |i: int| ClientModel { hostname: self.hostnames@[i]@, state: self.states@[i] },
        )
    }
}

impl ClientTable {
    pub closed spec fn wf(&self) -> bool {
        &&& self.hostnames@.len() == self.states@.len()
        &&& distinct_clients(self@)
    }

    /// A well-formed table lists every client once.
    pub proof fn lemma_rows_distinct(&self)
        requires
            self.wf(),
        ensures
            distinct_clients(self@),
    {
    }

    pub fn new() -> (t: Self)
        ensures
            t.wf(),
            t@ == Seq::<ClientModel>::empty(),
    {
        let t = ClientTable { hostnames: Vec::new(), states: Vec::new() };
        proof {
            assert(t@ =~= Seq::<ClientModel>::empty());
        }
        t
    }

    pub fn len(&self) -> (n: usize)
        ensures
            n == self@.len(),
    {
        self.states.len()
    }

    fn position(&self, hostname: &String) -> (r: Option<usize>)
        requires
            self.wf(),
        ensures
            match r {
                Some(i) => i < self@.len() && self@[i as int].hostname == hostname@,
                None => !listed(self@, hostname@),
            },
    {
        let mut i: usize = 0;
        while i < self.hostnames.len()
            invariant
                self.wf(),
                i <= self.hostnames@.len(),
                forall|j: int| 0 <= j < i ==> (#[trigger] self@[j]).hostname != hostname@,
            decreases self.hostnames@.len() - i,
        {
            if self.hostnames[i] == *hostname {
                return Some(i);
            }
            i = i + 1;
        }
        None
    }

    /// The state of the client `hostname`, if the table lists it.
    pub fn state_of(&self, hostname: &String) -> (r: Option<ConnectionState>)
        requires
            self.wf(),
        ensures
            r.is_some() == listed(self@, hostname@),
            forall|i: int|
                0 <= i < self@.len() && (#[trigger] self@[i]).hostname == hostname@ ==> r == Some(
                    self@[i].state,
                ),
    {
        match self.position(hostname) {
            Some(i) => Some(self.states[i]),
            None => None,
        }
    }

    /// A client starts its handshake. A client not listed gets a row; a
    /// disconnected one starts over; any other is left as it is. Returns
    /// whether the client is connecting because of this call.
    pub fn begin_handshake(&mut self, hostname: String) -> (started: bool)
        requires
            old(self).wf(),
        ensures
            final(self).wf(),
            final(self)@ == with_handshake(old(self)@, hostname@),
            started == may_handshake(old(self)@, hostname@),
    {
        match self.position(&hostname) {
            Some(i) => {
                if self.states[i] == ConnectionState::Disconnected {
                    self.states.set(i, ConnectionState::Connecting);
                    proof {
                        lemma_renamed_none(old(self)@, self@);
                        assert(self@ =~= with_handshake(old(self)@, hostname@));
                    }
                    true
                } else {
                    proof {
                        assert(self@ =~= with_handshake(old(self)@, hostname@));
                    }
                    false
                }
            },
            None => {
                self.hostnames.push(hostname);
                self.states.push(ConnectionState::Connecting);
                proof {
                    assert(self@ =~= old(self)@.push(
                        ClientModel { hostname: hostname@, state: ConnectionState::Connecting },
                    ));
                }
                true
            },
        }
    }

    /// Feeds `event` to the client `hostname`. Returns whether the machine
    /// had a transition for it; if not, or if the client is not listed,
    /// nothing changes.
    pub fn apply(&mut self, hostname: &String, event: ClientEvent) -> (moved: bool)
        requires
            old(self).wf(),
        ensures
            final(self).wf(),
            final(self)@ == applied(old(self)@, hostname@, event),
            moved == accepts(old(self)@, hostname@, event),
    {
        match self.position(hostname) {
            Some(i) => {
                match self.states[i].on_event(event) {
                    Some(next) => {
                        self.states.set(i, next);
                        proof {
                            lemma_renamed_none(old(self)@, self@);
                            assert(self@ =~= applied(old(self)@, hostname@, event));
                        }
                        true
                    },
                    None => {
                        proof {
                            assert(self@ =~= applied(old(self)@, hostname@, event));
                        }
                        false
                    },
                }
            },
            None => {
                proof {
                    assert(self@ =~= applied(old(self)@, hostname@, event));
                }
                false
            },
        }
    }

    /// Acknowledges the disconnection of `hostname`: the row of a
    /// disconnected client is removed. Returns whether a row was removed.
    pub fn acknowledge(&mut self, hostname: &String) -> (removed: bool)
        requires
            old(self).wf(),
        ensures
            final(self).wf(),
            final(self)@ == acknowledged(old(self)@, hostname@),
            removed == is_down(old(self)@, hostname@),
    {
        match self.position(hostname) {
            Some(i) => {
                proof {
                    lemma_row_of(self@, i as int);
                }
                if self.states[i] == ConnectionState::Disconnected {
                    self.hostnames.remove(i);
                    self.states.remove(i);
                    proof {
                        assert(self@ =~= old(self)@.remove(i as int));
                        assert forall|a: int, b: int|
                            0 <= a < self@.len() && 0 <= b < self@.len() && a != b implies (
                        #[trigger] self@[a]).hostname != (#[trigger] self@[b]).hostname by {
                            let a0 = if a < i { a } else { a + 1 };
                            let b0 = if b < i { b } else { b + 1 };
                            assert(self@[a] == old(self)@[a0]);
                            assert(self@[b] == old(self)@[b0]);
                        }
                    }
                    true
                } else {
                    false
                }
            },
            None => false,
        }
    }

    /// Winds every client down.
    pub fn disconnect_all(&mut self)
        requires
            old(self).wf(),
        ensures
            final(self).wf(),
            final(self)@ == all_wound_down(old(self)@),
    {
        let mut i: usize = 0;
        while i < self.states.len()
            invariant
                self.hostnames@ == old(self).hostnames@,
                self.states@.len() == old(self).states@.len(),
                self.hostnames@.len() == self.states@.len(),
                i <= self.states@.len(),
                forall|j: int| 0 <= j < i ==> #[trigger] self.states@[j] == wound_down(old(self).states@[j]),
                forall|j: int|
                    i <= j < self.states@.len() ==> #[trigger] self.states@[j] == old(self).states@[j],
            decreases self.states@.len() - i,
        {
            let next = self.states[i].wind_down();
            self.states.set(i, next);
            i = i + 1;
        }
        proof {
            assert(self@ =~= all_wound_down(old(self)@));
        }
    }

    pub fn all_disconnected(&self) -> (b: bool)
        requires
            self.wf(),
        ensures
            b == all_disconnected(self@),
    {
        let mut i: usize = 0;
        while i < self.states.len()
            invariant
                i <= self.states@.len(),
                forall|j: int| 0 <= j < i ==> (#[trigger] self@[j]).state == ConnectionState::Disconnected,
            decreases self.states@.len() - i,
        {
            if self.states[i] != ConnectionState::Disconnected {
                assert(self@[i as int].state != ConnectionState::Disconnected);
                return false;
            }
            i = i + 1;
        }
        true
    }

    pub fn any_connected(&self) -> (b: bool)
        requires
            self.wf(),
        ensures
            b == any_connected(self@),
    {
        let mut i: usize = 0;
        while i < self.states.len()
            invariant
                i <= self.states@.len(),
                forall|j: int| 0 <= j < i ==> (#[trigger] self@[j]).state != ConnectionState::Connected,
            decreases self.states@.len() - i,
        {
            if self.states[i] == ConnectionState::Connected {
                assert(self@[i as int].state == ConnectionState::Connected);
                return true;
            }
            i = i + 1;
        }
        false
    }
}

/// In a table that lists every client once, the row of a client is the one
/// row that bears its name.
pub proof fn lemma_row_of(clients: Seq<ClientModel>, i: int)
    requires
        distinct_clients(clients),
        0 <= i < clients.len(),
    ensures
        listed(clients, clients[i].hostname),
        row_of(clients, clients[i].hostname) == i,
{
    let hostname = clients[i].hostname;
    assert(listed(clients, hostname));
    let j = choose|j: int| 0 <= j < clients.len() && (#[trigger] clients[j]).hostname == hostname;
    assert(j == i);
}

/// A table whose rows keep their clients keeps them distinct.
pub proof fn lemma_renamed_none(before: Seq<ClientModel>, after: Seq<ClientModel>)
    requires
        distinct_clients(before),
        after.len() == before.len(),
        forall|i: int| 0 <= i < before.len() ==> (#[trigger] after[i]).hostname == before[i].hostname,
    ensures
        distinct_clients(after),
{
    assert forall|a: int, b: int| 0 <= a < after.len() && 0 <= b < after.len() && a != b implies (
    #[trigger] after[a]).hostname != (#[trigger] after[b]).hostname by {
        assert(before[a].hostname == after[a].hostname);
        assert(before[b].hostname == after[b].hostname);
    }
}

/// The lifecycle never moves backward: resuming keeps or raises the rank of
/// a state, and no state ranks above shutting down.
pub proof fn lemma_lifecycle_moves_forward(state: LifecycleState)
    ensures
        lifecycle_rank(resumed_from(state)) >= lifecycle_rank(state),
        lifecycle_rank(LifecycleState::ShuttingDown) >= lifecycle_rank(state),
        resumed_from(LifecycleState::ShuttingDown) == LifecycleState::ShuttingDown,
{
}

/// Winding down twice is winding down once.
pub proof fn lemma_wind_down_idempotent(clients: Seq<ClientModel>)
    ensures
        all_wound_down(all_wound_down(clients)) == all_wound_down(clients),
{
    assert(all_wound_down(all_wound_down(clients)) =~= all_wound_down(clients));
}

/// After winding down no client is connecting or connected, so no frame may
/// be dispatched.
pub proof fn lemma_wound_down_stops_dispatch(lifecycle: LifecycleState, clients: Seq<ClientModel>)
    ensures
        !dispatch_permitted(lifecycle, all_wound_down(clients)),
{
}

/// An event never takes a client that winds down, or is down, back up.
pub proof fn lemma_transitions_lead_down(state: ConnectionState, event: ClientEvent)
    requires
        state == ConnectionState::Disconnecting || state == ConnectionState::Disconnected,
    ensures
        transition(state, event).is_some() ==> transition(state, event) == Some(
            ConnectionState::Disconnected,
        ),
{
}

} // verus!
