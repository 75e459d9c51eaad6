//! The state that all connections of a broker share: the options, the
//! subscriptions, the retained messages, the registry of clients, and the
//! messages that wait to be handed to the mailboxes of other sessions.

use vstd::prelude::*;
use crate::config::Config;
use crate::pending::lemma_filter_take_step;
use crate::retain::RetainTable;
use crate::route::RouteTable;
use crate::topic::TopicFilter;
use crate::topic::TopicName;
use crate::types::share;
use crate::types::ClientId;
use crate::types::Payload;
use crate::types::Protocol;
use crate::types::QoS;
use crate::types::SharedString;
use crate::v5::types::PublishProperties;

verus! {

/// A message from one session to the session of a subscriber.
#[derive(Debug)]
pub enum NormalMessage {
    PublishV3 {
        topic_name: TopicName,
        qos: QoS,
        retain: bool,
        payload: Payload,
        subscribe_filter: TopicFilter,
        subscribe_qos: QoS,
        encode_len: usize,
    },
    PublishV5 {
        topic_name: TopicName,
        qos: QoS,
        retain: bool,
        payload: Payload,
        subscribe_filter: TopicFilter,
        subscribe_qos: QoS,
        properties: PublishProperties,
        encode_len: usize,
        /// The time at which the message expires, if it does.
        expiry: Option<u64>,
    },
}

/// A message that steers the loop of a session.
#[derive(Debug)]
pub enum ControlMessage {
    /// A version 3.x connection with the same identifier takes the session
    /// over. `sender` names the channel on which it waits for the state.
    OnlineV3 { sender: u64 },
    /// A version 5.0 connection with the same identifier takes the session
    /// over. `sender` names the channel on which it waits for the state.
    OnlineV5 { sender: u64 },
    /// The session is to end.
    Kick { reason: SharedString },
    /// The will delay of the connection made at `connected_time` has passed.
    WillDelayReached { connected_time: u64 },
    /// The session of the connection made at `connected_time` has expired.
    SessionExpired { connected_time: u64 },
}

/// The receiving ends of the two mailboxes of a client, by the numbers
/// under which the broker keeps them.
#[derive(Debug, Clone, Copy, PartialEq, Eq, Structural)]
pub struct ClientReceiver {
    pub control: u64,
    pub normal: u64,
}

/// A routed publish on its way to the mailbox of `receiver`.
#[derive(Debug)]
pub struct Delivery {
    pub sender: ClientId,
    pub receiver: ClientId,
    pub message: NormalMessage,
}

/// What the registry knows of one client.
#[derive(Debug)]
pub struct ClientEntry {
    /// The identifier the client connected with.
    pub identifier: SharedString,
    pub client_id: ClientId,
    /// The protocol version of its latest connection.
    pub protocol: Protocol,
    /// Whether a connection of the client is open.
    pub online: bool,
}

/// What the registry did with a connecting client.
#[derive(Debug, Clone, Copy, PartialEq, Eq, Structural)]
pub enum AddClientReceipt {
    /// The identifier was known. The connection takes over the session of
    /// `client_id`, whose loop was running if `online`.
    Present { client_id: ClientId, online: bool },
    /// The identifier was new and got `client_id`.
    New { client_id: ClientId },
    /// The identifier belongs to a session of the other protocol family
    /// and the options do not permit such a takeover, or no client id is
    /// left to assign: the connection is to be refused.
    Rejected,
}

/// The test for clients that are online.
pub open spec fn is_online() -> spec_fn(ClientEntry) -> bool {
    |e: ClientEntry| e.online
}

/// Whether no client in `s` has the identifier `identifier`.
pub open spec fn identifier_absent(s: Seq<ClientEntry>, identifier: Seq<char>) -> bool {
    forall|i: int| 0 <= i < s.len() ==> (#[trigger] s[i]).identifier@ != identifier
}

/// Whether no client in `s` has the client id `client_id`.
pub open spec fn client_absent(s: Seq<ClientEntry>, client_id: ClientId) -> bool {
    forall|i: int| 0 <= i < s.len() ==> (#[trigger] s[i]).client_id != client_id
}

/// Whether two protocol versions belong to the same family: both 3.x, or
/// both 5.0.
pub open spec fn same_family(a: Protocol, b: Protocol) -> bool {
    a.spec_is_v5() == b.spec_is_v5()
}

/// Whether the registry refuses a connection that gives `identifier`: the
/// identifier belongs to a session of the other protocol family and such
/// a takeover is not allowed, or the identifier is new and no client id
/// is left for it.
pub open spec fn registry_rejects(
    s: Seq<ClientEntry>,
    next_client_id: ClientId,
    identifier: Seq<char>,
    protocol: Protocol,
    allow_cross_version: bool,
) -> bool {
    ||| identifier_absent(s, identifier) && next_client_id == u64::MAX
    ||| !allow_cross_version && exists|i: int|
        0 <= i < s.len() && (#[trigger] s[i]).identifier@ == identifier && !same_family(
            s[i].protocol,
            protocol,
        )
}

/// Whether `new` is the registry `old` without the client `client_id`.
pub open spec fn client_removed(old: Seq<ClientEntry>, new: Seq<ClientEntry>, client_id: ClientId) -> bool {
    ||| client_absent(old, client_id) && new == old
    ||| exists|i: int|
        0 <= i < old.len() && (#[trigger] old[i]).client_id == client_id && new == old.remove(i)
}

/// The registry of clients: who is known, and who is online.
pub struct ClientRegistry {
    clients: Vec<ClientEntry>,
    next_client_id: ClientId,
}

impl View for ClientRegistry {
    type V = Seq<ClientEntry>;

    closed spec fn view(&self) -> Seq<ClientEntry> {
        self.clients@
    }
}

impl ClientRegistry {
    /// The client id that the next new identifier gets.
    pub closed spec fn spec_next_client_id(&self) -> ClientId {
        self.next_client_id
    }

    /// The registry is well formed: no identifier and no client id occurs
    /// twice, and every client id in it was assigned before the next one.
    pub open spec fn wf(&self) -> bool {
        &&& forall|i: int, j: int|
            0 <= i < j < self@.len() ==> (#[trigger] self@[i]).identifier@ != (
            #[trigger] self@[j]).identifier@
        &&& forall|i: int, j: int|
            0 <= i < j < self@.len() ==> (#[trigger] self@[i]).client_id != (
            #[trigger] self@[j]).client_id
        &&& forall|i: int|
            0 <= i < self@.len() ==> (#[trigger] self@[i]).client_id < self.spec_next_client_id()
    }

    /// A registry without clients.
    pub fn new() -> (registry: ClientRegistry)
        ensures
            registry.wf(),
            registry@.len() == 0,
            registry.spec_next_client_id() == 0,
    {
        ClientRegistry { clients: Vec::new(), next_client_id: 0 }
    }

    /// The index of the client with the identifier.
    fn find_identifier(&self, identifier: &SharedString) -> (index: Option<usize>)
        ensures
            match index {
                Some(i) => i < self@.len() && self@[i as int].identifier@ == identifier@,
                None => identifier_absent(self@, identifier@),
            },
    {
        let mut i: usize = 0;
        while i < self.clients.len()
            invariant
                i <= self.clients.len(),
                forall|j: int|
                    0 <= j < i ==> (#[trigger] self.clients@[j]).identifier@ != identifier@,
            decreases self.clients.len() - i,
        {
            if *self.clients[i].identifier == **identifier {
                return Some(i);
            }
            i += 1;
        }
        None
    }

    /// The index of the client with the client id.
    fn find_client(&self, client_id: ClientId) -> (index: Option<usize>)
        ensures
            match index {
                Some(i) => i < self@.len() && self@[i as int].client_id == client_id,
                None => client_absent(self@, client_id),
            },
    {
        let mut i: usize = 0;
        while i < self.clients.len()
            invariant
                i <= self.clients.len(),
                forall|j: int| 0 <= j < i ==> (#[trigger] self.clients@[j]).client_id != client_id,
            decreases self.clients.len() - i,
        {
            if self.clients[i].client_id == client_id {
                return Some(i);
            }
            i += 1;
        }
        None
    }

    /// The client id that an identifier has, if it is known.
    pub fn get_client_id(&self, identifier: &SharedString) -> (client_id: Option<ClientId>)
        ensures
            client_id is None <==> identifier_absent(self@, identifier@),
            client_id matches Some(id) ==> exists|i: int|
                0 <= i < self@.len() && (#[trigger] self@[i]).identifier@ == identifier@
                    && self@[i].client_id == id,
    {
        match self.find_identifier(identifier) {
            Some(i) => {
                assert(self@[i as int].identifier@ == identifier@);
                Some(self.clients[i].client_id)
            },
            None => None,
        }
    }

    /// Whether the client is known and online.
    pub fn is_client_online(&self, client_id: ClientId) -> (online: bool)
        requires
            self.wf(),
        ensures
            online == exists|i: int|
                0 <= i < self@.len() && (#[trigger] self@[i]).client_id == client_id
                    && self@[i].online,
    {
        match self.find_client(client_id) {
            Some(i) => {
                assert(self@[i as int].client_id == client_id);
                assert forall|j: int|
                    0 <= j < self@.len() && (#[trigger] self@[j]).client_id == client_id implies j
                    == i by {
                    if j < i {
                        assert(self@[j].client_id != self@[i as int].client_id);
                    } else if i < j {
                        assert(self@[i as int].client_id != self@[j].client_id);
                    }
                }
                self.clients[i].online
            },
            None => false,
        }
    }

    /// Sets the online flag (and, with `protocol`, the protocol version) of
    /// the client at an index.
    fn update_at(&mut self, index: usize, online: bool, protocol: Option<Protocol>)
        requires
            old(self).wf(),
            index < old(self)@.len(),
        ensures
            final(self).wf(),
            final(self).spec_next_client_id() == old(self).spec_next_client_id(),
            final(self)@ == old(self)@.update(
                index as int,
                (ClientEntry {
                    online,
                    protocol: match protocol {
                        Some(p) => p,
                        None => old(self)@[index as int].protocol,
                    },
                    ..old(self)@[index as int]
                }),
            ),
    {
        let mut entry = self.clients.remove(index);
        entry.online = online;
        match protocol {
            Some(p) => {
                entry.protocol = p;
            },
            None => {},
        }
        self.clients.insert(index, entry);
        assert(self.clients@ =~= old(self)@.update(index as int, entry));
    }

    /// Registers a connection that gave `identifier`. A known identifier
    /// keeps its client id and its one entry, which is online afterwards:
    /// the connection takes the session over, unless the session is of the
    /// other protocol family and `allow_cross_version` is false. A new
    /// identifier gets the next client id and an entry that is online.
    pub fn add_client(
        &mut self,
        identifier: &SharedString,
        protocol: Protocol,
        allow_cross_version: bool,
    ) -> (receipt: AddClientReceipt)
        requires
            old(self).wf(),
        ensures
            final(self).wf(),
            receipt is Rejected <==> registry_rejects(
                old(self)@,
                old(self).spec_next_client_id(),
                identifier@,
                protocol,
                allow_cross_version,
            ),
            receipt is New <==> identifier_absent(old(self)@, identifier@) && old(self).spec_next_client_id() != u64::MAX,
            match receipt {
                AddClientReceipt::Present { client_id, online } => exists|i: int|
                    0 <= i < old(self)@.len() && (#[trigger] old(self)@[i]).identifier@
                        == identifier@ && old(self)@[i].client_id == client_id && old(self)@[i].online
                        == online && (allow_cross_version || same_family(
                        old(self)@[i].protocol,
                        protocol,
                    )) && final(self)@ == old(self)@.update(
                        i,
                        (ClientEntry { online: true, protocol, ..old(self)@[i] }),
                    ) && final(self).spec_next_client_id() == old(self).spec_next_client_id(),
                AddClientReceipt::New { client_id } => {
                    &&& identifier_absent(old(self)@, identifier@)
                    &&& client_id == old(self).spec_next_client_id()
                    &&& final(self).spec_next_client_id() == client_id + 1
                    &&& final(self)@ == old(self)@.push(
                        (ClientEntry { identifier: *identifier, client_id, protocol, online: true }),
                    )
                },
                AddClientReceipt::Rejected => {
                    &&& final(self)@ == old(self)@
                    &&& final(self).spec_next_client_id() == old(self).spec_next_client_id()
                    &&& (identifier_absent(old(self)@, identifier@) && old(self).spec_next_client_id() == u64::MAX) || (!allow_cross_version && exists|i: int|
                        0 <= i < old(self)@.len() && (#[trigger] old(self)@[i]).identifier@
                            == identifier@ && !same_family(old(self)@[i].protocol, protocol))
                },
            },
    {
        match self.find_identifier(identifier) {
            Some(i) => {
                assert(old(self)@[i as int].identifier@ == identifier@);
                assert forall|j: int|
                    0 <= j < old(self)@.len() && (#[trigger] old(self)@[j]).identifier@
                        == identifier@ implies j == i by {
                    old(self).lemma_one_session_per_identifier(i as int, j);
                }
                let known = &self.clients[i];
                if !allow_cross_version && known.protocol.is_v5() != protocol.is_v5() {
                    return AddClientReceipt::Rejected;
                }
                let client_id = known.client_id;
                let online = known.online;
                self.update_at(i, true, Some(protocol));
                AddClientReceipt::Present { client_id, online }
            },
            None => {
                if self.next_client_id == u64::MAX {
                    return AddClientReceipt::Rejected;
                }
                let client_id = self.next_client_id;
                self.clients.push(
                    ClientEntry { identifier: share(identifier), client_id, protocol, online: true },
                );
                self.next_client_id = client_id + 1;
                AddClientReceipt::New { client_id }
            },
        }
    }

    /// Forgets the client. The result says whether it was known.
    pub fn remove_client(&mut self, client_id: ClientId) -> (removed: bool)
        requires
            old(self).wf(),
        ensures
            final(self).wf(),
            final(self).spec_next_client_id() == old(self).spec_next_client_id(),
            client_absent(final(self)@, client_id),
            client_removed(old(self)@, final(self)@, client_id),
            removed == !client_absent(old(self)@, client_id),
            !removed ==> final(self)@ == old(self)@,
            removed ==> exists|i: int|
                0 <= i < old(self)@.len() && (#[trigger] old(self)@[i]).client_id == client_id
                    && final(self)@ == old(self)@.remove(i),
    {
        match self.find_client(client_id) {
            Some(i) => {
                assert(old(self)@[i as int].client_id == client_id);
                self.clients.remove(i);
                true
            },
            None => false,
        }
    }

    /// Marks the client as online or offline, without removing it. The
    /// result says whether it was known.
    pub fn set_online(&mut self, client_id: ClientId, online: bool) -> (found: bool)
        requires
            old(self).wf(),
        ensures
            final(self).wf(),
            final(self).spec_next_client_id() == old(self).spec_next_client_id(),
            found == !client_absent(old(self)@, client_id),
            !found ==> final(self)@ == old(self)@,
            found ==> exists|i: int|
                0 <= i < old(self)@.len() && (#[trigger] old(self)@[i]).client_id == client_id
                    && final(self)@ == old(self)@.update(
                    i,
                    (ClientEntry { online, ..old(self)@[i] }),
                ),
    {
        match self.find_client(client_id) {
            Some(i) => {
                assert(old(self)@[i as int].client_id == client_id);
                self.update_at(i, online, None);
                true
            },
            None => false,
        }
    }

    /// The number of clients.
    pub fn clients_count(&self) -> (n: usize)
        ensures
            n == self@.len(),
    {
        self.clients.len()
    }

    /// The number of clients that are online.
    pub fn online_clients_count(&self) -> (n: usize)
        ensures
            n == self@.filter(is_online()).len(),
            n <= self@.len(),
    {
        let ghost pred = is_online();
        let mut n: usize = 0;
        let mut i: usize = 0;
        assert(self.clients@.take(0).filter(pred).len() == 0) by {
            reveal(Seq::filter);
        }
        while i < self.clients.len()
            invariant
                i <= self.clients.len(),
                pred == is_online(),
                n == self.clients@.take(i as int).filter(pred).len(),
                n <= i,
            decreases self.clients.len() - i,
        {
            proof {
                lemma_filter_take_step(self.clients@, pred, i as int);
            }
            if self.clients[i].online {
                assert(pred(self.clients@[i as int]));
                n += 1;
            } else {
                assert(!pred(self.clients@[i as int]));
            }
            i += 1;
        }
        assert(self.clients@.take(i as int) =~= self.clients@);
        n
    }

    /// Of two entries with the same identifier, there is only one: no
    /// identifier has two sessions, online or not.
    pub proof fn lemma_one_session_per_identifier(&self, i: int, j: int)
        requires
            self.wf(),
            0 <= i < self@.len(),
            0 <= j < self@.len(),
            self@[i].identifier@ == self@[j].identifier@,
        ensures
            i == j,
    {
        if i < j {
            assert(self@[i].identifier@ != self@[j].identifier@);
        } else if j < i {
            assert(self@[j].identifier@ != self@[i].identifier@);
        }
    }
}

/// The state that all connections share.
pub struct GlobalState {
    pub config: Config,
    pub route_table: RouteTable,
    pub retain_table: RetainTable,
    pub clients: ClientRegistry,
    /// The routed publishes that no mailbox has taken yet, oldest first.
    pub outbox: Vec<Delivery>,
}

/// Whether `g1` is the shared state `g0` after the session of
/// `client_id` ended for good: the client is forgotten, and so is every
/// subscription it had.
pub open spec fn session_ended(g0: GlobalState, g1: GlobalState, client_id: ClientId) -> bool {
    &&& g1.config == g0.config
    &&& g1.retain_table == g0.retain_table
    &&& g1.outbox == g0.outbox
    &&& g1.route_table@ == g0.route_table@.filter(crate::route::not_of(client_id))
    &&& client_absent(g1.clients@, client_id)
    &&& client_removed(g0.clients@, g1.clients@, client_id)
}

impl GlobalState {
    /// The state is well formed: each of its tables is.
    pub open spec fn wf(&self) -> bool {
        &&& self.route_table.wf()
        &&& self.retain_table.wf()
        &&& self.clients.wf()
    }

    /// The state of a broker that has just started.
    pub fn new(config: Config) -> (global: GlobalState)
        ensures
            global.wf(),
            global.config == config,
            global.route_table@.len() == 0,
            global.retain_table@.len() == 0,
            global.clients@.len() == 0,
            global.outbox@.len() == 0,
    {
        GlobalState {
            config,
            route_table: RouteTable::new(),
            retain_table: RetainTable::new(),
            clients: ClientRegistry::new(),
            outbox: Vec::new(),
        }
    }

    /// The number of clients.
    pub fn clients_count(&self) -> (n: usize)
        ensures
            n == self.clients@.len(),
    {
        self.clients.clients_count()
    }

    /// The number of clients that are online.
    pub fn online_clients_count(&self) -> (n: usize)
        ensures
            n == self.clients@.filter(is_online()).len(),
    {
        self.clients.online_clients_count()
    }

    /// Registers a connection that gave `identifier`: see
    /// [`ClientRegistry::add_client`]. Whether a session of the other
    /// protocol family may be taken over is read from the options.
    pub fn add_client(&mut self, identifier: &SharedString, protocol: Protocol) -> (receipt:
        AddClientReceipt)
        requires
            old(self).wf(),
        ensures
            final(self).wf(),
            final(self).config == old(self).config,
            final(self).route_table == old(self).route_table,
            final(self).retain_table == old(self).retain_table,
            final(self).outbox == old(self).outbox,
            receipt is Rejected <==> registry_rejects(
                old(self).clients@,
                old(self).clients.spec_next_client_id(),
                identifier@,
                protocol,
                old(self).config.allow_cross_version_takeover,
            ),
            receipt is New <==> identifier_absent(old(self).clients@, identifier@) && old(self).clients.spec_next_client_id() != u64::MAX,
            receipt is Rejected ==> final(self).clients@ == old(self).clients@,
            receipt matches AddClientReceipt::New { client_id } ==> identifier_absent(
                old(self).clients@,
                identifier@,
            ) && final(self).clients@ == old(self).clients@.push(
                (ClientEntry { identifier: *identifier, client_id, protocol, online: true }),
            ),
            receipt matches AddClientReceipt::Present { client_id, online } ==> exists|i: int|
                0 <= i < old(self).clients@.len() && (#[trigger] old(self).clients@[i]).identifier@
                    == identifier@ && old(self).clients@[i].client_id == client_id && old(self).clients@[i].online == online && final(self).clients@ == old(self).clients@.update(
                    i,
                    (ClientEntry { online: true, protocol, ..old(self).clients@[i] }),
                ),
    {
        let allow = self.config.allow_cross_version_takeover;
        self.clients.add_client(identifier, protocol, allow)
    }

    /// Forgets the client and every subscription it has.
    pub fn remove_client(&mut self, client_id: ClientId)
        requires
            old(self).wf(),
        ensures
            final(self).wf(),
            final(self).config == old(self).config,
            final(self).retain_table == old(self).retain_table,
            final(self).outbox == old(self).outbox,
            final(self).route_table@ == old(self).route_table@.filter(
                crate::route::not_of(client_id),
            ),
            client_absent(final(self).clients@, client_id),
            client_removed(old(self).clients@, final(self).clients@, client_id),
    {
        self.route_table.remove_client(client_id);
        let _ = self.clients.remove_client(client_id);
    }

    /// Marks the client as offline without removing it.
    pub fn offline_client(&mut self, client_id: ClientId)
        requires
            old(self).wf(),
        ensures
            final(self).wf(),
            final(self).config == old(self).config,
            final(self).route_table == old(self).route_table,
            final(self).retain_table == old(self).retain_table,
            final(self).outbox == old(self).outbox,
            final(self).clients@.len() == old(self).clients@.len(),
            forall|i: int|
                0 <= i < old(self).clients@.len() ==> #[trigger] final(self).clients@[i] == (if old(self).clients@[i].client_id == client_id {
                    ClientEntry { online: false, ..old(self).clients@[i] }
                } else {
                    old(self).clients@[i]
                }),
    {
        let _ = self.clients.set_online(client_id, false);
    }

    /// Marks the client as online again.
    pub fn online_client(&mut self, client_id: ClientId)
        requires
            old(self).wf(),
        ensures
            final(self).wf(),
            final(self).config == old(self).config,
            final(self).route_table == old(self).route_table,
            final(self).retain_table == old(self).retain_table,
            final(self).outbox == old(self).outbox,
            final(self).clients@.len() == old(self).clients@.len(),
            forall|i: int|
                0 <= i < old(self).clients@.len() ==> #[trigger] final(self).clients@[i] == (if old(self).clients@[i].client_id == client_id {
                    ClientEntry { online: true, ..old(self).clients@[i] }
                } else {
                    old(self).clients@[i]
                }),
    {
        let _ = self.clients.set_online(client_id, true);
    }

    /// Takes the routed publishes that wait for a mailbox, oldest first.
    pub fn take_outbox(&mut self) -> (deliveries: Vec<Delivery>)
        ensures
            deliveries == old(self).outbox,
            final(self).outbox@.len() == 0,
            final(self).config == old(self).config,
            final(self).route_table == old(self).route_table,
            final(self).retain_table == old(self).retain_table,
            final(self).clients == old(self).clients,
    {
        let mut deliveries: Vec<Delivery> = Vec::new();
        std::mem::swap(&mut self.outbox, &mut deliveries);
        deliveries
    }
}

} // verus!
