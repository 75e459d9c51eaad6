//! What a version 5.0 session does with CONNECT.

use vstd::prelude::*;
use crate::config::Config;
use crate::route::not_of;
use crate::state::identifier_absent;
use crate::state::registry_rejects;
use crate::state::AddClientReceipt;
use crate::state::ClientEntry;
use crate::state::GlobalState;
use crate::types::share;
use crate::types::ClientId;
use crate::types::QoS;
use crate::types::SharedString;
use crate::v3::connect::Takeover;
use crate::v5::packet::Connect;
use crate::pending::alive_at;
use crate::pending::PendingPacket;
use crate::pending::PendingPackets;
use crate::pending::unsent_of;
use crate::v5::session::Session;
use crate::v5::session::PubPacket;
use crate::v5::session::SessionState;
use crate::v5::types::PublishProperties;
use crate::v5::types::ConnectReasonCode;

verus! {

/// The properties of a CONNACK.
#[derive(Debug)]
pub struct ConnackProperties {
    pub session_expiry_interval: Option<u32>,
    pub receive_max: Option<u16>,
    pub max_qos: Option<QoS>,
    pub retain_available: Option<bool>,
    pub max_packet_size: Option<u32>,
    pub assigned_client_id: Option<SharedString>,
    pub topic_alias_max: Option<u16>,
    pub wildcard_subscription_available: Option<bool>,
    pub subscription_id_available: Option<bool>,
    pub shared_subscription_available: Option<bool>,
    pub server_keep_alive: Option<u16>,
}

/// What became of a CONNECT.
#[derive(Debug)]
pub struct ConnectOutcome {
    /// The reason code of the CONNACK.
    pub code: ConnectReasonCode,
    /// The session-present flag of the CONNACK.
    pub session_present: bool,
    /// The session that the connection takes over, if the identifier was
    /// known.
    pub takeover: Option<Takeover>,
    /// The properties of the CONNACK, if the CONNECT was accepted.
    pub properties: Option<ConnackProperties>,
}

/// The identifier under which a CONNECT is registered: the one it gives,
/// or `fallback` if it gives none.
pub open spec fn effective_identifier(packet: Connect, fallback: SharedString) -> SharedString {
    if packet.client_id@.len() == 0 {
        fallback
    } else {
        packet.client_id
    }
}

/// Why a CONNECT is refused before the registry is asked, if it is: the
/// packet is not of protocol version 5.0; it asks for an authentication
/// method, of which the broker offers none here; it has no user name and
/// the broker takes no anonymous clients; it sets the receive maximum or
/// the maximum packet size to 0; or it gives no client identifier and
/// asks to keep the session.
pub open spec fn connect_refusal(packet: Connect, config: Config) -> Option<ConnectReasonCode> {
    if !packet.protocol.spec_is_v5() {
        Some(ConnectReasonCode::UnsupportedProtocolVersion)
    } else if packet.properties.auth_method is Some {
        Some(ConnectReasonCode::BadAuthMethod)
    } else if packet.username is None && !config.allow_anonymous {
        Some(ConnectReasonCode::BadUserNameOrPassword)
    } else if packet.properties.receive_max == Some(0u16) || packet.properties.max_packet_size
        == Some(0u32) {
        Some(ConnectReasonCode::ProtocolError)
    } else if packet.client_id@.len() == 0 && !packet.clean_start {
        Some(ConnectReasonCode::ClientIdentifierNotValid)
    } else {
        None
    }
}

/// The reason code of the CONNACK that answers a CONNECT.
pub open spec fn connect_code(packet: Connect, fallback: SharedString, global: GlobalState) -> ConnectReasonCode {
    match connect_refusal(packet, global.config) {
        Some(code) => code,
        None => if registry_rejects(
            global.clients@,
            global.clients.spec_next_client_id(),
            effective_identifier(packet, fallback)@,
            packet.protocol,
            global.config.allow_cross_version_takeover,
        ) {
            ConnectReasonCode::UnspecifiedError
        } else {
            ConnectReasonCode::Success
        },
    }
}

/// The keep-alive interval that the broker settles on: the one that the
/// client asks for, brought into the range that the options allow.
pub open spec fn negotiated_keep_alive(asked: u16, config: Config) -> u16 {
    if asked > config.max_keep_alive {
        config.max_keep_alive
    } else if asked < config.min_keep_alive {
        config.min_keep_alive
    } else {
        asked
    }
}

/// The lower of two numbers.
pub open spec fn lower(a: u16, b: u16) -> u16 {
    if a <= b {
        a
    } else {
        b
    }
}

/// Whether `s1` is the session `s0` filled from an accepted CONNECT that
/// was registered under `client_id`.
pub open spec fn filled(
    s0: Session,
    s1: Session,
    packet: Connect,
    fallback: SharedString,
    config: Config,
    client_id: ClientId,
) -> bool {
    &&& s1 == (Session {
        connected: true,
        connected_time: Some(s0.last_packet_time),
        protocol: packet.protocol,
        client_id,
        client_identifier: effective_identifier(packet, fallback),
        assigned_client_id: packet.client_id@.len() == 0,
        server_keep_alive: negotiated_keep_alive(packet.keep_alive, config) != packet.keep_alive,
        username: packet.username,
        keep_alive: negotiated_keep_alive(packet.keep_alive, config),
        clean_start: packet.clean_start,
        last_will: packet.last_will,
        session_expiry_interval: match packet.properties.session_expiry_interval {
            Some(interval) => interval,
            None => 0,
        },
        receive_max: match packet.properties.receive_max {
            Some(n) => n,
            None => 65535,
        },
        max_packet_size: match packet.properties.max_packet_size {
            Some(n) => n,
            None => config.max_packet_size_client,
        },
        topic_alias_max: match packet.properties.topic_alias_max {
            Some(n) => n,
            None => 0,
        },
        request_response_info: match packet.properties.request_response_info {
            Some(b) => b,
            None => false,
        },
        request_problem_info: match packet.properties.request_problem_info {
            Some(b) => b,
            None => true,
        },
        user_properties: packet.properties.user_properties,
        pending_packets: s1.pending_packets,
        ..s0
    })
    &&& s1.pending_packets@ == s0.pending_packets@
    &&& s1.pending_packets.spec_max_in_mem_pending() == s0.pending_packets.spec_max_in_mem_pending()
    &&& s1.pending_packets.spec_inflight_timeout() == s0.pending_packets.spec_inflight_timeout()
    &&& s0.pending_packets@.len() == 0 ==> s1.pending_packets.spec_max_inflight() == lower(
        s1.receive_max,
        config.max_inflight_client,
    )
}

/// What the CONNACK of an accepted CONNECT tells the client of the
/// broker's limits and offers.
pub open spec fn offered(properties: ConnackProperties, s1: Session, packet: Connect, config: Config) -> bool {
    &&& properties.session_expiry_interval is None
    &&& properties.receive_max == Some(config.max_inflight_server)
    &&& properties.max_qos == (if config.max_allowed_qos == QoS::Level2 {
        None
    } else {
        Some(config.max_allowed_qos)
    })
    &&& properties.retain_available == Some(config.retain_available)
    &&& properties.max_packet_size == Some(config.max_packet_size_server)
    &&& properties.assigned_client_id == (if packet.client_id@.len() == 0 {
        Some(s1.client_identifier)
    } else {
        None
    })
    &&& properties.topic_alias_max == Some(config.topic_alias_max)
    &&& properties.wildcard_subscription_available == Some(config.wildcard_subscription_available)
    &&& properties.subscription_id_available == Some(config.subscription_id_available)
    &&& properties.shared_subscription_available == Some(config.shared_subscription_available)
    &&& properties.server_keep_alive == (if s1.server_keep_alive {
        Some(s1.keep_alive)
    } else {
        None
    })
}

/// Whether `s1`, `g1` and `outcome` are the session `s0`, the shared
/// state `g0` and what became of the CONNECT `packet`, where `fallback`
/// is the identifier for a client that gives none. A refused CONNECT
/// changes nothing. An accepted one registers the client, which is
/// online afterwards, fills the session from the packet, and answers
/// with what the broker offers. Where the identifier was known, the
/// connection takes the old session over; if it asks for a clean start,
/// the subscriptions of the old one are wiped.
pub open spec fn connect_handled(
    s0: Session,
    s1: Session,
    g0: GlobalState,
    g1: GlobalState,
    packet: Connect,
    fallback: SharedString,
    outcome: ConnectOutcome,
) -> bool {
    &&& g1.config == g0.config
    &&& g1.retain_table == g0.retain_table
    &&& g1.outbox == g0.outbox
    &&& outcome.code == connect_code(packet, fallback, g0)
    &&& outcome.code != ConnectReasonCode::Success ==> {
        &&& s1 == s0
        &&& g1.clients@ == g0.clients@
        &&& g1.route_table == g0.route_table
        &&& !outcome.session_present
        &&& outcome.takeover is None
        &&& outcome.properties is None
    }
    &&& outcome.code == ConnectReasonCode::Success ==> {
        &&& filled(s0, s1, packet, fallback, g0.config, s1.client_id)
        &&& outcome.properties matches Some(properties) && offered(properties, s1, packet, g0.config)
        &&& outcome.takeover is None <==> identifier_absent(
            g0.clients@,
            effective_identifier(packet, fallback)@,
        )
        &&& outcome.session_present == (outcome.takeover is Some && !packet.clean_start)
        &&& outcome.takeover is None ==> g1.route_table == g0.route_table && g1.clients@
            == g0.clients@.push(
            (ClientEntry {
                identifier: effective_identifier(packet, fallback),
                client_id: s1.client_id,
                protocol: packet.protocol,
                online: true,
            }),
        )
        &&& outcome.takeover matches Some(t) ==> {
            &&& t.client_id == s1.client_id
            &&& exists|i: int|
                0 <= i < g0.clients@.len() && (#[trigger] g0.clients@[i]).identifier@
                    == effective_identifier(packet, fallback)@ && g0.clients@[i].client_id
                    == t.client_id && g0.clients@[i].online == t.online && g1.clients@
                    == g0.clients@.update(
                    i,
                    (ClientEntry { online: true, protocol: packet.protocol, ..g0.clients@[i] }),
                )
            &&& g1.route_table@ == (if packet.clean_start {
                g0.route_table@.filter(not_of(t.client_id))
            } else {
                g0.route_table@
            })
        }
    }
}

/// Fills the session from an accepted CONNECT.
fn fill_session(
    session: &mut Session,
    packet: Connect,
    identifier: SharedString,
    config: &Config,
    client_id: ClientId,
    Ghost(fallback): Ghost<SharedString>,
)
    requires
        old(session).wf(),
        identifier == effective_identifier(packet, fallback),
    ensures
        final(session).wf(),
        filled(*old(session), *final(session), packet, fallback, *config, client_id),
{
    let keep_alive = if packet.keep_alive > config.max_keep_alive {
        config.max_keep_alive
    } else if packet.keep_alive < config.min_keep_alive {
        config.min_keep_alive
    } else {
        packet.keep_alive
    };
    session.connected = true;
    session.connected_time = Some(session.last_packet_time);
    session.protocol = packet.protocol;
    session.client_id = client_id;
    session.client_identifier = identifier;
    session.assigned_client_id = packet.client_id.as_str().is_empty();
    session.server_keep_alive = keep_alive != packet.keep_alive;
    session.username = packet.username;
    session.keep_alive = keep_alive;
    session.clean_start = packet.clean_start;
    session.last_will = packet.last_will;
    session.session_expiry_interval = match packet.properties.session_expiry_interval {
        Some(interval) => interval,
        None => 0,
    };
    session.receive_max = match packet.properties.receive_max {
        Some(n) => n,
        None => 65535,
    };
    session.max_packet_size = match packet.properties.max_packet_size {
        Some(n) => n,
        None => config.max_packet_size_client,
    };
    session.topic_alias_max = match packet.properties.topic_alias_max {
        Some(n) => n,
        None => 0,
    };
    session.request_response_info = match packet.properties.request_response_info {
        Some(b) => b,
        None => false,
    };
    session.request_problem_info = match packet.properties.request_problem_info {
        Some(b) => b,
        None => true,
    };
    session.user_properties = packet.properties.user_properties;
    let window = if session.receive_max <= config.max_inflight_client {
        session.receive_max
    } else {
        config.max_inflight_client
    };
    let _ = session.pending_packets.set_max_inflight(window);
}

/// Handles the CONNECT that opens a connection: see [`connect_handled`].
pub fn handle_connect(
    session: &mut Session,
    packet: Connect,
    fallback: &SharedString,
    global: &mut GlobalState,
) -> (outcome: ConnectOutcome)
    requires
        old(session).wf(),
        old(global).wf(),
    ensures
        final(session).wf(),
        final(global).wf(),
        connect_handled(
            *old(session),
            *final(session),
            *old(global),
            *final(global),
            packet,
            *fallback,
            outcome,
        ),
{
    if !packet.protocol.is_v5() {
        return refuse(ConnectReasonCode::UnsupportedProtocolVersion);
    }
    if packet.properties.auth_method.is_some() {
        return refuse(ConnectReasonCode::BadAuthMethod);
    }
    if packet.username.is_none() && !global.config.allow_anonymous {
        return refuse(ConnectReasonCode::BadUserNameOrPassword);
    }
    let zero_receive_max = match packet.properties.receive_max {
        Some(n) => n == 0,
        None => false,
    };
    let zero_packet_size = match packet.properties.max_packet_size {
        Some(n) => n == 0,
        None => false,
    };
    if zero_receive_max || zero_packet_size {
        return refuse(ConnectReasonCode::ProtocolError);
    }
    let assigned = packet.client_id.as_str().is_empty();
    if assigned && !packet.clean_start {
        return refuse(ConnectReasonCode::ClientIdentifierNotValid);
    }
    let identifier = if assigned {
        share(fallback)
    } else {
        share(&packet.client_id)
    };
    let receipt = global.add_client(&identifier, packet.protocol);
    let (client_id, takeover) = match receipt {
        AddClientReceipt::Rejected => {
            return refuse(ConnectReasonCode::UnspecifiedError);
        },
        AddClientReceipt::New { client_id } => (client_id, None),
        AddClientReceipt::Present { client_id, online } => {
            if packet.clean_start {
                global.route_table.remove_client(client_id);
            }
            (client_id, Some(Takeover { client_id, online }))
        },
    };
    let config = global.config;
    let clean_start = packet.clean_start;
    fill_session(session, packet, share(&identifier), &config, client_id, Ghost(*fallback));
    let properties = ConnackProperties {
        session_expiry_interval: None,
        receive_max: Some(config.max_inflight_server),
        max_qos: match config.max_allowed_qos {
            QoS::Level2 => None,
            other => Some(other),
        },
        retain_available: Some(config.retain_available),
        max_packet_size: Some(config.max_packet_size_server),
        assigned_client_id: if assigned {
            Some(identifier)
        } else {
            None
        },
        topic_alias_max: Some(config.topic_alias_max),
        wildcard_subscription_available: Some(config.wildcard_subscription_available),
        subscription_id_available: Some(config.subscription_id_available),
        shared_subscription_available: Some(config.shared_subscription_available),
        server_keep_alive: if session.server_keep_alive {
            Some(session.keep_alive)
        } else {
            None
        },
    };
    ConnectOutcome {
        code: ConnectReasonCode::Success,
        session_present: takeover.is_some() && !clean_start,
        takeover,
        properties: Some(properties),
    }
}

/// The outcome of a CONNECT that is refused.
fn refuse(code: ConnectReasonCode) -> (outcome: ConnectOutcome)
    ensures
        outcome.code == code,
        !outcome.session_present,
        outcome.takeover is None,
        outcome.properties is None,
{
    ConnectOutcome { code, session_present: false, takeover: None, properties: None }
}

/// Takes over the state that the previous connection of the client left:
/// its packet identifier, its subscriptions, its broadcast queue, its
/// incomplete inbound publishes, and its queue of outbound publishes, in
/// which nothing counts as in flight any more and whose expired messages
/// are gone.
pub fn adopt_state(session: &mut Session, state: SessionState)
    requires
        state.wf(),
    ensures
        final(session).wf(),
        *final(session) == (Session {
            server_packet_id: state.server_packet_id,
            pending_packets: final(session).pending_packets,
            qos2_pids: state.qos2_pids,
            subscribes: state.subscribes,
            broadcast_packets_cnt: state.broadcast_packets_cnt,
            broadcast_packets: state.broadcast_packets,
            ..*old(session)
        }),
        final(session).pending_packets.spec_max_inflight()
            == state.pending_packets.spec_max_inflight(),
        final(session).pending_packets.spec_max_in_mem_pending()
            == state.pending_packets.spec_max_in_mem_pending(),
        final(session).pending_packets.spec_inflight_timeout()
            == state.pending_packets.spec_inflight_timeout(),
        final(session).pending_packets@ == state.pending_packets@.filter(
            alive_at(old(session).last_packet_time),
        ).map_values(unsent_of()),
{
    let now = session.last_packet_time;
    session.server_packet_id = state.server_packet_id;
    session.pending_packets = state.pending_packets;
    session.pending_packets.clean_incomplete(now);
    session.qos2_pids = state.qos2_pids;
    session.subscribes = state.subscribes;
    session.broadcast_packets_cnt = state.broadcast_packets_cnt;
    session.broadcast_packets = state.broadcast_packets;
}

/// Whether `o` is the outbound publish `e` of a version 3.x session as a
/// version 5.0 session keeps it: the same publish, without properties.
pub open spec fn taken_from_v3(e: PendingPacket<crate::v3::session::PubPacket>, o: PendingPacket<PubPacket>) -> bool {
    &&& o.pid == e.pid
    &&& o.state == e.state
    &&& o.encode_len == e.encode_len
    &&& o.expiry == e.expiry
    &&& o.retries == e.retries
    &&& o.dup == e.dup
    &&& o.last_sent == e.last_sent
    &&& o.packet.topic_name == e.packet.topic_name
    &&& o.packet.qos == e.packet.qos
    &&& o.packet.retain == e.packet.retain
    &&& o.packet.payload == e.packet.payload
    &&& o.packet.properties.payload_is_utf8 is None
    &&& o.packet.properties.message_expiry_interval is None
    &&& o.packet.properties.topic_alias is None
    &&& o.packet.properties.response_topic is None
    &&& o.packet.properties.correlation_data is None
    &&& o.packet.properties.user_properties@.len() == 0
    &&& o.packet.properties.subscription_id is None
    &&& o.packet.properties.content_type is None
}

/// The state that a version 3.x session hands over, for a version 5.0
/// connection that takes the session over: everything as it was, each
/// outbound publish without properties.
pub fn from_v3_state(state: crate::v3::session::SessionState) -> (out: SessionState)
    requires
        state.wf(),
    ensures
        out.wf(),
        out.client_id == state.client_id,
        out.receiver == state.receiver,
        out.protocol == state.protocol,
        out.server_packet_id == state.server_packet_id,
        out.qos2_pids == state.qos2_pids,
        out.subscribes == state.subscribes,
        out.broadcast_packets_cnt == state.broadcast_packets_cnt,
        out.broadcast_packets == state.broadcast_packets,
        out.pending_packets.spec_max_inflight() == state.pending_packets.spec_max_inflight(),
        out.pending_packets.spec_max_in_mem_pending()
            == state.pending_packets.spec_max_in_mem_pending(),
        out.pending_packets.spec_inflight_timeout() == state.pending_packets.spec_inflight_timeout(),
        out.pending_packets@.len() == state.pending_packets@.len(),
        forall|i: int|
            0 <= i < state.pending_packets@.len() ==> taken_from_v3(
                state.pending_packets@[i],
                #[trigger] out.pending_packets@[i],
            ),
{
    let from = &state.pending_packets;
    let ghost all = from@;
    let mut queue: PendingPackets<PubPacket> = PendingPackets::new(
        from.max_inflight(),
        from.max_in_mem_pending(),
        from.inflight_timeout(),
    );
    let mut i: usize = 0;
    while i < from.len()
        invariant
            i <= all.len(),
            all == from@,
            from.wf(),
            queue.spec_max_inflight() == from.spec_max_inflight(),
            queue.spec_max_in_mem_pending() == from.spec_max_in_mem_pending(),
            queue.spec_inflight_timeout() == from.spec_inflight_timeout(),
            queue@.len() == i,
            forall|j: int| 0 <= j < i ==> taken_from_v3(all[j], #[trigger] queue@[j]),
        decreases all.len() - i,
    {
        match from.get(i) {
            Some(e) => {
                queue.restore(
                    PendingPacket {
                        pid: e.pid,
                        state: e.state,
                        encode_len: e.encode_len,
                        expiry: e.expiry,
                        retries: e.retries,
                        dup: e.dup,
                        last_sent: e.last_sent,
                        packet: PubPacket {
                            topic_name: e.packet.topic_name.clone(),
                            qos: e.packet.qos,
                            retain: e.packet.retain,
                            payload: share(&e.packet.payload),
                            properties: PublishProperties::default(),
                        },
                    },
                );
            },
            None => {},
        }
        i += 1;
    }
    SessionState {
        client_id: state.client_id,
        receiver: state.receiver,
        protocol: state.protocol,
        server_packet_id: state.server_packet_id,
        pending_packets: queue,
        qos2_pids: state.qos2_pids,
        subscribes: state.subscribes,
        broadcast_packets_cnt: state.broadcast_packets_cnt,
        broadcast_packets: state.broadcast_packets,
    }
}

} // verus!
