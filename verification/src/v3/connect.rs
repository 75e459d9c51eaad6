//! What a session does with CONNECT and DISCONNECT.

use vstd::prelude::*;
use crate::config::Config;
use crate::pending::alive_at;
use crate::pending::PendingPacket;
use crate::pending::PendingPackets;
use crate::pending::unsent_of;
use crate::route::not_of;
use crate::state::identifier_absent;
use crate::state::registry_rejects;
use crate::state::AddClientReceipt;
use crate::state::GlobalState;
use crate::types::share;
use crate::types::ClientId;
use crate::types::SharedString;
use crate::v3::packet::Connect;
use crate::v3::packet::ConnectReturnCode;
use crate::v3::session::Session;
use crate::v3::session::PubPacket;
use crate::v3::session::SessionState;

verus! {

/// The session of a client that a connection takes over.
#[derive(Debug, Clone, Copy, PartialEq, Eq, Structural)]
pub struct Takeover {
    pub client_id: ClientId,
    /// Whether the loop of that session runs on an open connection, which
    /// is then to be closed.
    pub online: bool,
}

/// What became of a CONNECT.
#[derive(Debug, Clone, Copy, PartialEq, Eq, Structural)]
pub struct ConnectOutcome {
    /// The return code of the CONNACK.
    pub code: ConnectReturnCode,
    /// The session-present flag of the CONNACK.
    pub session_present: bool,
    /// The session that the connection takes over, if the identifier was
    /// known.
    pub takeover: Option<Takeover>,
}

/// The longest client identifier that protocol version 3.1 allows, in
/// bytes.
pub const V310_MAX_ID_LEN: usize = 23;

/// The identifier under which a CONNECT is registered: the one it gives,
/// or `fallback` if it gives none.
pub open spec fn effective_identifier(packet: Connect, fallback: SharedString) -> SharedString {
    if packet.client_id@.len() == 0 {
        fallback
    } else {
        packet.client_id
    }
}

/// Why a CONNECT is refused before the registry is asked, if it is: the
/// packet is of protocol version 5.0; it has no user name and the broker
/// takes no anonymous clients; it gives no client identifier and asks to
/// keep the session; or its identifier is longer than the broker, set to
/// check, allows.
pub open spec fn connect_refusal(packet: Connect, config: Config) -> Option<ConnectReturnCode> {
    if packet.protocol.spec_is_v5() {
        Some(ConnectReturnCode::UnacceptableProtocolVersion)
    } else if packet.username is None && !config.allow_anonymous {
        Some(ConnectReturnCode::BadUserNameOrPassword)
    } else if packet.client_id@.len() == 0 && !packet.clean_session {
        Some(ConnectReturnCode::IdentifierRejected)
    } else if config.check_v3_id_length && crate::topic::topic_bytes(packet.client_id@).len()
        > V310_MAX_ID_LEN {
        Some(ConnectReturnCode::IdentifierRejected)
    } else {
        None
    }
}

/// The return code of the CONNACK that answers a CONNECT.
pub open spec fn connect_code(packet: Connect, fallback: SharedString, global: GlobalState) -> ConnectReturnCode {
    match connect_refusal(packet, global.config) {
        Some(code) => code,
        None => if registry_rejects(
            global.clients@,
            global.clients.spec_next_client_id(),
            effective_identifier(packet, fallback)@,
            packet.protocol,
            global.config.allow_cross_version_takeover,
        ) {
            ConnectReturnCode::IdentifierRejected
        } else {
            ConnectReturnCode::Accepted
        },
    }
}

/// Handles the CONNECT that opens a connection. `fallback` is the
/// identifier for a client that gives none. A refused CONNECT changes
/// nothing. An accepted one registers the client, which is online
/// afterwards, and fills the session from the packet. Where the
/// identifier was known, the connection takes the old session over; if it
/// asks for a clean session, the subscriptions of the old one are wiped.
pub fn handle_connect(
    session: &mut Session,
    packet: Connect,
    fallback: &SharedString,
    global: &mut GlobalState,
) -> (outcome: ConnectOutcome)
    requires
        old(session).wf(),
        old(global).wf(),
    ensures
        final(session).wf(),
        final(global).wf(),
        final(global).config == old(global).config,
        final(global).retain_table == old(global).retain_table,
        final(global).outbox == old(global).outbox,
        outcome.code == connect_code(packet, *fallback, *old(global)),
        outcome.code != ConnectReturnCode::Accepted ==> {
            &&& *final(session) == *old(session)
            &&& final(global).clients@ == old(global).clients@
            &&& final(global).route_table == old(global).route_table
            &&& !outcome.session_present
            &&& outcome.takeover is None
        },
        outcome.code == ConnectReturnCode::Accepted ==> {
            &&& *final(session) == (Session {
                connected: true,
                protocol: packet.protocol,
                client_id: final(session).client_id,
                client_identifier: effective_identifier(packet, *fallback),
                username: packet.username,
                keep_alive: packet.keep_alive,
                clean_session: packet.clean_session,
                last_will: packet.last_will,
                ..*old(session)
            })
            &&& outcome.takeover is None <==> identifier_absent(
                old(global).clients@,
                effective_identifier(packet, *fallback)@,
            )
            &&& outcome.session_present == (outcome.takeover is Some && !packet.clean_session)
            &&& outcome.takeover is None ==> final(global).route_table == old(global).route_table
                && final(global).clients@ == old(global).clients@.push(
                (crate::state::ClientEntry {
                    identifier: effective_identifier(packet, *fallback),
                    client_id: final(session).client_id,
                    protocol: packet.protocol,
                    online: true,
                }),
            )
            &&& outcome.takeover matches Some(t) ==> {
                &&& t.client_id == final(session).client_id
                &&& exists|i: int|
                    0 <= i < old(global).clients@.len() && (#[trigger] old(global).clients@[i]).identifier@ == effective_identifier(packet, *fallback)@ && old(global).clients@[i].client_id == t.client_id && old(global).clients@[i].online
                        == t.online && final(global).clients@ == old(global).clients@.update(
                        i,
                        (crate::state::ClientEntry {
                            online: true,
                            protocol: packet.protocol,
                            ..old(global).clients@[i]
                        }),
                    )
                &&& final(global).route_table@ == (if packet.clean_session {
                    old(global).route_table@.filter(not_of(t.client_id))
                } else {
                    old(global).route_table@
                })
            }
        },
{
    let refused = ConnectOutcome {
        code: ConnectReturnCode::IdentifierRejected,
        session_present: false,
        takeover: None,
    };
    if packet.protocol.is_v5() {
        return ConnectOutcome { code: ConnectReturnCode::UnacceptableProtocolVersion, ..refused };
    }
    if packet.username.is_none() && !global.config.allow_anonymous {
        return ConnectOutcome { code: ConnectReturnCode::BadUserNameOrPassword, ..refused };
    }
    let anonymous = packet.client_id.as_str().is_empty();
    if anonymous && !packet.clean_session {
        return refused;
    }
    if global.config.check_v3_id_length && packet.client_id.as_str().as_bytes().len() > V310_MAX_ID_LEN {
        return refused;
    }
    let identifier = if anonymous {
        share(fallback)
    } else {
        share(&packet.client_id)
    };
    let receipt = global.add_client(&identifier, packet.protocol);
    let (client_id, takeover) = match receipt {
        AddClientReceipt::Rejected => {
            return refused;
        },
        AddClientReceipt::New { client_id } => (client_id, None),
        AddClientReceipt::Present { client_id, online } => {
            if packet.clean_session {
                global.route_table.remove_client(client_id);
            }
            (client_id, Some(Takeover { client_id, online }))
        },
    };
    session.connected = true;
    session.protocol = packet.protocol;
    session.client_id = client_id;
    session.client_identifier = identifier;
    session.username = packet.username;
    session.keep_alive = packet.keep_alive;
    session.clean_session = packet.clean_session;
    session.last_will = packet.last_will;
    ConnectOutcome {
        code: ConnectReturnCode::Accepted,
        session_present: takeover.is_some() && !packet.clean_session,
        takeover,
    }
}

/// Handles DISCONNECT: the connection closes in good order, and the will
/// is not published.
pub fn handle_disconnect(session: &mut Session)
    ensures
        *final(session) == (Session { disconnected: true, ..*old(session) }),
{
    session.disconnected = true;
}

/// Takes over the state that the previous connection of the client left:
/// its packet identifier, its subscriptions, its broadcast queue, its
/// incomplete inbound publishes, and its queue of outbound publishes, in
/// which nothing counts as in flight any more and whose expired messages
/// are gone.
pub fn adopt_state(session: &mut Session, state: SessionState)
    requires
        state.wf(),
    ensures
        final(session).wf(),
        *final(session) == (Session {
            server_packet_id: state.server_packet_id,
            pending_packets: final(session).pending_packets,
            qos2_pids: state.qos2_pids,
            subscribes: state.subscribes,
            broadcast_packets_cnt: state.broadcast_packets_cnt,
            broadcast_packets: state.broadcast_packets,
            ..*old(session)
        }),
        final(session).pending_packets.spec_max_inflight()
            == state.pending_packets.spec_max_inflight(),
        final(session).pending_packets.spec_max_in_mem_pending()
            == state.pending_packets.spec_max_in_mem_pending(),
        final(session).pending_packets.spec_inflight_timeout()
            == state.pending_packets.spec_inflight_timeout(),
        final(session).pending_packets@ == state.pending_packets@.filter(
            alive_at(old(session).last_packet_time),
        ).map_values(unsent_of()),
{
    let now = session.last_packet_time;
    session.server_packet_id = state.server_packet_id;
    session.pending_packets = state.pending_packets;
    session.pending_packets.clean_incomplete(now);
    session.qos2_pids = state.qos2_pids;
    session.subscribes = state.subscribes;
    session.broadcast_packets_cnt = state.broadcast_packets_cnt;
    session.broadcast_packets = state.broadcast_packets;
}

/// An outbound publish of a version 5.0 session as a version 3.x session
/// keeps it: the same publish, without its properties.
pub open spec fn entry_from_v5(e: PendingPacket<crate::v5::session::PubPacket>) -> PendingPacket<PubPacket> {
    PendingPacket {
        pid: e.pid,
        state: e.state,
        encode_len: e.encode_len,
        expiry: e.expiry,
        retries: e.retries,
        dup: e.dup,
        last_sent: e.last_sent,
        packet: PubPacket {
            topic_name: e.packet.topic_name,
            qos: e.packet.qos,
            retain: e.packet.retain,
            payload: e.packet.payload,
        },
    }
}

/// The state that a version 5.0 session hands over, for a version 3.x
/// connection that takes the session over: everything as it was, each
/// outbound publish without its properties.
pub fn from_v5_state(state: crate::v5::session::SessionState) -> (out: SessionState)
    requires
        state.wf(),
    ensures
        out.wf(),
        out.client_id == state.client_id,
        out.receiver == state.receiver,
        out.protocol == state.protocol,
        out.server_packet_id == state.server_packet_id,
        out.qos2_pids == state.qos2_pids,
        out.subscribes == state.subscribes,
        out.broadcast_packets_cnt == state.broadcast_packets_cnt,
        out.broadcast_packets == state.broadcast_packets,
        out.pending_packets.spec_max_inflight() == state.pending_packets.spec_max_inflight(),
        out.pending_packets.spec_max_in_mem_pending()
            == state.pending_packets.spec_max_in_mem_pending(),
        out.pending_packets.spec_inflight_timeout() == state.pending_packets.spec_inflight_timeout(),
        out.pending_packets@ == state.pending_packets@.map_values(
            |e: PendingPacket<crate::v5::session::PubPacket>| entry_from_v5(e),
        ),
{
    let from = &state.pending_packets;
    let ghost all = from@;
    let ghost convert = |e: PendingPacket<crate::v5::session::PubPacket>| entry_from_v5(e);
    let mut queue: PendingPackets<PubPacket> = PendingPackets::new(
        from.max_inflight(),
        from.max_in_mem_pending(),
        from.inflight_timeout(),
    );
    let mut i: usize = 0;
    assert(queue@ =~= all.take(0).map_values(convert));
    while i < from.len()
        invariant
            i <= all.len(),
            all == from@,
            from.wf(),
            convert == (|e: PendingPacket<crate::v5::session::PubPacket>| entry_from_v5(e)),
            queue.spec_max_inflight() == from.spec_max_inflight(),
            queue.spec_max_in_mem_pending() == from.spec_max_in_mem_pending(),
            queue.spec_inflight_timeout() == from.spec_inflight_timeout(),
            queue@ == all.take(i as int).map_values(convert),
        decreases all.len() - i,
    {
        match from.get(i) {
            Some(e) => {
                queue.restore(
                    PendingPacket {
                        pid: e.pid,
                        state: e.state,
                        encode_len: e.encode_len,
                        expiry: e.expiry,
                        retries: e.retries,
                        dup: e.dup,
                        last_sent: e.last_sent,
                        packet: PubPacket {
                            topic_name: e.packet.topic_name.clone(),
                            qos: e.packet.qos,
                            retain: e.packet.retain,
                            payload: share(&e.packet.payload),
                        },
                    },
                );
                assert(all.take(i + 1).map_values(convert) =~= all.take(i as int).map_values(
                    convert,
                ).push(convert(all[i as int])));
            },
            None => {},
        }
        i += 1;
    }
    assert(all.take(all.len() as int) =~= all);
    SessionState {
        client_id: state.client_id,
        receiver: state.receiver,
        protocol: state.protocol,
        server_packet_id: state.server_packet_id,
        pending_packets: queue,
        qos2_pids: state.qos2_pids,
        subscribes: state.subscribes,
        broadcast_packets_cnt: state.broadcast_packets_cnt,
        broadcast_packets: state.broadcast_packets,
    }
}

} // verus!
