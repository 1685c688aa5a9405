//! What holds of every session with the lobby server.

use crate::net::lobby::{
    pong_of, spec_dispatch, spec_handle, LobbyStreamView, OutgoingMessageView, StreamActionView,
    StreamEventView,
};
use crate::net::node::{listed, NodeInfoView, NodeRegistryView};
use crate::net::packet::{FrameView, LobbyPacketView, PacketPlayerSessionUpdate, PacketTypeId};
use vstd::prelude::*;

verus! {

/// Every listed node stands under its own id.
pub proof fn lemma_listed_ids(nodes: Seq<NodeInfoView>)
    ensures
        forall|id: i32| listed(nodes).contains_key(id) ==> (#[trigger] listed(nodes)[id]).id == id,
        forall|id: i32|
            listed(nodes).contains_key(id) <==> exists|i: int|
                0 <= i < nodes.len() && (#[trigger] nodes[i]).id == id,
    decreases nodes.len(),
{
    if nodes.len() > 0 {
        let rest = nodes.drop_last();
        let last = nodes.last();
        lemma_listed_ids(rest);
        assert(listed(nodes) == listed(rest).insert(last.id, last));
        assert forall|id: i32| listed(nodes).contains_key(id) implies (#[trigger] listed(
            nodes,
        )[id]).id == id by {
            if id != last.id {
                assert(listed(rest).contains_key(id));
                assert(listed(nodes)[id] == listed(rest)[id]);
            }
        }
        assert forall|id: i32| listed(nodes).contains_key(id) implies exists|i: int|
            0 <= i < nodes.len() && (#[trigger] nodes[i]).id == id by {
            if id == last.id {
                assert(nodes[nodes.len() - 1].id == id);
            } else {
                assert(listed(rest).contains_key(id));
                let i = choose|i: int| 0 <= i < rest.len() && (#[trigger] rest[i]).id == id;
                assert(nodes[i] == rest[i]);
            }
        }
        assert forall|id: i32|
            (exists|i: int|
                0 <= i < nodes.len() && (#[trigger] nodes[i]).id == id) implies listed(
            nodes,
        ).contains_key(id) by {
            let i = choose|i: int| 0 <= i < nodes.len() && (#[trigger] nodes[i]).id == id;
            if i < rest.len() {
                assert(rest[i].id == id);
                assert(listed(rest).contains_key(id));
            } else {
                assert(id == last.id);
            }
        }
    }
}

/// A registry stays well formed when the nodes are listed anew.
pub proof fn lemma_replaced_wf(registry: NodeRegistryView, nodes: Seq<NodeInfoView>)
    ensures
        registry.replaced(nodes).wf(),
{
    lemma_listed_ids(nodes);
}

/// A well-formed registry stays well formed over every packet of the
/// lobby server: a selected node is always one that the registry holds.
pub proof fn lemma_dispatch_keeps_registry(
    stream: LobbyStreamView,
    nodes: NodeRegistryView,
    packet: LobbyPacketView,
)
    requires
        nodes.wf(),
    ensures
        spec_dispatch(stream, nodes, packet).nodes.wf(),
{
    match packet {
        LobbyPacketView::ListNodes { nodes: list } => {
            lemma_replaced_wf(nodes, list);
        },
        _ => {},
    }
}

/// When the lobby server says that the player is in no game, no node is
/// selected afterwards and the session has no game, whatever else the
/// message holds.
pub proof fn lemma_session_without_game_clears_node(
    stream: LobbyStreamView,
    nodes: NodeRegistryView,
    update: PacketPlayerSessionUpdate,
)
    requires
        update.game_id is None,
    ensures
        spec_dispatch(
            stream,
            nodes,
            LobbyPacketView::PlayerSessionUpdate(update),
        ).nodes.selected_node_id is None,
        spec_dispatch(
            stream,
            nodes,
            LobbyPacketView::PlayerSessionUpdate(update),
        ).stream.current_game_id() is None,
        !stream.closed ==> spec_handle(
            stream,
            nodes,
            StreamEventView::Packet(LobbyPacketView::PlayerSessionUpdate(update)),
        ).nodes.selected_node_id is None,
{
}

/// When the lobby server lists its nodes, the user is shown as many
/// nodes, in the same order and under the same ids, and each with the
/// ping that the registry has for that id once the list is taken in.
pub proof fn lemma_listed_nodes_carry_current_ping(
    stream: LobbyStreamView,
    nodes: NodeRegistryView,
    list: Seq<NodeInfoView>,
)
    ensures
        spec_dispatch(stream, nodes, LobbyPacketView::ListNodes { nodes: list }).result matches Ok(
            OutgoingMessageView::ListNodes(shown),
        ) && shown.len() == list.len() && forall|i: int|
            0 <= i < list.len() ==> (#[trigger] shown[i]).id == list[i].id && shown[i].ping
                == spec_dispatch(
                stream,
                nodes,
                LobbyPacketView::ListNodes { nodes: list },
            ).nodes.current_ping(list[i].id),
        forall|i: int|
            0 <= i < list.len() ==> spec_dispatch(
                stream,
                nodes,
                LobbyPacketView::ListNodes { nodes: list },
            ).nodes.current_ping((#[trigger] list[i]).id) == nodes.current_ping(list[i].id),
{
    lemma_listed_ids(list);
}

/// A heartbeat of the lobby server is answered with its own bytes in a
/// frame of the answering kind, and with nothing else: it is not read as
/// a packet, the user is told nothing, and neither the session nor the
/// registry changes.
pub proof fn lemma_ping_is_answered(
    stream: LobbyStreamView,
    nodes: NodeRegistryView,
    frame: FrameView,
)
    requires
        !stream.closed,
        frame.type_id == PacketTypeId::Ping,
    ensures
        spec_handle(stream, nodes, StreamEventView::Inbound(frame)).actions
            == seq![StreamActionView::SendFrame(pong_of(frame))],
        pong_of(frame).payload == frame.payload,
        pong_of(frame).type_id == PacketTypeId::Pong,
        spec_handle(stream, nodes, StreamEventView::Inbound(frame)).stream == stream,
        spec_handle(stream, nodes, StreamEventView::Inbound(frame)).nodes == nodes,
{
}

/// A session that is over stays over and does nothing more.
pub proof fn lemma_closed_stays_closed(
    stream: LobbyStreamView,
    nodes: NodeRegistryView,
    event: StreamEventView,
)
    requires
        stream.closed,
    ensures
        spec_handle(stream, nodes, event).stream == stream,
        spec_handle(stream, nodes, event).nodes == nodes,
        spec_handle(stream, nodes, event).actions == Seq::<StreamActionView>::empty(),
{
}

} // verus!
