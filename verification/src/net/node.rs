//! The relay nodes that the lobby server has listed, the ping that was
//! measured to each, and the node that the current game runs on.

use crate::error::Error;
use vstd::prelude::*;

verus! {

/// A relay node as the lobby server lists it.
#[derive(Debug, Clone, PartialEq, Eq)]
pub struct NodeInfo {
    pub id: i32,
    pub name: String,
    pub location: String,
    pub country_id: String,
}

/// What a listed node is, in contracts.
pub struct NodeInfoView {
    pub id: i32,
    pub name: Seq<char>,
    pub location: Seq<char>,
    pub country_id: Seq<char>,
}

impl View for NodeInfo {
    type V = NodeInfoView;

    open spec fn view(&self) -> NodeInfoView {
        NodeInfoView {
            id: self.id,
            name: self.name@,
            location: self.location@,
            country_id: self.country_id@,
        }
    }
}

/// The views of a list of nodes, in order.
pub open spec fn node_info_views(nodes: Seq<NodeInfo>) -> Seq<NodeInfoView> {
    Seq::new(nodes.len(), |i: int| nodes[i]@)
}

/// A relay node together with the ping to it, in milliseconds, where one
/// has been measured.
#[derive(Debug, Clone, PartialEq, Eq)]
pub struct Node {
    pub id: i32,
    pub name: String,
    pub location: String,
    pub country_id: String,
    pub ping: Option<u32>,
}

/// What a node with its ping is, in contracts.
pub struct NodeView {
    pub id: i32,
    pub name: Seq<char>,
    pub location: Seq<char>,
    pub country_id: Seq<char>,
    pub ping: Option<u32>,
}

impl View for Node {
    type V = NodeView;

    open spec fn view(&self) -> NodeView {
        NodeView {
            id: self.id,
            name: self.name@,
            location: self.location@,
            country_id: self.country_id@,
            ping: self.ping,
        }
    }
}

/// The views of a list of nodes with their pings, in order.
pub open spec fn node_views(nodes: Seq<Node>) -> Seq<NodeView> {
    Seq::new(nodes.len(), |i: int| nodes[i]@)
}

/// A listed node with a ping beside it.
pub open spec fn annotate(node: NodeInfoView, ping: Option<u32>) -> NodeView {
    NodeView {
        id: node.id,
        name: node.name,
        location: node.location,
        country_id: node.country_id,
        ping,
    }
}

/// The nodes of a list by their ids. Where an id occurs twice, the later
/// entry stands.
pub open spec fn listed(nodes: Seq<NodeInfoView>) -> Map<i32, NodeInfoView>
    decreases nodes.len(),
{
    if nodes.len() == 0 {
        Map::empty()
    } else {
        listed(nodes.drop_last()).insert(nodes.last().id, nodes.last())
    }
}

/// What the registry holds, in contracts.
pub struct NodeRegistryView {
    /// The nodes by their ids.
    pub nodes: Map<i32, NodeView>,
    /// The node that the current game runs on.
    pub selected_node_id: Option<i32>,
}

impl NodeRegistryView {
    /// Every node stands under its own id, and a selected node is one of
    /// the registry.
    pub open spec fn wf(self) -> bool {
        &&& forall|id: i32| self.nodes.contains_key(id) ==> (#[trigger] self.nodes[id]).id == id
        &&& (self.selected_node_id matches Some(id) ==> self.nodes.contains_key(id))
    }

    /// A registry without nodes.
    pub open spec fn empty() -> NodeRegistryView {
        NodeRegistryView { nodes: Map::empty(), selected_node_id: None }
    }

    /// The ping to a node as it is known now: none for a node that is not
    /// in the registry or to which none was measured.
    pub open spec fn current_ping(self, id: i32) -> Option<u32> {
        if self.nodes.contains_key(id) {
            self.nodes[id].ping
        } else {
            None
        }
    }

    /// The registry after the lobby server listed its nodes anew: it holds
    /// the listed nodes and no others, each with the ping that was known
    /// for its id, and it keeps its selected node if that node is still
    /// listed.
    pub open spec fn replaced(self, nodes: Seq<NodeInfoView>) -> NodeRegistryView {
        let by_id = listed(nodes);
        NodeRegistryView {
            nodes: Map::new(
                |id: i32| by_id.contains_key(id),
                |id: i32| annotate(by_id[id], self.current_ping(id)),
            ),
            selected_node_id: match self.selected_node_id {
                Some(id) => if by_id.contains_key(id) {
                    Some(id)
                } else {
                    None
                },
                None => None,
            },
        }
    }

    /// Whether a node may be selected: no node always, a node only if the
    /// registry holds it.
    pub open spec fn can_select(self, id: Option<i32>) -> bool {
        match id {
            Some(id) => self.nodes.contains_key(id),
            None => true,
        }
    }

    /// The registry with another node selected, or none.
    pub open spec fn selected(self, id: Option<i32>) -> NodeRegistryView {
        NodeRegistryView { selected_node_id: id, ..self }
    }

    /// The registry after a ping to a node was measured, or lost. A node
    /// that the registry does not hold changes nothing.
    pub open spec fn with_ping(self, id: i32, ping: Option<u32>) -> NodeRegistryView {
        if self.nodes.contains_key(id) {
            NodeRegistryView {
                nodes: self.nodes.insert(id, NodeView { ping, ..self.nodes[id] }),
                ..self
            }
        } else {
            self
        }
    }

    /// The list of nodes as it is shown to the user: the listed nodes in
    /// their order, each with the ping that the registry has for its id.
    pub open spec fn annotated(self, nodes: Seq<NodeInfoView>) -> Seq<NodeView> {
        Seq::new(nodes.len(), |i: int| annotate(nodes[i], self.current_ping(nodes[i].id)))
    }
}

/// No id occurs twice.
spec fn distinct_ids(nodes: Seq<Node>) -> bool {
    forall|i: int, j: int|
        0 <= i < nodes.len() && 0 <= j < nodes.len() && i != j ==> (#[trigger] nodes[i]).id != (
        #[trigger] nodes[j]).id
}

/// Whether a node with this id is in the list.
spec fn has_id(nodes: Seq<Node>, id: i32) -> bool {
    exists|i: int| 0 <= i < nodes.len() && (#[trigger] nodes[i]).id == id
}

/// A place in the list where the id stands.
spec fn index_of(nodes: Seq<Node>, id: i32) -> int {
    choose|i: int| 0 <= i < nodes.len() && (#[trigger] nodes[i]).id == id
}

/// The nodes of a list by their ids.
spec fn by_id(nodes: Seq<Node>) -> Map<i32, NodeView> {
    Map::new(|id: i32| has_id(nodes, id), |id: i32| nodes[index_of(nodes, id)]@)
}

/// In a list without repeated ids, a node is found under its id.
proof fn lemma_by_id_at(nodes: Seq<Node>, k: int)
    requires
        distinct_ids(nodes),
        0 <= k < nodes.len(),
    ensures
        has_id(nodes, nodes[k].id),
        index_of(nodes, nodes[k].id) == k,
        by_id(nodes)[nodes[k].id] == nodes[k]@,
{
    assert(has_id(nodes, nodes[k].id));
    let i = index_of(nodes, nodes[k].id);
    assert(0 <= i < nodes.len() && nodes[i].id == nodes[k].id);
}

/// A new node at the end of the list is a new entry under its id.
proof fn lemma_by_id_push(nodes: Seq<Node>, node: Node)
    requires
        distinct_ids(nodes),
        !has_id(nodes, node.id),
    ensures
        distinct_ids(nodes.push(node)),
        by_id(nodes.push(node)) == by_id(nodes).insert(node.id, node@),
{
    let next = nodes.push(node);
    assert(distinct_ids(next)) by {
        assert forall|i: int, j: int|
            0 <= i < next.len() && 0 <= j < next.len() && i != j implies (#[trigger] next[i]).id
            != (#[trigger] next[j]).id by {
            if i < nodes.len() && j < nodes.len() {
                assert(nodes[i].id != nodes[j].id);
            } else if i < nodes.len() {
                assert(nodes[i].id != node.id);
            } else {
                assert(nodes[j].id != node.id);
            }
        }
    }
    assert forall|id: i32| has_id(next, id) <==> (has_id(nodes, id) || id == node.id) by {
        if has_id(next, id) {
            let i = index_of(next, id);
            if i < nodes.len() {
                assert(nodes[i].id == id);
            }
        }
        if has_id(nodes, id) {
            let i = index_of(nodes, id);
            assert(next[i].id == id);
        }
        if id == node.id {
            assert(next[nodes.len() as int].id == id);
        }
    }
    assert forall|id: i32| has_id(next, id) implies by_id(next)[id] == by_id(nodes).insert(
        node.id,
        node@,
    )[id] by {
        if id == node.id {
            lemma_by_id_at(next, nodes.len() as int);
        } else {
            let i = index_of(nodes, id);
            assert(next[i] == nodes[i]);
            lemma_by_id_at(next, i);
        }
    }
    assert(by_id(next) =~= by_id(nodes).insert(node.id, node@));
}

/// A node put in the place of one with the same id replaces its entry.
proof fn lemma_by_id_update(nodes: Seq<Node>, k: int, node: Node)
    requires
        distinct_ids(nodes),
        0 <= k < nodes.len(),
        nodes[k].id == node.id,
    ensures
        distinct_ids(nodes.update(k, node)),
        by_id(nodes.update(k, node)) == by_id(nodes).insert(node.id, node@),
{
    let next = nodes.update(k, node);
    assert(distinct_ids(next)) by {
        assert forall|i: int, j: int|
            0 <= i < next.len() && 0 <= j < next.len() && i != j implies (#[trigger] next[i]).id
            != (#[trigger] next[j]).id by {
            assert(next[i].id == nodes[i].id);
            assert(next[j].id == nodes[j].id);
        }
    }
    assert forall|id: i32| has_id(next, id) <==> has_id(nodes, id) by {
        if has_id(next, id) {
            let i = index_of(next, id);
            assert(nodes[i].id == id);
        }
        if has_id(nodes, id) {
            let i = index_of(nodes, id);
            assert(next[i].id == id);
        }
    }
    assert(has_id(nodes, node.id));
    assert forall|id: i32| has_id(next, id) implies by_id(next)[id] == by_id(nodes).insert(
        node.id,
        node@,
    )[id] by {
        let i = index_of(nodes, id);
        assert(next[i].id == id);
        lemma_by_id_at(next, i);
        if id != node.id {
            assert(next[i] == nodes[i]);
        } else {
            lemma_by_id_at(nodes, k);
        }
    }
    assert(by_id(next) =~= by_id(nodes).insert(node.id, node@));
}

/// The relay nodes that are known, and the one that is selected.
#[derive(Debug, PartialEq, Eq)]
pub struct NodeRegistry {
    nodes: Vec<Node>,
    selected_node_id: Option<i32>,
}

impl View for NodeRegistry {
    type V = NodeRegistryView;

    closed spec fn view(&self) -> NodeRegistryView {
        NodeRegistryView { nodes: by_id(self.nodes@), selected_node_id: self.selected_node_id }
    }
}

/// The place of a node in a list, by its id.
fn position(nodes: &Vec<Node>, id: i32) -> (found: Option<usize>)
    ensures
        match found {
            Some(k) => k < nodes@.len() && nodes@[k as int].id == id,
            None => !has_id(nodes@, id),
        },
{
    let mut i: usize = 0;
    while i < nodes.len()
        invariant
            i <= nodes@.len(),
            forall|k: int| 0 <= k < i ==> (#[trigger] nodes@[k]).id != id,
        decreases nodes@.len() - i,
    {
        if nodes[i].id == id {
            return Some(i);
        }
        i = i + 1;
    }
    None
}

impl NodeRegistry {
    #[verifier::type_invariant]
    spec fn inv(self) -> bool {
        distinct_ids(self.nodes@) && (self.selected_node_id matches Some(id) ==> has_id(
            self.nodes@,
            id,
        ))
    }

    /// What the registry keeps of itself makes its view well formed.
    proof fn lemma_wf(&self)
        requires
            self.inv(),
        ensures
            self@.wf(),
    {
        assert forall|id: i32| self@.nodes.contains_key(id) implies (#[trigger] self@.nodes[id]).id
            == id by {
            let i = index_of(self.nodes@, id);
            assert(self.nodes@[i].id == id);
        }
    }

    /// A registry without nodes.
    pub fn new() -> (registry: NodeRegistry)
        ensures
            registry@ == NodeRegistryView::empty(),
            registry@.wf(),
    {
        let registry = NodeRegistry { nodes: Vec::new(), selected_node_id: None };
        assert(registry@.nodes =~= Map::empty());
        registry
    }

    /// The node that the current game runs on.
    pub fn selected_node_id(&self) -> (id: Option<i32>)
        ensures
            id == self@.selected_node_id,
            self@.wf(),
    {
        proof {
            use_type_invariant(self);
            self.lemma_wf();
        }
        self.selected_node_id
    }

    /// Whether the registry holds a node with this id.
    pub fn contains(&self, id: i32) -> (held: bool)
        ensures
            held == self@.nodes.contains_key(id),
    {
        position(&self.nodes, id).is_some()
    }

    /// The ping to a node as it is known now.
    pub fn get_current_ping(&self, id: i32) -> (ping: Option<u32>)
        ensures
            ping == self@.current_ping(id),
    {
        proof {
            use_type_invariant(self);
        }
        match position(&self.nodes, id) {
            Some(k) => {
                proof {
                    lemma_by_id_at(self.nodes@, k as int);
                }
                self.nodes[k].ping
            },
            None => None,
        }
    }

    /// Selects the node that the current game runs on, or none. A node
    /// that the registry does not hold is refused, and the selection stays
    /// as it was.
    pub fn set_selected_node(&mut self, id: Option<i32>) -> (result: Result<(), Error>)
        ensures
            old(self)@.can_select(id) ==> result is Ok && final(self)@ == old(self)@.selected(id),
            !old(self)@.can_select(id) ==> result == Err::<(), Error>(
                Error::NodeNotFound(id->0),
            ) && final(self)@ == old(self)@,
            final(self)@.wf(),
    {
        proof {
            use_type_invariant(&*self);
            self.lemma_wf();
        }
        match id {
            Some(node_id) => {
                if position(&self.nodes, node_id).is_none() {
                    return Err(Error::NodeNotFound(node_id));
                }
            },
            None => {},
        }
        self.selected_node_id = id;
        proof {
            self.lemma_wf();
        }
        Ok(())
    }

    /// Records the ping that was measured to a node, or that none is
    /// known any more.
    pub fn set_current_ping(&mut self, id: i32, ping: Option<u32>)
        ensures
            final(self)@ == old(self)@.with_ping(id, ping),
            final(self)@.wf(),
    {
        proof {
            use_type_invariant(&*self);
            self.lemma_wf();
        }
        match position(&self.nodes, id) {
            Some(k) => {
                let node = Node {
                    id,
                    name: self.nodes[k].name.clone(),
                    location: self.nodes[k].location.clone(),
                    country_id: self.nodes[k].country_id.clone(),
                    ping,
                };
                proof {
                    lemma_by_id_at(self.nodes@, k as int);
                    lemma_by_id_update(self.nodes@, k as int, node);
                    assert forall|other: i32| has_id(self.nodes@, other) implies has_id(
                        self.nodes@.update(k as int, node),
                        other,
                    ) by {
                        let i = index_of(self.nodes@, other);
                        assert(self.nodes@.update(k as int, node)[i].id == other);
                    }
                }
                let selected = self.selected_node_id;
                let mut nodes: Vec<Node> = Vec::new();
                self.selected_node_id = None;
                core::mem::swap(&mut self.nodes, &mut nodes);
                nodes.set(k, node);
                self.nodes = nodes;
                self.selected_node_id = selected;
                proof {
                    self.lemma_wf();
                }
            },
            None => {},
        }
    }

    /// Puts the nodes that the lobby server listed in the place of those
    /// that were known. A node that was known before keeps its ping; the
    /// selected node stays selected only if it is listed again.
    pub fn update_nodes(&mut self, nodes: &Vec<NodeInfo>)
        ensures
            final(self)@ == old(self)@.replaced(node_info_views(nodes@)),
            final(self)@.wf(),
    {
        proof {
            use_type_invariant(&*self);
            self.lemma_wf();
        }
        let ghost before = self@;
        let ghost views = node_info_views(nodes@);
        let mut next: Vec<Node> = Vec::new();
        assert(by_id(next@) =~= with_pings(listed(views.take(0)), before));
        let mut i: usize = 0;
        while i < nodes.len()
            invariant
                i <= nodes@.len(),
                views == node_info_views(nodes@),
                before == self@,
                before == old(self)@,
                distinct_ids(next@),
                by_id(next@) == with_pings(listed(views.take(i as int)), before),
            decreases nodes@.len() - i,
        {
            let item = &nodes[i];
            let node = Node {
                id: item.id,
                name: item.name.clone(),
                location: item.location.clone(),
                country_id: item.country_id.clone(),
                ping: self.get_current_ping(item.id),
            };
            proof {
                assert(views[i as int] == item@);
                assert(views.take(i + 1).drop_last() =~= views.take(i as int));
                assert(views.take(i + 1).last() == item@);
                assert(node@ == annotate(item@, before.current_ping(item.id)));
            }
            match position(&next, item.id) {
                Some(k) => {
                    proof {
                        lemma_by_id_update(next@, k as int, node);
                    }
                    next.set(k, node);
                },
                None => {
                    proof {
                        lemma_by_id_push(next@, node);
                    }
                    next.push(node);
                },
            }
            assert(by_id(next@) =~= with_pings(listed(views.take(i + 1)), before));
            i = i + 1;
        }
        assert(views.take(i as int) =~= views);
        assert forall|id: i32| has_id(next@, id) == listed(views).contains_key(id) by {
            assert(by_id(next@).contains_key(id) == has_id(next@, id));
            assert(with_pings(listed(views), before).contains_key(id) == listed(
                views,
            ).contains_key(id));
        }
        let selected = match self.selected_node_id {
            Some(id) => if position(&next, id).is_some() {
                Some(id)
            } else {
                None
            },
            None => None,
        };
        self.selected_node_id = None;
        self.nodes = next;
        self.selected_node_id = selected;
        proof {
            self.lemma_wf();
            assert(self@.nodes =~= before.replaced(views).nodes);
        }
    }

    /// The listed nodes in their order, each with the ping that the
    /// registry has for its id.
    pub fn annotate_nodes(&self, nodes: &Vec<NodeInfo>) -> (annotated: Vec<Node>)
        ensures
            node_views(annotated@) == self@.annotated(node_info_views(nodes@)),
    {
        let mut annotated: Vec<Node> = Vec::new();
        let mut i: usize = 0;
        while i < nodes.len()
            invariant
                i <= nodes@.len(),
                annotated@.len() == i,
                forall|k: int|
                    0 <= k < i ==> (#[trigger] annotated@[k])@ == annotate(
                        nodes@[k]@,
                        self@.current_ping(nodes@[k].id),
                    ),
            decreases nodes@.len() - i,
        {
            let item = &nodes[i];
            annotated.push(
                Node {
                    id: item.id,
                    name: item.name.clone(),
                    location: item.location.clone(),
                    country_id: item.country_id.clone(),
                    ping: self.get_current_ping(item.id),
                },
            );
            i = i + 1;
        }
        assert(node_views(annotated@) =~= self@.annotated(node_info_views(nodes@)));
        annotated
    }
}

/// The listed nodes by their ids, each with the ping that a registry has
/// for its id.
spec fn with_pings(listed: Map<i32, NodeInfoView>, registry: NodeRegistryView) -> Map<
    i32,
    NodeView,
> {
    Map::new(
        |id: i32| listed.contains_key(id),
        |id: i32| annotate(listed[id], registry.current_ping(id)),
    )
}

} // verus!
