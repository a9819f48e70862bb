//! The context menu over what is under the pointer: aggregation of the
//! producer entries it received this frame, the closed list of actions it
//! offers, and the effect each action computes.
//!
//! Rendering buttons and writing the system clipboard stay with the window
//! loop; here an invoked action is a pure function from the aggregated
//! contexts and the graph to an [`ActionOutput`].

use vstd::prelude::*;

use crate::channel::CommandQueue;
use crate::context::ContextAction;
use crate::context::ContextEntry;
use crate::geometry::Point;
use crate::graph::GraphIndex;
use crate::graph::NodeId;
use crate::graph::PathId;
use crate::graph::find_path;
use crate::textnum::append_bytes;
use crate::textnum::sorted_unique_u64;
use crate::textnum::strictly_sorted_u64;
use crate::textnum::u64_dec_spec;
use crate::textnum::u64_to_decimal;

verus! {

/// The entries received this frame, folded into one value per kind: the
/// last entry of a kind wins, and any selection raises the selection flag.
#[derive(Debug, Clone, PartialEq)]
pub struct Contexts {
    pub node: Option<NodeId>,
    pub path: Option<PathId>,
    pub has_selection: bool,
    pub selection_nodes: Option<Vec<NodeId>>,
}

impl Contexts {
    /// No entries seen yet.
    pub fn empty() -> (c: Contexts)
        ensures
            c == (Contexts {
                node: None::<NodeId>,
                path: None::<PathId>,
                has_selection: false,
                selection_nodes: None::<Vec<NodeId>>,
            }),
    {
        Contexts { node: None, path: None, has_selection: false, selection_nodes: None }
    }

    /// Whether anything at all is under the pointer or selected.
    pub fn is_not_empty(&self) -> (r: bool)
        ensures
            r == (self.node is Some || self.path is Some || self.has_selection),
    {
        self.node.is_some() || self.path.is_some() || self.has_selection
    }
}

impl Default for Contexts {
    /// No entries seen yet, as [`Contexts::empty`] builds it.
    fn default() -> (c: Contexts)
        ensures
            c == (Contexts {
                node: None::<NodeId>,
                path: None::<PathId>,
                has_selection: false,
                selection_nodes: None::<Vec<NodeId>>,
            }),
    {
        Contexts::empty()
    }
}

/// One received entry folded into the aggregate.
pub open spec fn aggregate_one(acc: Contexts, entry: ContextEntry) -> Contexts {
    match entry {
        ContextEntry::Node(n) => Contexts { node: Some(n), ..acc },
        ContextEntry::Path(p) => Contexts { path: Some(p), ..acc },
        ContextEntry::Selection { nodes } => Contexts {
            selection_nodes: Some(nodes),
            has_selection: true,
            ..acc
        },
    }
}

/// A whole frame's entries folded in arrival order.
pub open spec fn aggregate_spec(acc: Contexts, entries: Seq<ContextEntry>) -> Contexts
    decreases entries.len(),
{
    if entries.len() == 0 {
        acc
    } else {
        aggregate_one(aggregate_spec(acc, entries.drop_last()), entries.last())
    }
}

/// What invoking one action computes: contents for the system clipboard,
/// or the request to open the "go to node" modal.
#[derive(Debug, Clone, PartialEq)]
pub struct ActionOutput {
    pub clipboard: Option<Vec<u8>>,
    pub open_goto_modal: bool,
}

/// One line of the copied subgraph: the node id, a tab, the node's
/// sequence (empty if the graph does not know the node), a newline.
pub open spec fn gfa_line(id: u64, nodes: Map<u64, Seq<u8>>) -> Seq<u8> {
    u64_dec_spec(id) + seq![9u8] + (if nodes.contains_key(id) {
        nodes[id]
    } else {
        Seq::<u8>::empty()
    }) + seq![10u8]
}

/// The copied subgraph: one line per id, in the order given.
pub open spec fn gfa_lines(ids: Seq<u64>, nodes: Map<u64, Seq<u8>>) -> Seq<u8>
    decreases ids.len(),
{
    if ids.len() == 0 {
        Seq::empty()
    } else {
        gfa_lines(ids.drop_last(), nodes) + gfa_line(ids.last(), nodes)
    }
}

/// Two strictly increasing sequences over the same set are the same
/// sequence, so a clipboard content stated over "the sorted distinct ids"
/// names one value.
pub proof fn lemma_strictly_sorted_unique(a: Seq<u64>, b: Seq<u64>)
    requires
        strictly_sorted_u64(a),
        strictly_sorted_u64(b),
        a.to_set() == b.to_set(),
    ensures
        a == b,
    decreases a.len(),
{
    if a.len() == 0 {
        if b.len() > 0 {
            assert(b.to_set().contains(b[0]));
            assert(a.contains(b[0]));
        }
        assert(a =~= b);
    } else if b.len() == 0 {
        assert(a.to_set().contains(a[0]));
        assert(b.contains(a[0]));
    } else {
        let la = a.last();
        let lb = b.last();
        assert(a.to_set().contains(la) && b.to_set().contains(lb));
        assert(a.contains(lb) && b.contains(la));
        assert(la == lb) by {
            let i = choose|i: int| 0 <= i < a.len() && a[i] == lb;
            let j = choose|j: int| 0 <= j < b.len() && b[j] == la;
            assert(a[i] <= la && b[j] <= lb);
        }
        assert(a.drop_last().to_set() =~= b.drop_last().to_set()) by {
            assert forall|x: u64| a.drop_last().contains(x) implies b.drop_last().contains(x) by {
                let i = choose|i: int| 0 <= i < a.len() - 1 && a[i] == x;
                assert(x < la);
                assert(b.to_set().contains(x));
                let j = choose|j: int| 0 <= j < b.len() && b[j] == x;
                assert(j < b.len() - 1);
                assert(b.drop_last()[j] == x);
            }
            assert forall|x: u64| b.drop_last().contains(x) implies a.drop_last().contains(x) by {
                let j = choose|j: int| 0 <= j < b.len() - 1 && b[j] == x;
                assert(x < lb);
                assert(a.to_set().contains(x));
                let i = choose|i: int| 0 <= i < a.len() && a[i] == x;
                assert(i < a.len() - 1);
                assert(a.drop_last()[i] == x);
            }
        }
        lemma_strictly_sorted_unique(a.drop_last(), b.drop_last());
        assert(a.len() == b.len());
        assert forall|i: int| 0 <= i < a.len() implies a[i] == b[i] by {
            if i < a.len() - 1 {
                assert(a.drop_last()[i] == b.drop_last()[i]);
            }
        }
        assert(a =~= b);
    }
}

/// What each action computes, stated over the aggregated contexts and the
/// graph's node map. The subgraph copy is stated over the strictly sorted
/// sequence of the selection's distinct ids, which
/// [`lemma_strictly_sorted_unique`] pins to one value.
pub open spec fn process_spec(
    action: ContextAction,
    contexts: &Contexts,
    graph: &GraphIndex,
    out: ActionOutput,
) -> bool {
    match action {
        ContextAction::CopyNodeId => match contexts.node {
            Some(n) => out.clipboard is Some && out.clipboard.unwrap()@ == u64_dec_spec(n.0)
                && !out.open_goto_modal,
            None => out == no_output_spec(),
        },
        ContextAction::CopyNodeSeq => match contexts.node {
            Some(n) => if graph.nodes_spec().contains_key(n.0) {
                out.clipboard is Some && out.clipboard.unwrap()@ == graph.nodes_spec()[n.0]
                    && !out.open_goto_modal
            } else {
                out == no_output_spec()
            },
            None => out == no_output_spec(),
        },
        ContextAction::CopyPathName => match contexts.path {
            Some(p) => match find_path(graph.paths_spec(), p) {
                Some(record) => out.clipboard is Some && out.clipboard.unwrap()@ == record.name@
                    && !out.open_goto_modal,
                None => out == no_output_spec(),
            },
            None => out == no_output_spec(),
        },
        ContextAction::CopySubgraphGfa => match contexts.selection_nodes {
            Some(nodes) => exists|ids: Seq<u64>|
                {
                    &&& strictly_sorted_u64(ids)
                    &&& ids.to_set() == nodes@.map_values(|n: NodeId| n.0).to_set()
                    &&& out.clipboard is Some
                    &&& out.clipboard.unwrap()@ == gfa_lines(ids, graph.nodes_spec())
                    &&& !out.open_goto_modal
                },
            None => out == no_output_spec(),
        },
        ContextAction::PanToNode => out == (ActionOutput {
            clipboard: None::<Vec<u8>>,
            open_goto_modal: true,
        }),
    }
}

/// The output of an action whose needed context is absent: nothing at all.
pub open spec fn no_output_spec() -> ActionOutput {
    ActionOutput { clipboard: None, open_goto_modal: false }
}

/// The menu rendered over a right-clicked spot: the entries received this
/// frame, the menu anchor, and the aggregated contexts.
pub struct ContextMenu {
    pub entries: CommandQueue<ContextEntry>,
    pub position: Point,
    pub contexts: Contexts,
}

impl ContextMenu {
    /// A menu with nothing received and nothing aggregated.
    pub fn new() -> (m: ContextMenu)
        ensures
            m.entries@ == Seq::<ContextEntry>::empty(),
            m.position == (Point { x: 0, y: 0 }),
            m.contexts == (Contexts {
                node: None::<NodeId>,
                path: None::<PathId>,
                has_selection: false,
                selection_nodes: None::<Vec<NodeId>>,
            }),
    {
        ContextMenu {
            entries: CommandQueue::new(),
            position: Point { x: 0, y: 0 },
            contexts: Contexts::empty(),
        }
    }

    /// The producers' side: queue one entry for the next aggregation.
    pub fn push_entry(&mut self, entry: ContextEntry)
        ensures
            final(self).entries@ == old(self).entries@.push(entry),
            final(self).position == old(self).position,
            final(self).contexts == old(self).contexts,
    {
        self.entries.push(entry);
    }

    /// Where the menu is anchored on screen.
    pub fn set_position(&mut self, pos: Point)
        ensures
            final(self).position == pos,
            final(self).entries@ == old(self).entries@,
            final(self).contexts == old(self).contexts,
    {
        self.position = pos;
    }

    /// Drain the received entries into a fresh aggregate, in arrival
    /// order: per kind the last entry wins.
    #[verifier::loop_isolation(false)]
    pub fn recv_contexts(&mut self)
        ensures
            final(self).contexts == aggregate_spec(
                Contexts {
                    node: None::<NodeId>,
                    path: None::<PathId>,
                    has_selection: false,
                    selection_nodes: None::<Vec<NodeId>>,
                },
                old(self).entries@,
            ),
            final(self).entries@ == Seq::<ContextEntry>::empty(),
            final(self).position == old(self).position,
    {
        self.contexts = Contexts::empty();
        let ghost entries0 = self.entries@;
        let ghost start = self.contexts;
        proof {
            assert(entries0.skip(0) =~= entries0);
        }
        while self.entries.len() > 0
            invariant
                self.position == old(self).position,
                self.entries@.len() <= entries0.len(),
                self.entries@ == entries0.skip(entries0.len() - self.entries@.len()),
                self.contexts == aggregate_spec(
                    start,
                    entries0.take(entries0.len() - self.entries@.len()),
                ),
            decreases self.entries@.len(),
        {
            let ghost i = entries0.len() - self.entries@.len();
            match self.entries.pop_front() {
                None => {
                    proof {
                        assert(false);
                    }
                },
                Some(entry) => {
                    proof {
                        assert(entry == entries0[i]);
                        assert(self.entries@ =~= entries0.skip(i + 1));
                        assert(entries0.take(i + 1).drop_last() =~= entries0.take(i));
                        assert(entries0.take(i + 1).last() == entries0[i]);
                    }
                    match entry {
                        ContextEntry::Node(n) => {
                            self.contexts.node = Some(n);
                        },
                        ContextEntry::Path(p) => {
                            self.contexts.path = Some(p);
                        },
                        ContextEntry::Selection { nodes } => {
                            self.contexts.selection_nodes = Some(nodes);
                            self.contexts.has_selection = true;
                        },
                    }
                },
            }
        }
        proof {
            assert(entries0.take(entries0.len() as int) =~= entries0);
        }
    }

    /// The actions offered for the current contexts, in menu order: the
    /// node copies when a node is under the pointer, the path-name copy
    /// when a path is, the subgraph copy when a selection exists, and
    /// navigation always.
    pub fn menu_actions(&self) -> (r: Vec<ContextAction>)
        ensures
            r@ == menu_actions_spec(&self.contexts),
    {
        let mut out: Vec<ContextAction> = Vec::new();
        if self.contexts.node.is_some() {
            out.push(ContextAction::CopyNodeId);
            out.push(ContextAction::CopyNodeSeq);
        }
        if self.contexts.path.is_some() {
            out.push(ContextAction::CopyPathName);
        }
        if self.contexts.has_selection {
            out.push(ContextAction::CopySubgraphGfa);
        }
        out.push(ContextAction::PanToNode);
        proof {
            assert(out@ =~= menu_actions_spec(&self.contexts));
        }
        out
    }

    /// Invoke one action against the current contexts and the graph.
    pub fn process(&self, action: ContextAction, graph: &GraphIndex) -> (out: ActionOutput)
        ensures
            process_spec(action, &self.contexts, graph, out),
    {
        match action {
            ContextAction::CopyNodeId => match &self.contexts.node {
                Some(n) => ActionOutput {
                    clipboard: Some(u64_to_decimal(n.0)),
                    open_goto_modal: false,
                },
                None => ActionOutput { clipboard: None, open_goto_modal: false },
            },
            ContextAction::CopyNodeSeq => match &self.contexts.node {
                Some(n) => match graph.sequence(n.0) {
                    Some(seq) => {
                        let mut contents: Vec<u8> = Vec::new();
                        append_bytes(&mut contents, seq.as_slice());
                        ActionOutput { clipboard: Some(contents), open_goto_modal: false }
                    },
                    None => ActionOutput { clipboard: None, open_goto_modal: false },
                },
                None => ActionOutput { clipboard: None, open_goto_modal: false },
            },
            ContextAction::CopyPathName => match &self.contexts.path {
                Some(p) => match graph.path_by_id(*p) {
                    Some(record) => {
                        let mut contents: Vec<u8> = Vec::new();
                        append_bytes(&mut contents, record.name.as_slice());
                        ActionOutput { clipboard: Some(contents), open_goto_modal: false }
                    },
                    None => ActionOutput { clipboard: None, open_goto_modal: false },
                },
                None => ActionOutput { clipboard: None, open_goto_modal: false },
            },
            ContextAction::CopySubgraphGfa => match &self.contexts.selection_nodes {
                Some(nodes) => {
                    let mut ids: Vec<u64> = Vec::new();
                    let mut ix: usize = 0;
                    while ix < nodes.len()
                        invariant
                            ix <= nodes@.len(),
                            ids@ == nodes@.take(ix as int).map_values(|n: NodeId| n.0),
                        decreases nodes@.len() - ix,
                    {
                        proof {
                            assert(nodes@.take(ix as int + 1).map_values(|n: NodeId| n.0)
                                =~= nodes@.take(ix as int).map_values(|n: NodeId| n.0).push(
                                nodes@[ix as int].0,
                            ));
                        }
                        ids.push(nodes[ix].0);
                        ix = ix + 1;
                    }
                    proof {
                        assert(nodes@.take(nodes@.len() as int) =~= nodes@);
                    }
                    let sorted = sorted_unique_u64(&ids);
                    let mut contents: Vec<u8> = Vec::new();
                    let mut jx: usize = 0;
                    while jx < sorted.len()
                        invariant
                            jx <= sorted@.len(),
                            strictly_sorted_u64(sorted@),
                            sorted@.to_set() == nodes@.map_values(|n: NodeId| n.0).to_set(),
                            contents@ == gfa_lines(sorted@.take(jx as int), graph.nodes_spec()),
                        decreases sorted@.len() - jx,
                    {
                        let id = sorted[jx];
                        proof {
                            assert(sorted@.take(jx as int + 1).drop_last() =~= sorted@.take(
                                jx as int,
                            ));
                            assert(sorted@.take(jx as int + 1).last() == id);
                        }
                        let mut line = u64_to_decimal(id);
                        contents.append(&mut line);
                        contents.push(9);
                        match graph.sequence(id) {
                            Some(seq) => {
                                append_bytes(&mut contents, seq.as_slice());
                            },
                            None => (),
                        }
                        contents.push(10);
                        proof {
                            assert(contents@ =~= gfa_lines(
                                sorted@.take(jx as int + 1),
                                graph.nodes_spec(),
                            ));
                        }
                        jx = jx + 1;
                    }
                    proof {
                        assert(sorted@.take(sorted@.len() as int) =~= sorted@);
                    }
                    ActionOutput { clipboard: Some(contents), open_goto_modal: false }
                },
                None => ActionOutput { clipboard: None, open_goto_modal: false },
            },
            ContextAction::PanToNode => ActionOutput { clipboard: None, open_goto_modal: true },
        }
    }
}

/// The exact menu order for a set of contexts.
pub open spec fn menu_actions_spec(contexts: &Contexts) -> Seq<ContextAction> {
    (if contexts.node is Some {
        seq![ContextAction::CopyNodeId, ContextAction::CopyNodeSeq]
    } else {
        Seq::empty()
    }) + (if contexts.path is Some {
        seq![ContextAction::CopyPathName]
    } else {
        Seq::empty()
    }) + (if contexts.has_selection {
        seq![ContextAction::CopySubgraphGfa]
    } else {
        Seq::empty()
    }) + seq![ContextAction::PanToNode]
}

} // verus!
