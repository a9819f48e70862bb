//! The read-only graph collaborator, as the plain values the coordination
//! layer reads from it.
//!
//! The viewer works against a loaded pangenome graph; this layer only ever
//! asks it simple queries (does a node exist, what is its sequence, what
//! are a path's steps). [`GraphIndex`] holds exactly those answers, so the
//! logic over them is verified; loading a graph file into a `GraphIndex`
//! is the loader's job on the application side.

use vstd::prelude::*;

use std::collections::HashMap;

use crate::app::AppMsg;
use crate::channel::OneShotRecv;

verus! {

broadcast use vstd::std_specs::hash::group_hash_axioms;

/// A node identifier.
#[derive(Clone, Copy, Debug, PartialEq, Eq, PartialOrd, Ord, Hash, Structural)]
pub struct NodeId(pub u64);

/// A path identifier.
#[derive(Clone, Copy, Debug, PartialEq, Eq, PartialOrd, Ord, Hash, Structural)]
pub struct PathId(pub u64);

/// One step of a path: a node visited in forward or reverse orientation,
/// with its position in the path's step vector and the base offset at which
/// the step starts.
#[derive(Clone, Copy, Debug, PartialEq, Eq, Structural)]
pub struct StepEntry {
    pub node: NodeId,
    pub reverse: bool,
    pub step_ix: u64,
    pub base_offset: u64,
}

/// Everything the coordination layer reads about one path.
#[derive(Clone, Debug, PartialEq)]
pub struct PathRecord {
    pub id: PathId,
    pub name: Vec<u8>,
    pub steps: Vec<StepEntry>,
    pub base_count: u64,
}

/// Counts shown in the graph statistics panel.
#[derive(Clone, Copy, Debug, PartialEq, Eq, Structural)]
pub struct GraphStats {
    pub node_count: u64,
    pub edge_count: u64,
    pub path_count: u64,
    pub total_len: u64,
}

/// The read-only view of the loaded graph: node sequences keyed by node id,
/// the paths in load order, and the edge count recorded by the loader.
pub struct GraphIndex {
    nodes: HashMap<u64, Vec<u8>>,
    paths: Vec<PathRecord>,
    edge_count: u64,
    total_len: u64,
}

impl GraphIndex {
    /// The node sequences as a map from id to base string.
    pub closed spec fn nodes_spec(&self) -> Map<u64, Seq<u8>> {
        self.nodes@.map_values(|v: Vec<u8>| v@)
    }

    /// The paths in load order.
    pub closed spec fn paths_spec(&self) -> Seq<PathRecord> {
        self.paths@
    }

    /// The edge count recorded by the loader.
    pub closed spec fn edge_count_spec(&self) -> u64 {
        self.edge_count
    }

    /// Total bases over all node sequences.
    pub closed spec fn total_len_spec(&self) -> u64 {
        self.total_len
    }

    /// A well-formed index has path ids unique, so a lookup by id is
    /// unambiguous.
    pub open spec fn wf(&self) -> bool {
        forall|i: int, j: int|
            0 <= i < j < self.paths_spec().len() ==> self.paths_spec()[i].id
                != self.paths_spec()[j].id
    }

    /// An empty graph.
    pub fn new() -> (g: GraphIndex)
        ensures
            g.wf(),
            g.nodes_spec() == Map::<u64, Seq<u8>>::empty(),
            g.paths_spec() == Seq::<PathRecord>::empty(),
            g.edge_count_spec() == 0,
            g.total_len_spec() == 0,
    {
        let g = GraphIndex { nodes: HashMap::new(), paths: Vec::new(), edge_count: 0, total_len: 0 };
        proof {
            assert(g.nodes_spec() =~= Map::<u64, Seq<u8>>::empty());
        }
        g
    }

    /// Record one node and its sequence.
    pub fn insert_node(&mut self, id: u64, sequence: Vec<u8>)
        requires
            !old(self).nodes_spec().contains_key(id),
            old(self).total_len_spec() + sequence@.len() <= u64::MAX,
        ensures
            final(self).nodes_spec() == old(self).nodes_spec().insert(id, sequence@),
            final(self).paths_spec() == old(self).paths_spec(),
            final(self).edge_count_spec() == old(self).edge_count_spec(),
            final(self).total_len_spec() == old(self).total_len_spec() + sequence@.len(),
            old(self).wf() ==> final(self).wf(),
    {
        self.total_len = self.total_len + sequence.len() as u64;
        self.nodes.insert(id, sequence);
        proof {
            assert(self.nodes_spec() =~= old(self).nodes_spec().insert(
                id,
                old(self).nodes@.insert(id, sequence).index(id)@,
            ));
        }
    }

    /// Record one edge; only the count is kept.
    pub fn record_edge(&mut self)
        requires
            old(self).edge_count_spec() < u64::MAX,
        ensures
            final(self).edge_count_spec() == old(self).edge_count_spec() + 1,
            final(self).nodes_spec() == old(self).nodes_spec(),
            final(self).paths_spec() == old(self).paths_spec(),
            final(self).total_len_spec() == old(self).total_len_spec(),
            old(self).wf() ==> final(self).wf(),
    {
        self.edge_count = self.edge_count + 1;
    }

    /// Record one path; its id must be new.
    pub fn insert_path(&mut self, path: PathRecord)
        requires
            old(self).wf(),
            forall|i: int|
                0 <= i < old(self).paths_spec().len() ==> old(self).paths_spec()[i].id != path.id,
        ensures
            final(self).paths_spec() == old(self).paths_spec().push(path),
            final(self).nodes_spec() == old(self).nodes_spec(),
            final(self).edge_count_spec() == old(self).edge_count_spec(),
            final(self).total_len_spec() == old(self).total_len_spec(),
            final(self).wf(),
    {
        self.paths.push(path);
        proof {
            assert forall|i: int, j: int|
                0 <= i < j < self.paths_spec().len() implies self.paths_spec()[i].id
                != self.paths_spec()[j].id by {
                assert(self.paths_spec()[i] == old(self).paths_spec()[i]);
                if j < self.paths_spec().len() - 1 {
                    assert(self.paths_spec()[j] == old(self).paths_spec()[j]);
                } else {
                    assert(self.paths_spec()[j] == path);
                }
            };
        }
    }

    /// Whether a node with this id exists in the graph.
    pub fn has_node(&self, id: u64) -> (r: bool)
        ensures
            r == self.nodes_spec().contains_key(id),
    {
        let r = self.nodes.contains_key(&id);
        proof {
            assert(self.nodes@.contains_key(id) == self.nodes_spec().contains_key(id));
        }
        r
    }

    /// The sequence of a node, if the node exists.
    pub fn sequence(&self, id: u64) -> (r: Option<&Vec<u8>>)
        ensures
            match r {
                Some(seq) => self.nodes_spec().contains_key(id) && seq@ == self.nodes_spec()[id],
                None => !self.nodes_spec().contains_key(id),
            },
    {
        let r = self.nodes.get(&id);
        proof {
            assert(self.nodes@.contains_key(id) == self.nodes_spec().contains_key(id));
        }
        r
    }

    /// How many nodes the graph has.
    pub fn node_count(&self) -> (n: usize)
        ensures
            n == self.nodes_spec().len(),
    {
        proof {
            assert(self.nodes_spec().dom() =~= self.nodes@.dom());
        }
        self.nodes.len()
    }

    /// How many paths the graph has.
    pub fn path_count(&self) -> (n: usize)
        ensures
            n == self.paths_spec().len(),
    {
        self.paths.len()
    }

    /// The path at a position of the load order.
    pub fn path_at(&self, ix: usize) -> (r: &PathRecord)
        requires
            ix < self.paths_spec().len(),
        ensures
            *r == self.paths_spec()[ix as int],
    {
        &self.paths[ix]
    }

    /// Look a path up by id; the first record with the id wins.
    pub fn path_by_id(&self, id: PathId) -> (r: Option<&PathRecord>)
        ensures
            match r {
                Some(p) => find_path(self.paths_spec(), id) == Some(*p),
                None => find_path(self.paths_spec(), id) is None,
            },
    {
        let mut ix: usize = 0;
        while ix < self.paths.len()
            invariant
                ix <= self.paths_spec().len(),
                forall|i: int| 0 <= i < ix ==> (#[trigger] self.paths_spec()[i]).id != id,
            decreases self.paths_spec().len() - ix,
        {
            if self.paths[ix].id.0 == id.0 {
                proof {
                    lemma_find_path_skip(self.paths_spec(), id, ix as int);
                    assert(self.paths_spec().skip(ix as int).first() == self.paths_spec()[
                        ix as int]);
                }
                return Some(&self.paths[ix]);
            }
            ix = ix + 1;
        }
        proof {
            lemma_find_path_skip(self.paths_spec(), id, self.paths_spec().len() as int);
            assert(self.paths_spec().skip(self.paths_spec().len() as int) =~= Seq::<
                PathRecord,
            >::empty());
        }
        None
    }

    /// The identifiers of all paths, in load order.
    pub fn path_ids(&self) -> (r: Vec<PathId>)
        ensures
            r@.len() == self.paths_spec().len(),
            forall|i: int| 0 <= i < r@.len() ==> r@[i] == self.paths_spec()[i].id,
    {
        let mut out: Vec<PathId> = Vec::new();
        let mut ix: usize = 0;
        while ix < self.paths.len()
            invariant
                ix <= self.paths_spec().len(),
                out@.len() == ix,
                forall|i: int| 0 <= i < ix ==> out@[i] == self.paths_spec()[i].id,
            decreases self.paths_spec().len() - ix,
        {
            out.push(self.paths[ix].id);
            ix = ix + 1;
        }
        out
    }

    /// The statistics panel's counts.
    pub fn stats(&self) -> (s: GraphStats)
        requires
            self.nodes_spec().len() <= u64::MAX,
            self.paths_spec().len() <= u64::MAX,
        ensures
            s == (GraphStats {
                node_count: self.nodes_spec().len() as u64,
                edge_count: self.edge_count_spec(),
                path_count: self.paths_spec().len() as u64,
                total_len: self.total_len_spec(),
            }),
    {
        proof {
            assert(self.nodes_spec().dom() =~= self.nodes@.dom());
        }
        GraphStats {
            node_count: self.nodes.len() as u64,
            edge_count: self.edge_count,
            path_count: self.paths.len() as u64,
            total_len: self.total_len,
        }
    }
}

/// The first path record carrying an id, if any.
pub open spec fn find_path(paths: Seq<PathRecord>, id: PathId) -> Option<PathRecord>
    decreases paths.len(),
{
    if paths.len() == 0 {
        None
    } else if paths.first().id == id {
        Some(paths.first())
    } else {
        find_path(paths.drop_first(), id)
    }
}

/// Entries known not to carry the id can be skipped without changing the
/// lookup.
proof fn lemma_find_path_skip(paths: Seq<PathRecord>, id: PathId, ix: int)
    requires
        0 <= ix <= paths.len(),
        forall|i: int| 0 <= i < ix ==> (#[trigger] paths[i]).id != id,
    ensures
        find_path(paths, id) == find_path(paths.skip(ix), id),
    decreases ix,
{
    if ix > 0 {
        assert(paths[0].id != id);
        assert(forall|i: int|
            0 <= i < ix - 1 ==> (#[trigger] paths.drop_first()[i]).id != id) by {
            assert(forall|i: int| 0 <= i < ix - 1 ==> paths.drop_first()[i] == paths[i + 1]);
        }
        lemma_find_path_skip(paths.drop_first(), id, ix - 1);
        assert(paths.drop_first().skip(ix - 1) =~= paths.skip(ix));
    } else {
        assert(paths.skip(0) =~= paths);
    }
}

/// Whether a byte is an ASCII decimal digit.
pub open spec fn is_ascii_digit(b: u8) -> bool {
    48 <= b <= 57
}

/// Whether every byte of `s` is an ASCII decimal digit.
pub open spec fn all_ascii_digits(s: Seq<u8>) -> bool {
    forall|i: int| 0 <= i < s.len() ==> is_ascii_digit(#[trigger] s[i])
}

/// The number the digit string `s` denotes.
pub open spec fn decimal_value(s: Seq<u8>) -> int
    decreases s.len(),
{
    if s.len() == 0 {
        0
    } else {
        decimal_value(s.drop_last()) * 10 + (s.last() - 48)
    }
}

/// A longer digit prefix never denotes a smaller number.
proof fn lemma_decimal_value_monotone(s: Seq<u8>, i: int)
    requires
        0 <= i <= s.len(),
        all_ascii_digits(s),
    ensures
        decimal_value(s) >= decimal_value(s.take(i)),
        decimal_value(s.take(i)) >= 0,
    decreases s.len() - i,
{
    if i < s.len() {
        assert(s.take(i + 1).drop_last() =~= s.take(i));
        assert(s.take(i + 1).last() == s[i]);
        assert(decimal_value(s.take(i + 1)) == decimal_value(s.take(i)) * 10 + (s[i] - 48));
        lemma_decimal_value_monotone(s, i + 1);
        lemma_decimal_nonneg(s.take(i));
        assert(decimal_value(s.take(i)) * 10 >= decimal_value(s.take(i))) by (nonlinear_arith)
            requires
                decimal_value(s.take(i)) >= 0,
        ;
    } else {
        assert(s.take(i) =~= s);
        lemma_decimal_nonneg(s);
    }
}

/// A digit string never denotes a negative number.
proof fn lemma_decimal_nonneg(s: Seq<u8>)
    requires
        all_ascii_digits(s),
    ensures
        decimal_value(s) >= 0,
    decreases s.len(),
{
    if s.len() > 0 {
        assert(all_ascii_digits(s.drop_last()));
        lemma_decimal_nonneg(s.drop_last());
        assert(decimal_value(s.drop_last()) * 10 >= 0) by (nonlinear_arith)
            requires
                decimal_value(s.drop_last()) >= 0,
        ;
    }
}

/// The node identifier a typed text denotes: a value exactly when the text
/// is a non-empty string of decimal digits denoting a number that fits in
/// a `u64`, and nothing on any other input.
pub open spec fn parse_spec(s: Seq<u8>) -> Option<u64> {
    if s.len() > 0 && all_ascii_digits(s) && decimal_value(s) <= u64::MAX {
        Some(decimal_value(s) as u64)
    } else {
        None
    }
}

/// Parse a typed node identifier.
pub fn parse_node_id(text: &[u8]) -> (r: Option<u64>)
    ensures
        r == parse_spec(text@),
{
    if text.len() == 0 {
        return None;
    }
    let mut acc: u64 = 0;
    let mut ix: usize = 0;
    while ix < text.len()
        invariant
            0 < text@.len(),
            ix <= text@.len(),
            all_ascii_digits(text@.take(ix as int)),
            acc == decimal_value(text@.take(ix as int)),
        decreases text@.len() - ix,
    {
        let b = text[ix];
        if b < 48 || b > 57 {
            proof {
                assert(!is_ascii_digit(text@[ix as int]));
                assert(!all_ascii_digits(text@));
            }
            return None;
        }
        let d = (b - 48) as u64;
        let next = match acc.checked_mul(10) {
            Some(m) => m.checked_add(d),
            None => None,
        };
        proof {
            assert(text@.take(ix as int + 1).drop_last() =~= text@.take(ix as int));
            assert(text@.take(ix as int + 1).last() == text@[ix as int]);
        }
        match next {
            Some(v) => {
                acc = v;
            },
            None => {
                proof {
                    assert(decimal_value(text@.take(ix as int + 1)) == acc * 10 + d);
                    assert(decimal_value(text@.take(ix as int + 1)) > u64::MAX);
                    if all_ascii_digits(text@) {
                        lemma_decimal_value_monotone(text@, ix as int + 1);
                    }
                }
                return None;
            },
        }
        ix = ix + 1;
    }
    proof {
        assert(text@.take(text@.len() as int) =~= text@);
    }
    Some(acc)
}

/// What a resolved "go to node" modal leads to: a committed value is
/// parsed, validated against the graph, and turned into a navigation
/// message.
pub open spec fn goto_node_spec(received: OneShotRecv<Vec<u8>>, nodes: Map<u64, Seq<u8>>) -> Option<
    AppMsg,
> {
    match received {
        OneShotRecv::Value(text) => match parse_spec(text@) {
            Some(id) => if nodes.contains_key(id) {
                Some(AppMsg::GotoNode(NodeId(id)))
            } else {
                None
            },
            None => None,
        },
        OneShotRecv::Pending => None,
        OneShotRecv::Canceled => None,
    }
}

/// What the "go to node" task does when its modal resolves: a committed
/// value is parsed, validated against the graph, and turned into a
/// navigation message exactly when a node with that id exists; a malformed
/// value, a missing node and a canceled modal produce no message and no
/// error.
pub fn goto_node_resolve(received: OneShotRecv<Vec<u8>>, graph: &GraphIndex) -> (r: Option<AppMsg>)
    ensures
        r == goto_node_spec(received, graph.nodes_spec()),
{
    match received {
        OneShotRecv::Value(text) => {
            match parse_node_id(text.as_slice()) {
                Some(id) => {
                    if graph.has_node(id) {
                        Some(AppMsg::GotoNode(NodeId(id)))
                    } else {
                        None
                    }
                },
                None => None,
            }
        },
        OneShotRecv::Pending => None,
        OneShotRecv::Canceled => None,
    }
}

} // verus!
