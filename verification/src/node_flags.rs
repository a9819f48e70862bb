//! Per-node display flags and the GPU-visible selection bitmap.
//!
//! Each node of the layout has one 32-bit cell in a GPU buffer; the
//! renderer reads cell `id - 1` for node `id`. The buffer itself lives
//! with the renderer; here it is the plain vector of cells handed in by
//! the caller, so the bitmap the selection writes is fully specified.

use vstd::prelude::*;

use std::collections::HashSet;

verus! {

broadcast use vstd::std_specs::hash::group_hash_axioms;

/// Bitflags for controlling display options on a per-node basis.
#[derive(Clone, Copy, Debug, PartialEq, Eq, Structural)]
pub enum NodeFlag {
    Empty,
    Selected,
}

impl NodeFlag {
    /// The bit a flag occupies.
    pub open spec fn bit_spec(self) -> u8 {
        match self {
            NodeFlag::Empty => 0,
            NodeFlag::Selected => 1,
        }
    }

    /// The bit a flag occupies.
    pub fn bit(self) -> (b: u8)
        ensures
            b == self.bit_spec(),
    {
        match self {
            NodeFlag::Empty => 0,
            NodeFlag::Selected => 1,
        }
    }
}

impl Default for NodeFlag {
    /// The flag of a node nothing applies to.
    fn default() -> (r: NodeFlag)
        ensures
            r is Empty,
    {
        NodeFlag::Empty
    }
}

/// A collection of [`NodeFlag`] bitflags for a single node.
#[derive(Clone, Copy, Debug, PartialEq, Eq, Structural)]
pub struct NodeFlags(pub u8);

impl From<NodeFlag> for NodeFlags {
    /// The flags with one flag's bit set.
    fn from(flag: NodeFlag) -> (r: NodeFlags) {
        NodeFlags(flag.bit())
    }
}

impl vstd::std_specs::convert::FromSpecImpl<NodeFlag> for NodeFlags {
    open spec fn obeys_from_spec() -> bool {
        true
    }

    open spec fn from_spec(flag: NodeFlag) -> NodeFlags {
        NodeFlags(flag.bit_spec())
    }
}

impl NodeFlags {

    /// These flags with one more set.
    pub fn bitor(self, rhs: NodeFlag) -> (r: NodeFlags)
        ensures
            r == NodeFlags(self.0 | rhs.bit_spec()),
    {
        NodeFlags(self.0 | rhs.bit())
    }

    /// These flags restricted to one.
    pub fn bitand(self, rhs: NodeFlag) -> (r: NodeFlags)
        ensures
            r == NodeFlags(self.0 & rhs.bit_spec()),
    {
        NodeFlags(self.0 & rhs.bit())
    }

    /// Set one more flag in place.
    pub fn bitor_assign(&mut self, rhs: NodeFlag)
        ensures
            *final(self) == NodeFlags(old(self).0 | rhs.bit_spec()),
    {
        self.0 = self.0 | rhs.bit();
    }

    /// Restrict to one flag in place.
    pub fn bitand_assign(&mut self, rhs: NodeFlag)
        ensures
            *final(self) == NodeFlags(old(self).0 & rhs.bit_spec()),
    {
        self.0 = self.0 & rhs.bit();
    }
}

/// The selection bitmap over the layout's nodes, mirrored into a GPU
/// buffer of one cell per node.
pub struct LayoutFlags {
    latest_selection: HashSet<u64>,
}

/// The cell node `id` occupies: the buffer is indexed by `id - 1`.
pub open spec fn cell_of(id: u64) -> int {
    id - 1
}

/// What a fully written bitmap holds: cell `i` is `1` exactly when node
/// `i + 1` is selected.
pub open spec fn bitmap_matches(buffer: Seq<u32>, selection: Set<u64>) -> bool {
    forall|i: int|
        0 <= i < buffer.len() ==> #[trigger] buffer[i] == if selection.contains((i + 1) as u64) {
            1u32
        } else {
            0u32
        }
}

impl LayoutFlags {
    /// The selected node ids.
    pub closed spec fn selection_spec(&self) -> Set<u64> {
        self.latest_selection@
    }

    /// An empty selection.
    pub fn new() -> (f: LayoutFlags)
        ensures
            f.selection_spec() == Set::<u64>::empty(),
    {
        LayoutFlags { latest_selection: HashSet::new() }
    }

    /// Forget the selection.
    pub fn clear(&mut self)
        ensures
            final(self).selection_spec() == Set::<u64>::empty(),
    {
        self.latest_selection.clear();
    }

    /// Zero every cell of the buffer.
    pub fn clear_buffer(&mut self, buffer: &mut Vec<u32>)
        ensures
            final(self).selection_spec() == old(self).selection_spec(),
            final(buffer)@.len() == old(buffer)@.len(),
            forall|i: int| 0 <= i < final(buffer)@.len() ==> final(buffer)@[i] == 0u32,
    {
        let mut ix: usize = 0;
        while ix < buffer.len()
            invariant
                ix <= buffer@.len(),
                buffer@.len() == old(buffer)@.len(),
                forall|i: int| 0 <= i < ix ==> buffer@[i] == 0u32,
            decreases buffer@.len() - ix,
        {
            buffer.set(ix, 0);
            ix = ix + 1;
        }
    }

    /// Select one node: record it and, when it was not already selected,
    /// set its cell.
    pub fn add_select_one(&mut self, node: u64, buffer: &mut Vec<u32>)
        requires
            1 <= node <= old(buffer)@.len(),
        ensures
            final(self).selection_spec() == old(self).selection_spec().insert(node),
            final(buffer)@ == if old(self).selection_spec().contains(node) {
                old(buffer)@
            } else {
                old(buffer)@.update(cell_of(node), 1u32)
            },
    {
        if self.latest_selection.insert(node) {
            let len = buffer.len();
            let ix = (node - 1) as usize;
            proof {
                assert(node - 1 < len);
                assert(ix as int == cell_of(node));
            }
            buffer.set(ix, 1);
        }
    }

    /// Write the whole bitmap of the recorded selection into the buffer.
    pub fn write_latest_buffer(&self, buffer: &mut Vec<u32>)
        requires
            old(buffer)@.len() < usize::MAX,
        ensures
            final(buffer)@.len() == old(buffer)@.len(),
            bitmap_matches(final(buffer)@, self.selection_spec()),
    {
        let mut ix: usize = 0;
        while ix < buffer.len()
            invariant
                ix <= buffer@.len(),
                buffer@.len() == old(buffer)@.len(),
                buffer@.len() < usize::MAX,
                forall|i: int|
                    0 <= i < ix ==> #[trigger] buffer@[i] == if self.selection_spec().contains(
                        (i + 1) as u64,
                    ) {
                        1u32
                    } else {
                        0u32
                    },
            decreases buffer@.len() - ix,
        {
            let node = (ix + 1) as u64;
            if self.latest_selection.contains(&node) {
                buffer.set(ix, 1);
            } else {
                buffer.set(ix, 0);
            }
            ix = ix + 1;
        }
    }

    /// Replace the selection and rewrite the bitmap to match it.
    pub fn update_selection(&mut self, new_selection: HashSet<u64>, buffer: &mut Vec<u32>)
        requires
            old(buffer)@.len() < usize::MAX,
        ensures
            final(self).selection_spec() == new_selection@,
            final(buffer)@.len() == old(buffer)@.len(),
            bitmap_matches(final(buffer)@, new_selection@),
    {
        self.latest_selection = new_selection;
        let mut ix: usize = 0;
        while ix < buffer.len()
            invariant
                self.selection_spec() == new_selection@,
                ix <= buffer@.len(),
                buffer@.len() == old(buffer)@.len(),
                buffer@.len() < usize::MAX,
                forall|i: int|
                    0 <= i < ix ==> #[trigger] buffer@[i] == if new_selection@.contains(
                        (i + 1) as u64,
                    ) {
                        1u32
                    } else {
                        0u32
                    },
            decreases buffer@.len() - ix,
        {
            let node = (ix + 1) as u64;
            if self.latest_selection.contains(&node) {
                buffer.set(ix, 1);
            } else {
                buffer.set(ix, 0);
            }
            ix = ix + 1;
        }
    }
}

} // verus!
