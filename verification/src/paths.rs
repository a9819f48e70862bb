//! The paginated path list and per-path step list panels.
//!
//! Both panels page through long lists with a fixed page size; the page
//! arithmetic is an explicit contract here: the last page index of `len`
//! items is `(len - 1) / page_size` (zero for an empty list), and a page's
//! slice is clamped to the list's end. The panels' widgets live with the
//! window loop; the state they page through is verified here.

use vstd::prelude::*;

use crate::graph::GraphIndex;
use crate::graph::PathId;
use crate::graph::PathRecord;
use crate::graph::StepEntry;
use crate::graph::find_path;
use crate::textnum::append_bytes;
use crate::textnum::strictly_sorted_u64;
use crate::textnum::sorted_unique_u64;

verus! {

/// The index of the last page of `len` items at `page_size` per page.
pub open spec fn last_page_spec(len: nat, page_size: nat) -> nat
    recommends
        page_size > 0,
{
    if len == 0 {
        0
    } else {
        ((len - 1) as nat) / page_size
    }
}

/// The index of the last page of `len` items at `page_size` per page:
/// a list that fills its pages exactly gets no trailing empty page.
pub fn last_page(len: usize, page_size: usize) -> (r: usize)
    requires
        page_size > 0,
    ensures
        r == last_page_spec(len as nat, page_size as nat),
{
    if len == 0 {
        0
    } else {
        (len - 1) / page_size
    }
}

/// The half-open item range `[start, end)` that page `page` shows.
pub open spec fn page_bounds_spec(page: nat, page_size: nat, len: nat) -> (nat, nat)
    recommends
        page_size > 0,
{
    let start = if page > last_page_spec(len, page_size) {
        last_page_spec(len, page_size) * page_size
    } else {
        page * page_size
    };
    let end = if start + page_size > len {
        len
    } else {
        (start + page_size) as nat
    };
    (start as nat, end)
}

/// The page start never passes the end, and the end never passes the list.
pub proof fn lemma_page_bounds_valid(page: nat, page_size: nat, len: nat)
    requires
        page_size > 0,
    ensures
        page_bounds_spec(page, page_size, len).0 <= page_bounds_spec(page, page_size, len).1,
        page_bounds_spec(page, page_size, len).1 <= len,
    decreases page,
{
    let lp = last_page_spec(len, page_size);
    let start = page_bounds_spec(page, page_size, len).0;
    if len > 0 {
        assert(lp * page_size <= ((len - 1) as nat)) by (nonlinear_arith)
            requires
                lp == ((len - 1) as nat) / page_size,
                page_size > 0,
        ;
        if page <= lp {
            assert(page * page_size <= lp * page_size) by (nonlinear_arith)
                requires
                    page <= lp,
                    page_size > 0,
            ;
        }
        assert(start <= ((len - 1) as nat));
    } else {
        assert(start == 0);
    }
}

/// The half-open item range that a page shows.
pub fn page_bounds(page: usize, page_size: usize, len: usize) -> (r: (usize, usize))
    requires
        page_size > 0,
    ensures
        (r.0 as nat, r.1 as nat) == page_bounds_spec(page as nat, page_size as nat, len as nat),
        r.0 <= r.1 <= len,
{
    proof {
        lemma_page_bounds_valid(page as nat, page_size as nat, len as nat);
    }
    let lp = last_page(len, page_size);
    let eff = if page > lp {
        lp
    } else {
        page
    };
    proof {
        assert(eff * page_size <= len) by {
            lemma_page_bounds_valid(page as nat, page_size as nat, len as nat);
        }
    }
    let start = eff * page_size;
    let end = if len - start > page_size {
        start + page_size
    } else {
        len
    };
    (start, end)
}

/// A page-flip command for a paginated panel.
#[derive(Debug, Clone, PartialEq, Eq, Structural)]
pub enum PathListMsg {
    NextPage,
    PrevPage,
    SetPage(usize),
}

/// What a page-flip does to the current page, given the last page index:
/// steps stay inside `[0, page_count]` and a jump clamps to it.
pub open spec fn flip_page_spec(page: nat, page_count: nat, msg: PathListMsg) -> nat {
    match msg {
        PathListMsg::NextPage => if page < page_count {
            (page + 1) as nat
        } else {
            page
        },
        PathListMsg::PrevPage => if page > 0 {
            (page - 1) as nat
        } else {
            page
        },
        PathListMsg::SetPage(p) => if p as nat > page_count {
            page_count
        } else {
            p as nat
        },
    }
}

/// One visible row of the path list, holding what was last fetched from
/// the graph for its path.
#[derive(Debug, Clone, PartialEq)]
pub struct PathListSlot {
    pub path_id: Option<PathId>,
    pub path_name: Vec<u8>,
    pub fetched_path: Option<PathId>,
    pub head: u64,
    pub tail: u64,
    pub step_count: usize,
    pub base_count: u64,
}

impl Default for PathListSlot {
    /// A slot showing nothing, as [`PathListSlot::empty`] builds it.
    fn default() -> (s: PathListSlot)
        ensures
            s.path_id is None,
            s.fetched_path is None,
            s.path_name@ == Seq::<u8>::empty(),
            s.head == 0 && s.tail == 0 && s.step_count == 0 && s.base_count == 0,
    {
        PathListSlot::empty()
    }
}

impl Default for PathDetails {
    /// A details panel showing nothing, as [`PathDetails::new`] builds it.
    fn default() -> (r: PathDetails)
        ensures
            r.path_details.path_id is None,
            r.step_list.wf(),
            r.step_list.page_size == 15,
    {
        PathDetails::new()
    }
}

/// Whether a slot shows exactly one path record: its id, name, step
/// bounds and counts.
pub open spec fn slot_loaded(slot: PathListSlot, record: PathRecord) -> bool {
    &&& slot.path_id == Some(record.id)
    &&& slot.fetched_path == Some(record.id)
    &&& slot.path_name@ == record.name@
    &&& slot.head == if record.steps@.len() > 0 {
        record.steps@.first().step_ix
    } else {
        0u64
    }
    &&& slot.tail == if record.steps@.len() > 0 {
        record.steps@.last().step_ix
    } else {
        0u64
    }
    &&& slot.step_count == record.steps@.len()
    &&& slot.base_count == record.base_count
}

impl PathListSlot {
    /// A slot showing nothing.
    pub fn empty() -> (s: PathListSlot)
        ensures
            s.path_id is None,
            s.fetched_path is None,
            s.path_name@ == Seq::<u8>::empty(),
            s.head == 0 && s.tail == 0 && s.step_count == 0 && s.base_count == 0,
    {
        PathListSlot {
            path_id: None,
            path_name: Vec::new(),
            fetched_path: None,
            head: 0,
            tail: 0,
            step_count: 0,
            base_count: 0,
        }
    }

    /// The path this slot is asked to show.
    pub fn path_id_cell(&self) -> (r: Option<PathId>)
        ensures
            r == self.path_id,
    {
        self.path_id
    }

    /// Ask the slot to show a path next time it fetches.
    pub fn set_path_id(&mut self, id: Option<PathId>)
        ensures
            *final(self) == (PathListSlot { path_id: id, ..*old(self) }),
    {
        self.path_id = id;
    }

    /// Fetch one path's record into the slot: everything the panel shows.
    /// An id the graph does not know leaves the slot unchanged.
    pub fn fetch_path_id(&mut self, graph: &GraphIndex, path: PathId) -> (r: Option<()>)
        ensures
            match find_path(graph.paths_spec(), path) {
                Some(record) => r == Some(()) && slot_loaded(*final(self), record),
                None => r is None && *final(self) == *old(self),
            },
    {
        match graph.path_by_id(path) {
            None => None,
            Some(record) => {
                self.path_name.clear();
                append_bytes(&mut self.path_name, record.name.as_slice());
                if record.steps.len() > 0 {
                    self.head = record.steps[0].step_ix;
                    self.tail = record.steps[record.steps.len() - 1].step_ix;
                } else {
                    self.head = 0;
                    self.tail = 0;
                }
                self.step_count = record.steps.len();
                self.base_count = record.base_count;
                self.path_id = Some(path);
                self.fetched_path = Some(path);
                proof {
                    assert(find_path(graph.paths_spec(), path).unwrap().id == path) by {
                        lemma_find_path_id(graph.paths_spec(), path);
                    }
                }
                Some(())
            },
        }
    }

    /// Fetch whatever path the slot was asked to show, unless it already
    /// shows it (or was asked to show nothing).
    pub fn fetch(&mut self, graph: &GraphIndex) -> (r: Option<()>)
        ensures
            match old(self).path_id {
                None => r == Some(()) && *final(self) == *old(self),
                Some(path) => if old(self).fetched_path == Some(path) {
                    r == Some(()) && *final(self) == *old(self)
                } else {
                    match find_path(graph.paths_spec(), path) {
                        Some(record) => r == Some(()) && slot_loaded(*final(self), record),
                        None => r is None && *final(self) == *old(self),
                    }
                },
            },
    {
        match self.path_id {
            None => Some(()),
            Some(path) => {
                let already = match self.fetched_path {
                    Some(f) => f.0 == path.0,
                    None => false,
                };
                if already {
                    Some(())
                } else {
                    self.fetch_path_id(graph, path)
                }
            },
        }
    }
}

/// A found record carries the id it was found under.
proof fn lemma_find_path_id(paths: Seq<PathRecord>, id: PathId)
    requires
        find_path(paths, id) is Some,
    ensures
        find_path(paths, id).unwrap().id == id,
    decreases paths.len(),
{
    if paths.len() > 0 && paths.first().id != id {
        lemma_find_path_id(paths.drop_first(), id);
    }
}

/// The paginated list of all paths of the graph, sorted by id, with one
/// fetched slot per visible row.
pub struct PathList {
    pub all_paths: Vec<PathId>,
    pub page: usize,
    pub page_size: usize,
    pub page_count: usize,
    pub slots: Vec<PathListSlot>,
    pub update_slots: bool,
    pub path_details_id: Option<PathId>,
}

impl PathList {
    /// The list's pagination is coherent: a positive page size, the page
    /// count derived from it, the page inside it, and one slot per
    /// visible row.
    pub open spec fn wf(&self) -> bool {
        &&& self.page_size > 0
        &&& self.page_count == last_page_spec(self.all_paths@.len() as nat, self.page_size as nat)
        &&& self.page <= self.page_count
        &&& self.slots@.len() == if self.all_paths@.len() < self.page_size {
            self.all_paths@.len() as int
        } else {
            self.page_size as int
        }
    }

    /// Build the list over every path of the graph, sorted by id, with
    /// empty slots for the first page and a pending slot update.
    pub fn new(graph: &GraphIndex, page_size: usize, path_details_id: Option<PathId>) -> (r:
        PathList)
        requires
            page_size > 0,
        ensures
            r.wf(),
            strictly_sorted_u64(r.all_paths@.map_values(|p: PathId| p.0)),
            r.all_paths@.map_values(|p: PathId| p.0).to_set() == graph.paths_spec().map_values(
                |rec: PathRecord| rec.id.0,
            ).to_set(),
            r.page == 0,
            r.page_size == page_size,
            r.update_slots,
            r.path_details_id == path_details_id,
    {
        let ids = graph.path_ids();
        let mut raw: Vec<u64> = Vec::new();
        let mut ix: usize = 0;
        while ix < ids.len()
            invariant
                ix <= ids@.len(),
                raw@ == ids@.take(ix as int).map_values(|p: PathId| p.0),
            decreases ids@.len() - ix,
        {
            proof {
                assert(ids@.take(ix as int + 1).map_values(|p: PathId| p.0) =~= ids@.take(
                    ix as int,
                ).map_values(|p: PathId| p.0).push(ids@[ix as int].0));
            }
            raw.push(ids[ix].0);
            ix = ix + 1;
        }
        proof {
            assert(ids@.take(ids@.len() as int) =~= ids@);
            assert(ids@.map_values(|p: PathId| p.0) =~= graph.paths_spec().map_values(
                |rec: PathRecord| rec.id.0,
            ));
        }
        let sorted = sorted_unique_u64(&raw);
        let mut all_paths: Vec<PathId> = Vec::new();
        let mut jx: usize = 0;
        while jx < sorted.len()
            invariant
                jx <= sorted@.len(),
                all_paths@.map_values(|p: PathId| p.0) == sorted@.take(jx as int),
                all_paths@.len() == jx,
            decreases sorted@.len() - jx,
        {
            proof {
                assert(all_paths@.push(PathId(sorted@[jx as int])).map_values(|p: PathId| p.0)
                    =~= all_paths@.map_values(|p: PathId| p.0).push(sorted@[jx as int]));
                assert(sorted@.take(jx as int + 1) =~= sorted@.take(jx as int).push(
                    sorted@[jx as int],
                ));
            }
            all_paths.push(PathId(sorted[jx]));
            jx = jx + 1;
        }
        proof {
            assert(sorted@.take(sorted@.len() as int) =~= sorted@);
        }
        let n = all_paths.len();
        let slot_count = if n < page_size {
            n
        } else {
            page_size
        };
        let mut slots: Vec<PathListSlot> = Vec::new();
        let mut kx: usize = 0;
        while kx < slot_count
            invariant
                kx <= slot_count,
                slots@.len() == kx,
            decreases slot_count - kx,
        {
            slots.push(PathListSlot::empty());
            kx = kx + 1;
        }
        let page_count = last_page(n, page_size);
        PathList {
            all_paths,
            page: 0,
            page_size,
            page_count,
            slots,
            update_slots: true,
            path_details_id,
        }
    }

    /// Apply one page-flip: the page moves as [`flip_page_spec`] says, and
    /// any actual move schedules a slot update.
    pub fn apply_msg(&mut self, msg: PathListMsg)
        requires
            old(self).wf(),
        ensures
            final(self).wf(),
            final(self).page == flip_page_spec(
                old(self).page as nat,
                old(self).page_count as nat,
                msg,
            ),
            final(self).update_slots == (old(self).update_slots || final(self).page != old(
                self,
            ).page),
            final(self).all_paths == old(self).all_paths,
            final(self).page_size == old(self).page_size,
            final(self).page_count == old(self).page_count,
            final(self).slots == old(self).slots,
            final(self).path_details_id == old(self).path_details_id,
    {
        match msg {
            PathListMsg::NextPage => {
                if self.page < self.page_count {
                    self.page = self.page + 1;
                    self.update_slots = true;
                }
            },
            PathListMsg::PrevPage => {
                if self.page > 0 {
                    self.page = self.page - 1;
                    self.update_slots = true;
                }
            },
            PathListMsg::SetPage(p) => {
                let target = if p > self.page_count {
                    self.page_count
                } else {
                    p
                };
                if self.page != target {
                    self.page = target;
                    self.update_slots = true;
                }
            },
        }
    }

    /// Load the current page into the slots: slot `k` shows the record of
    /// the page's `k`-th path, and slots past the page's end show nothing.
    #[verifier::loop_isolation(false)]
    pub fn update_slots(&mut self, graph: &GraphIndex)
        requires
            old(self).wf(),
        ensures
            final(self).wf(),
            !final(self).update_slots,
            final(self).all_paths == old(self).all_paths,
            final(self).page == old(self).page,
            final(self).page_size == old(self).page_size,
            final(self).page_count == old(self).page_count,
            final(self).path_details_id == old(self).path_details_id,
            final(self).slots@.len() == old(self).slots@.len(),
            ({
                let bounds = page_bounds_spec(
                    old(self).page as nat,
                    old(self).page_size as nat,
                    old(self).all_paths@.len() as nat,
                );
                forall|k: int|
                    0 <= k < final(self).slots@.len() ==> {
                        let target = bounds.0 + k;
                        if target < bounds.1 {
                            match find_path(
                                graph.paths_spec(),
                                old(self).all_paths@[target as int],
                            ) {
                                Some(record) => slot_loaded(#[trigger] final(self).slots@[k], record),
                                None => final(self).slots@[k].path_id is None,
                            }
                        } else {
                            final(self).slots@[k].path_id is None
                        }
                    }
            }),
    {
        let len = self.all_paths.len();
        let (start, end) = page_bounds(self.page, self.page_size, len);
        let slot_count = self.slots.len();
        let mut k: usize = 0;
        while k < slot_count
            invariant
                self.all_paths == old(self).all_paths,
                self.page == old(self).page,
                self.page_size == old(self).page_size,
                self.page_count == old(self).page_count,
                self.path_details_id == old(self).path_details_id,
                self.update_slots == old(self).update_slots,
                self.slots@.len() == old(self).slots@.len(),
                k <= slot_count,
                forall|i: int|
                    0 <= i < k ==> {
                        let target = start + i;
                        if target < end {
                            match find_path(
                                graph.paths_spec(),
                                old(self).all_paths@[target as int],
                            ) {
                                Some(record) => slot_loaded(#[trigger] self.slots@[i], record),
                                None => self.slots@[i].path_id is None,
                            }
                        } else {
                            self.slots@[i].path_id is None
                        }
                    },
            decreases slot_count - k,
        {
            if k < end - start {
                let target = start + k;
                let path = self.all_paths[target];
                let mut slot = PathListSlot::empty();
                let fetched = slot.fetch_path_id(graph, path);
                if fetched.is_some() {
                    self.slots.set(k, slot);
                } else {
                    self.slots.set(k, PathListSlot::empty());
                }
            } else {
                self.slots.set(k, PathListSlot::empty());
            }
            k = k + 1;
        }
        self.update_slots = false;
    }
}

/// The paginated step list of one path's details panel.
pub struct StepList {
    pub fetched_path_id: Option<PathId>,
    pub steps: Vec<StepEntry>,
    pub page: usize,
    pub page_size: usize,
    pub page_count: usize,
}

impl StepList {
    /// Coherent pagination over the fetched steps.
    pub open spec fn wf(&self) -> bool {
        &&& self.page_size > 0
        &&& self.page_count == last_page_spec(self.steps@.len() as nat, self.page_size as nat)
        &&& self.page <= self.page_count
    }

    /// An empty step list at a page size.
    pub fn new(page_size: usize) -> (r: StepList)
        requires
            page_size > 0,
        ensures
            r.wf(),
            r.fetched_path_id is None,
            r.steps@ == Seq::<StepEntry>::empty(),
            r.page == 0,
            r.page_size == page_size,
    {
        StepList { fetched_path_id: None, steps: Vec::new(), page: 0, page_size, page_count: 0 }
    }

    /// Fetch one path's steps, unless they are already shown: afterwards
    /// the list pages from the start over exactly that path's steps. A
    /// path the graph does not know leaves the list unchanged.
    pub fn update_for_path(&mut self, graph: &GraphIndex, path: PathId) -> (r: Option<()>)
        requires
            old(self).wf(),
        ensures
            final(self).wf(),
            final(self).page_size == old(self).page_size,
            if old(self).fetched_path_id == Some(path) {
                r == Some(()) && *final(self) == *old(self)
            } else {
                match find_path(graph.paths_spec(), path) {
                    Some(record) => {
                        &&& r == Some(())
                        &&& final(self).steps@ == record.steps@
                        &&& final(self).fetched_path_id == Some(path)
                        &&& final(self).page == 0
                    },
                    None => r is None && *final(self) == *old(self),
                }
            },
    {
        let already = match &self.fetched_path_id {
            Some(f) => f.0 == path.0,
            None => false,
        };
        if already {
            return Some(());
        }
        match graph.path_by_id(path) {
            None => None,
            Some(record) => {
                self.steps.clear();
                let mut ix: usize = 0;
                while ix < record.steps.len()
                    invariant
                        ix <= record.steps@.len(),
                        self.steps@ == record.steps@.take(ix as int),
                        self.fetched_path_id == old(self).fetched_path_id,
                        self.page == old(self).page,
                        self.page_size == old(self).page_size,
                        self.page_count == old(self).page_count,
                    decreases record.steps@.len() - ix,
                {
                    proof {
                        assert(record.steps@.take(ix as int + 1) =~= record.steps@.take(
                            ix as int,
                        ).push(record.steps@[ix as int]));
                    }
                    self.steps.push(record.steps[ix]);
                    ix = ix + 1;
                }
                proof {
                    assert(record.steps@.take(record.steps@.len() as int) =~= record.steps@);
                }
                self.page = 0;
                self.page_count = last_page(self.steps.len(), self.page_size);
                self.fetched_path_id = Some(path);
                Some(())
            },
        }
    }

    /// Apply one page-flip to the step list.
    pub fn apply_msg(&mut self, msg: PathListMsg)
        requires
            old(self).wf(),
        ensures
            final(self).wf(),
            final(self).page == flip_page_spec(
                old(self).page as nat,
                old(self).page_count as nat,
                msg,
            ),
            final(self).steps == old(self).steps,
            final(self).fetched_path_id == old(self).fetched_path_id,
            final(self).page_size == old(self).page_size,
            final(self).page_count == old(self).page_count,
    {
        match msg {
            PathListMsg::NextPage => {
                if self.page < self.page_count {
                    self.page = self.page + 1;
                }
            },
            PathListMsg::PrevPage => {
                if self.page > 0 {
                    self.page = self.page - 1;
                }
            },
            PathListMsg::SetPage(p) => {
                self.page = if p > self.page_count {
                    self.page_count
                } else {
                    p
                };
            },
        }
    }

    /// The item range the current page shows.
    pub fn visible_range(&self) -> (r: (usize, usize))
        requires
            self.wf(),
        ensures
            (r.0 as nat, r.1 as nat) == page_bounds_spec(
                self.page as nat,
                self.page_size as nat,
                self.steps@.len() as nat,
            ),
            r.0 <= r.1 <= self.steps@.len(),
    {
        page_bounds(self.page, self.page_size, self.steps.len())
    }
}

/// The path-details panel: the selected path's slot and its step list.
pub struct PathDetails {
    pub path_details: PathListSlot,
    pub step_list: StepList,
}

impl PathDetails {
    /// A details panel showing nothing, paging steps fifteen at a time.
    pub fn new() -> (r: PathDetails)
        ensures
            r.path_details.path_id is None,
            r.step_list.wf(),
            r.step_list.page_size == 15,
    {
        PathDetails { path_details: PathListSlot::empty(), step_list: StepList::new(15) }
    }
}

} // verus!
