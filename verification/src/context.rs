//! The type-keyed per-frame context store and the registry of
//! context-gated actions.
//!
//! Producers push `(kind, value)` pairs into a buffer while a context menu
//! is about to open; once per frame tick [`ContextMgr::begin_frame`] runs
//! the tri-state lifecycle and, in the `Ready` state with the menu-open
//! flag raised, materializes the buffered values into the store: one value
//! per kind, the last push for a kind winning. Actions declare the set of
//! kinds they need and are offered exactly when that set is present.

use vstd::prelude::*;

use std::collections::HashMap;

use crate::geometry::Point;
use crate::graph::NodeId;
use crate::graph::PathId;

verus! {

broadcast use vstd::std_specs::hash::group_hash_axioms;

/// The closed set of context value kinds, each with a stable type key.
#[derive(Clone, Copy, Debug, PartialEq, Eq, Hash, Structural)]
pub enum TypeKey {
    Node,
    Path,
    Selection,
}

impl TypeKey {
    /// The stable key a kind is stored under.
    pub open spec fn key_spec(self) -> u64 {
        match self {
            TypeKey::Node => 1,
            TypeKey::Path => 2,
            TypeKey::Selection => 3,
        }
    }

    /// The stable key a kind is stored under.
    pub fn key(self) -> (k: u64)
        ensures
            k == self.key_spec(),
    {
        match self {
            TypeKey::Node => 1,
            TypeKey::Path => 2,
            TypeKey::Selection => 3,
        }
    }
}

/// One context value a producer pushed: what is under the pointer or
/// selected this frame.
#[derive(Clone, Debug, PartialEq)]
pub enum ContextEntry {
    Node(NodeId),
    Path(PathId),
    Selection { nodes: Vec<NodeId> },
}

impl ContextEntry {
    /// The kind this value is stored under.
    pub open spec fn kind_spec(&self) -> TypeKey {
        match self {
            ContextEntry::Node(_) => TypeKey::Node,
            ContextEntry::Path(_) => TypeKey::Path,
            ContextEntry::Selection { .. } => TypeKey::Selection,
        }
    }

    /// The kind this value is stored under.
    pub fn kind(&self) -> (k: TypeKey)
        ensures
            k == self.kind_spec(),
    {
        match self {
            ContextEntry::Node(_) => TypeKey::Node,
            ContextEntry::Path(_) => TypeKey::Path,
            ContextEntry::Selection { .. } => TypeKey::Selection,
        }
    }
}

/// The per-frame snapshot: a mapping from type key to the context value of
/// that kind, unique per key.
pub struct Context {
    values: HashMap<u64, ContextEntry>,
}

impl Context {
    /// The mapping from type key to stored value.
    pub closed spec fn values_spec(&self) -> Map<u64, ContextEntry> {
        self.values@
    }

    /// The set of type keys present this frame.
    pub open spec fn keys_spec(&self) -> Set<u64> {
        self.values_spec().dom()
    }

    /// An empty snapshot.
    pub fn new() -> (c: Context)
        ensures
            c.values_spec() == Map::<u64, ContextEntry>::empty(),
    {
        Context { values: HashMap::new() }
    }

    /// Whether a value of this kind is present.
    pub fn contains(&self, key: TypeKey) -> (r: bool)
        ensures
            r == self.keys_spec().contains(key.key_spec()),
    {
        self.values.contains_key(&key.key())
    }

    /// The value of this kind, if present.
    pub fn get(&self, key: TypeKey) -> (r: Option<&ContextEntry>)
        ensures
            match r {
                Some(v) => self.values_spec().contains_key(key.key_spec()) && *v
                    == self.values_spec()[key.key_spec()],
                None => !self.values_spec().contains_key(key.key_spec()),
            },
    {
        self.values.get(&key.key())
    }

    /// Store a value under its kind, overwriting any previous one.
    pub fn insert_value(&mut self, value: ContextEntry)
        ensures
            final(self).values_spec() == old(self).values_spec().insert(
                value.kind_spec().key_spec(),
                value,
            ),
    {
        let k = value.kind().key();
        self.values.insert(k, value);
    }

    /// Drop all values.
    pub fn clear(&mut self)
        ensures
            final(self).values_spec() == Map::<u64, ContextEntry>::empty(),
    {
        self.values.clear();
    }
}

/// The mapping a buffer of pushed values materializes into: each value
/// stored under its kind, a later push for the same kind winning.
pub open spec fn materialize_spec(buffer: Seq<ContextEntry>) -> Map<u64, ContextEntry>
    decreases buffer.len(),
{
    if buffer.len() == 0 {
        Map::empty()
    } else {
        materialize_spec(buffer.drop_last()).insert(
            buffer.last().kind_spec().key_spec(),
            buffer.last(),
        )
    }
}

/// The set of type keys pushed in a buffer.
pub open spec fn pushed_keys(buffer: Seq<ContextEntry>) -> Set<u64> {
    Set::new(
        |k: u64|
            exists|i: int| 0 <= i < buffer.len() && (#[trigger] buffer[i]).kind_spec().key_spec()
                == k,
    )
}

/// The materialized store's key set equals the set of type keys pushed,
/// and each key holds the last value pushed for it.
pub proof fn lemma_materialize_last_write_wins(buffer: Seq<ContextEntry>)
    ensures
        materialize_spec(buffer).dom() =~= pushed_keys(buffer),
        forall|i: int|
            #![trigger buffer[i]]
            (0 <= i < buffer.len() && (forall|j: int|
                i < j < buffer.len() ==> (#[trigger] buffer[j]).kind_spec().key_spec()
                    != buffer[i].kind_spec().key_spec())) ==> materialize_spec(
                buffer,
            )[buffer[i].kind_spec().key_spec()] == buffer[i],
    decreases buffer.len(),
{
    if buffer.len() > 0 {
        lemma_materialize_last_write_wins(buffer.drop_last());
        assert forall|k: u64| #[trigger]
            pushed_keys(buffer).contains(k) implies materialize_spec(buffer).dom().contains(k) by {
            let i = choose|i: int|
                0 <= i < buffer.len() && (#[trigger] buffer[i]).kind_spec().key_spec() == k;
            if i < buffer.len() - 1 {
                assert(buffer.drop_last()[i] == buffer[i]);
                assert(pushed_keys(buffer.drop_last()).contains(k));
            }
        }
        assert forall|k: u64|
            materialize_spec(buffer).dom().contains(k) implies #[trigger] pushed_keys(
            buffer,
        ).contains(k) by {
            if k != buffer.last().kind_spec().key_spec() {
                let i = choose|i: int|
                    0 <= i < buffer.drop_last().len() && (#[trigger] buffer.drop_last()[i]).kind_spec().key_spec()
                        == k;
                assert(buffer[i] == buffer.drop_last()[i]);
            } else {
                assert(buffer[buffer.len() - 1].kind_spec().key_spec() == k);
            }
        }
        assert forall|i: int|
            #![trigger buffer[i]]
            (0 <= i < buffer.len() && (forall|j: int|
                i < j < buffer.len() ==> (#[trigger] buffer[j]).kind_spec().key_spec()
                    != buffer[i].kind_spec().key_spec())) implies materialize_spec(
            buffer,
        )[buffer[i].kind_spec().key_spec()] == buffer[i] by {
            if i == buffer.len() - 1 {
                assert(materialize_spec(buffer)[buffer.last().kind_spec().key_spec()]
                    == buffer.last());
            } else {
                assert(buffer.drop_last()[i] == buffer[i]);
                assert(forall|j: int|
                    i < j < buffer.drop_last().len() ==> (#[trigger] buffer.drop_last()[j]).kind_spec().key_spec()
                        != buffer.drop_last()[i].kind_spec().key_spec());
                assert(buffer[i].kind_spec().key_spec() != buffer.last().kind_spec().key_spec());
            }
        }
    }
}

/// A named action gated by the set of context kinds it needs.
pub struct ContextAction_ {
    req: Vec<TypeKey>,
    effect: ContextAction,
}

/// The closed set of effects a context action can have.
#[derive(Debug, Clone, Copy, PartialEq, Eq, PartialOrd, Ord, Hash, Structural)]
pub enum ContextAction {
    CopyNodeId,
    CopyNodeSeq,
    CopyPathName,
    CopySubgraphGfa,
    PanToNode,
}

/// Whether every required kind is present in the store.
pub open spec fn req_subset(req: Seq<TypeKey>, ctx: &Context) -> bool {
    forall|i: int| 0 <= i < req.len() ==> ctx.keys_spec().contains((#[trigger] req[i]).key_spec())
}

impl ContextAction_ {
    /// The kinds this action needs present.
    pub closed spec fn req_spec(&self) -> Seq<TypeKey> {
        self.req@
    }

    /// The effect this action has when invoked.
    pub closed spec fn effect_spec(&self) -> ContextAction {
        self.effect
    }

    /// Declare an action: the kinds it needs and its effect.
    pub fn new(req: Vec<TypeKey>, effect: ContextAction) -> (a: ContextAction_)
        ensures
            a.req_spec() == req@,
            a.effect_spec() == effect,
    {
        ContextAction_ { req, effect }
    }

    /// Whether this action applies to the current store: its required-type
    /// set is a subset of the kinds present.
    pub fn is_applicable(&self, ctx: &Context) -> (r: bool)
        ensures
            r == req_subset(self.req_spec(), ctx),
    {
        let mut ix: usize = 0;
        while ix < self.req.len()
            invariant
                ix <= self.req_spec().len(),
                forall|i: int|
                    0 <= i < ix ==> ctx.keys_spec().contains(
                        (#[trigger] self.req_spec()[i]).key_spec(),
                    ),
            decreases self.req_spec().len() - ix,
        {
            if !ctx.contains(self.req[ix]) {
                return false;
            }
            ix = ix + 1;
        }
        true
    }

    /// The effect to run, exactly when the action applies to the store.
    pub fn apply_action(&self, ctx: &Context) -> (r: Option<ContextAction>)
        ensures
            r == if req_subset(self.req_spec(), ctx) {
                Some(self.effect_spec())
            } else {
                None::<ContextAction>
            },
    {
        if self.is_applicable(ctx) {
            Some(self.effect)
        } else {
            None
        }
    }
}

/// The tri-state lifecycle of the context store: two frame ticks pass
/// before buffered values may materialize.
#[derive(Clone, Copy, Debug, PartialEq, Eq, Structural)]
pub enum InitState {
    Uninitialized,
    Initializing,
    Ready,
}

/// The store, its lifecycle, the producers' buffer and the registered
/// actions.
pub struct ContextMgr {
    pub init: InitState,
    pub load_context_this_frame: bool,
    pub context_menu_open: bool,
    pub position: Point,
    pub buffer: Vec<ContextEntry>,
    pub frame_context: Context,
    pub actions: Vec<(String, ContextAction_)>,
    pub kind_names: Vec<(TypeKey, String)>,
}

impl ContextMgr {
    /// The buffered producer pushes not yet materialized.
    pub closed spec fn buffer_spec(&self) -> Seq<ContextEntry> {
        self.buffer@
    }

    /// The store's current mapping.
    pub open spec fn store_spec(&self) -> Map<u64, ContextEntry> {
        self.frame_context_ref().values_spec()
    }

    /// The store itself, for spec purposes.
    pub closed spec fn frame_context_ref(&self) -> &Context {
        &self.frame_context
    }

    /// The registered actions, in registration order.
    pub closed spec fn actions_spec(&self) -> Seq<(String, ContextAction_)> {
        self.actions@
    }

    /// The registered kind names, in registration order.
    pub closed spec fn kind_names_spec(&self) -> Seq<(TypeKey, String)> {
        self.kind_names@
    }

    /// Registered action names are unique, so a name denotes one action.
    pub open spec fn wf(&self) -> bool {
        forall|i: int, j: int|
            0 <= i < j < self.actions_spec().len() ==> (#[trigger] self.actions_spec()[i]).0@ != (
            #[trigger] self.actions_spec()[j]).0@
    }

    /// A manager before its first frame: uninitialized, no flags raised,
    /// nothing buffered, an empty store and no registered actions.
    pub fn new() -> (m: ContextMgr)
        ensures
            m.wf(),
            m.init is Uninitialized,
            !m.load_context_this_frame,
            !m.context_menu_open,
            m.position == (Point { x: 0, y: 0 }),
            m.buffer_spec() == Seq::<ContextEntry>::empty(),
            m.store_spec() == Map::<u64, ContextEntry>::empty(),
            m.actions_spec() == Seq::<(String, ContextAction_)>::empty(),
    {
        ContextMgr {
            init: InitState::Uninitialized,
            load_context_this_frame: false,
            context_menu_open: false,
            position: Point { x: 0, y: 0 },
            buffer: Vec::new(),
            frame_context: Context::new(),
            actions: Vec::new(),
            kind_names: Vec::new(),
        }
    }

    /// Register an action under a name; a name registered again replaces
    /// the earlier action.
    #[verifier::loop_isolation(false)]
    pub fn register_action(&mut self, name: String, action: ContextAction_)
        requires
            old(self).wf(),
        ensures
            final(self).wf(),
            final(self).action_by_name(name@) == Some(action),
            forall|n: Seq<char>|
                n != name@ ==> final(self).action_by_name(n) == old(self).action_by_name(n),
            final(self).init == old(self).init,
            final(self).load_context_this_frame == old(self).load_context_this_frame,
            final(self).context_menu_open == old(self).context_menu_open,
            final(self).buffer_spec() == old(self).buffer_spec(),
            final(self).store_spec() == old(self).store_spec(),
    {
        let mut ix: usize = 0;
        while ix < self.actions.len()
            invariant
                *self == *old(self),
                ix <= self.actions@.len(),
                forall|i: int| 0 <= i < ix ==> (#[trigger] self.actions@[i]).0@ != name@,
            decreases self.actions@.len() - ix,
        {
            let found = {
                let pair = &self.actions[ix];
                string_eq(&pair.0, &name)
            };
            if found {
                self.actions.set(ix, (name, action));
                proof {
                    lemma_action_lookup_update(old(self).actions@, self.actions@, ix as int);
                }
                return ;
            }
            ix = ix + 1;
        }
        self.actions.push((name, action));
        proof {
            lemma_action_lookup_push(old(self).actions@, self.actions@);
            assert forall|a: int, b: int|
                0 <= a < b < self.actions@.len() implies (#[trigger] self.actions@[a]).0@ != (
            #[trigger] self.actions@[b]).0@ by {
                assert(self.actions@[a] == old(self).actions@[a]);
                if b < self.actions@.len() - 1 {
                    assert(self.actions@[b] == old(self).actions@[b]);
                }
            };
        }
    }

    /// The action registered under a name, by most recent registration.
    pub open spec fn action_by_name(&self, name: Seq<char>) -> Option<ContextAction_> {
        lookup_action(self.actions_spec(), name)
    }

    /// Record a human-readable name for a kind; a later name for the same
    /// kind wins.
    pub fn set_kind_name(&mut self, key: TypeKey, name: String)
        ensures
            final(self).kind_names_spec() == old(self).kind_names_spec().push((key, name)),
    {
        self.kind_names.push((key, name));
    }

    /// The most recently recorded name of a kind.
    #[verifier::loop_isolation(false)]
    pub fn kind_name(&self, key: TypeKey) -> (r: Option<&String>)
        ensures
            match r {
                Some(n) => exists|i: int|
                    0 <= i < self.kind_names_spec().len() && #[trigger] self.kind_names_spec()[i]
                        == (key, *n) && forall|j: int|
                        i < j < self.kind_names_spec().len() ==> (
                        #[trigger] self.kind_names_spec()[j]).0 != key,
                None => forall|i: int|
                    0 <= i < self.kind_names_spec().len() ==> (
                    #[trigger] self.kind_names_spec()[i]).0 != key,
            },
    {
        let mut ix: usize = self.kind_names.len();
        while ix > 0
            invariant
                ix <= self.kind_names@.len(),
                forall|j: int|
                    ix <= j < self.kind_names@.len() ==> (#[trigger] self.kind_names@[j]).0 != key,
            decreases ix,
        {
            ix = ix - 1;
            if self.kind_names[ix].0 == key {
                return Some(&self.kind_names[ix].1);
            }
        }
        None
    }

    /// Whether producers should run their value-producing closures this
    /// frame: only while a menu is about to open.
    pub fn wants_context(&self) -> (r: bool)
        ensures
            r == self.load_context_this_frame,
    {
        self.load_context_this_frame
    }

    /// Push one produced context value. Only buffered while the menu-open
    /// flag is raised: on any other frame the push is dropped, so
    /// producers waste no work on frames where no menu is opening.
    pub fn produce_context(&mut self, value: ContextEntry)
        ensures
            final(self).buffer_spec() == if old(self).load_context_this_frame {
                old(self).buffer_spec().push(value)
            } else {
                old(self).buffer_spec()
            },
            final(self).init == old(self).init,
            final(self).load_context_this_frame == old(self).load_context_this_frame,
            final(self).context_menu_open == old(self).context_menu_open,
            final(self).store_spec() == old(self).store_spec(),
            final(self).actions_spec() == old(self).actions_spec(),
    {
        if self.load_context_this_frame {
            self.buffer.push(value);
        }
    }

    /// The invoke gesture: open the context menu. On the frame that opens
    /// it (not while it is already open) the store is flagged to
    /// materialize this frame's context values.
    pub fn open_context_menu(&mut self)
        ensures
            final(self).context_menu_open,
            final(self).load_context_this_frame == (!old(self).context_menu_open || old(self).load_context_this_frame),
            final(self).init == old(self).init,
            final(self).buffer_spec() == old(self).buffer_spec(),
            final(self).store_spec() == old(self).store_spec(),
            final(self).actions_spec() == old(self).actions_spec(),
    {
        if !self.context_menu_open {
            self.load_context_this_frame = true;
        }
        self.context_menu_open = true;
    }

    /// Where the menu is anchored on screen.
    pub fn set_position(&mut self, pos: Point)
        ensures
            final(self).position == pos,
            final(self).init == old(self).init,
            final(self).load_context_this_frame == old(self).load_context_this_frame,
            final(self).context_menu_open == old(self).context_menu_open,
            final(self).buffer_spec() == old(self).buffer_spec(),
            final(self).store_spec() == old(self).store_spec(),
            final(self).actions_spec() == old(self).actions_spec(),
    {
        self.position = pos;
    }

    /// Close the menu and clear the materialization flag.
    pub fn close_context_menu(&mut self)
        ensures
            !final(self).context_menu_open,
            !final(self).load_context_this_frame,
            final(self).init == old(self).init,
            final(self).buffer_spec() == old(self).buffer_spec(),
            final(self).store_spec() == old(self).store_spec(),
            final(self).actions_spec() == old(self).actions_spec(),
    {
        self.load_context_this_frame = false;
        self.context_menu_open = false;
    }

    /// The once-per-tick lifecycle step. The first tick moves
    /// `Uninitialized` to `Initializing`, the second to `Ready`; from then
    /// on, a raised menu-open flag makes this tick replace the store's
    /// contents with the buffered values, one per kind, the last push for
    /// a kind winning, and clears the flag. While the flag is down the
    /// store is left untouched.
    #[verifier::loop_isolation(false)]
    pub fn begin_frame(&mut self)
        ensures
            final(self).context_menu_open == old(self).context_menu_open,
            final(self).actions_spec() == old(self).actions_spec(),
            match old(self).init {
                InitState::Uninitialized => {
                    &&& final(self).init is Initializing
                    &&& final(self).store_spec() == old(self).store_spec()
                    &&& final(self).buffer_spec() == old(self).buffer_spec()
                    &&& final(self).load_context_this_frame == old(self).load_context_this_frame
                },
                _ => {
                    &&& final(self).init is Ready
                    &&& if old(self).load_context_this_frame {
                        &&& final(self).store_spec() == materialize_spec(old(self).buffer_spec())
                        &&& final(self).buffer_spec() == Seq::<ContextEntry>::empty()
                        &&& !final(self).load_context_this_frame
                    } else {
                        &&& final(self).store_spec() == old(self).store_spec()
                        &&& final(self).buffer_spec() == old(self).buffer_spec()
                        &&& final(self).load_context_this_frame == old(self).load_context_this_frame
                    }
                },
            },
    {
        match self.init {
            InitState::Uninitialized => {
                self.init = InitState::Initializing;
                return ;
            },
            InitState::Initializing => {
                self.init = InitState::Ready;
            },
            InitState::Ready => (),
        }
        if self.load_context_this_frame {
            self.frame_context.clear();
            let mut pending: Vec<ContextEntry> = Vec::new();
            core::mem::swap(&mut self.buffer, &mut pending);
            let ghost buf0 = pending@;
            proof {
                assert(materialize_spec(buf0.take(0)) =~= Map::<u64, ContextEntry>::empty());
                assert(buf0.skip(0) =~= buf0);
            }
            while pending.len() > 0
                invariant
                    self.init == old(self).init || self.init is Ready,
                    self.init is Ready,
                    self.context_menu_open == old(self).context_menu_open,
                    self.load_context_this_frame,
                    self.actions@ == old(self).actions@,
                    self.kind_names@ == old(self).kind_names@,
                    self.position == old(self).position,
                    self.buffer@ == Seq::<ContextEntry>::empty(),
                    pending@.len() <= buf0.len(),
                    pending@ == buf0.skip(buf0.len() - pending@.len()),
                    self.frame_context.values_spec() == materialize_spec(
                        buf0.take(buf0.len() - pending@.len()),
                    ),
                decreases pending@.len(),
            {
                let ghost i = buf0.len() - pending@.len();
                let value = pending.remove(0);
                proof {
                    assert(value == buf0[i]);
                    assert(pending@ =~= buf0.skip(i + 1));
                    assert(buf0.take(i + 1).drop_last() =~= buf0.take(i));
                    assert(buf0.take(i + 1).last() == buf0[i]);
                }
                self.frame_context.insert_value(value);
            }
            proof {
                assert(buf0.take(buf0.len() as int) =~= buf0);
            }
            self.load_context_this_frame = false;
        }
    }

    /// The tri-state guard of the visible menu: until the store has
    /// reached `Ready`, showing the context menu is a no-op, not an error.
    pub fn can_show(&self) -> (r: bool)
        ensures
            r == (self.init is Ready),
    {
        match self.init {
            InitState::Ready => true,
            _ => false,
        }
    }

    /// The store for this frame.
    pub fn frame_context(&self) -> (r: &Context)
        ensures
            r == self.frame_context_ref(),
    {
        &self.frame_context
    }

    /// The names of the registered actions offered in the visible menu:
    /// exactly those whose required-type set is a subset of the store's
    /// present kinds, in registration order.
    #[verifier::loop_isolation(false)]
    pub fn applicable_actions(&self) -> (names: Vec<String>)
        requires
            self.wf(),
        ensures
            forall|i: int|
                0 <= i < names@.len() ==> {
                    let a = lookup_action(self.actions_spec(), (#[trigger] names@[i])@);
                    a is Some && req_subset(a.unwrap().req_spec(), self.frame_context_ref())
                },
            forall|j: int|
                0 <= j < self.actions_spec().len() && req_subset(
                    (#[trigger] self.actions_spec()[j]).1.req_spec(),
                    self.frame_context_ref(),
                ) ==> exists|i: int| 0 <= i < names@.len() && names@[i]@ == self.actions_spec()[j].0@,
    {
        let mut names: Vec<String> = Vec::new();
        let mut ix: usize = 0;
        while ix < self.actions.len()
            invariant
                self.wf(),
                ix <= self.actions@.len(),
                forall|i: int|
                    0 <= i < names@.len() ==> {
                        let a = lookup_action(self.actions@, (#[trigger] names@[i])@);
                        a is Some && req_subset(a.unwrap().req_spec(), self.frame_context_ref())
                    },
                forall|j: int|
                    0 <= j < ix && req_subset(
                        (#[trigger] self.actions@[j]).1.req_spec(),
                        self.frame_context_ref(),
                    ) ==> exists|i: int| 0 <= i < names@.len() && names@[i]@ == self.actions@[j].0@,
            decreases self.actions@.len() - ix,
        {
            let applicable = {
                let pair = &self.actions[ix];
                pair.1.is_applicable(&self.frame_context)
            };
            let ghost names_before = names@;
            if applicable {
                let name = self.actions[ix].0.clone();
                proof {
                    lemma_lookup_action_unique(self.actions@, ix as int);
                }
                names.push(name);
            }
            ix = ix + 1;
            proof {
                assert forall|j: int|
                    0 <= j < ix && req_subset(
                        (#[trigger] self.actions@[j]).1.req_spec(),
                        self.frame_context_ref(),
                    ) implies exists|i: int|
                    0 <= i < names@.len() && names@[i]@ == self.actions@[j].0@ by {
                    if j < ix - 1 {
                        let i = choose|i: int|
                            0 <= i < names_before.len() && names_before[i]@ == self.actions@[j].0@;
                        assert(names@[i]@ == self.actions@[j].0@);
                    } else {
                        assert(names@[names@.len() - 1]@ == self.actions@[j].0@);
                    }
                }
            }
        }
        names
    }
}

impl Default for ContextMgr {
    /// A manager before its first frame, as [`ContextMgr::new`] builds it.
    fn default() -> (m: ContextMgr)
        ensures
            m.wf(),
            m.init is Uninitialized,
            !m.load_context_this_frame,
            !m.context_menu_open,
            m.buffer_spec() == Seq::<ContextEntry>::empty(),
            m.store_spec() == Map::<u64, ContextEntry>::empty(),
            m.actions_spec() == Seq::<(String, ContextAction_)>::empty(),
    {
        ContextMgr::new()
    }
}

/// The most recent action registered under a name.
pub open spec fn lookup_action(actions: Seq<(String, ContextAction_)>, name: Seq<char>) -> Option<
    ContextAction_,
>
    decreases actions.len(),
{
    if actions.len() == 0 {
        None
    } else if actions.last().0@ == name {
        Some(actions.last().1)
    } else {
        lookup_action(actions.drop_last(), name)
    }
}

/// With unique names, looking a registered name up finds its own entry.
proof fn lemma_lookup_action_unique(actions: Seq<(String, ContextAction_)>, i: int)
    requires
        0 <= i < actions.len(),
        forall|a: int, b: int|
            0 <= a < b < actions.len() ==> (#[trigger] actions[a]).0@ != (
            #[trigger] actions[b]).0@,
    ensures
        lookup_action(actions, actions[i].0@) == Some(actions[i].1),
    decreases actions.len(),
{
    if i < actions.len() - 1 {
        assert(actions.last().0@ != actions[i].0@);
        assert(actions.drop_last()[i] == actions[i]);
        lemma_lookup_action_unique(actions.drop_last(), i);
    }
}

/// Replacing the entry that holds a name leaves every other name's lookup
/// unchanged and resolves that name to the new action.
proof fn lemma_action_lookup_update(
    before: Seq<(String, ContextAction_)>,
    after: Seq<(String, ContextAction_)>,
    ix: int,
)
    requires
        0 <= ix < before.len(),
        after.len() == before.len(),
        after[ix].0@ == before[ix].0@,
        forall|i: int| 0 <= i < before.len() && i != ix ==> after[i] == before[i],
        forall|a: int, b: int|
            0 <= a < b < before.len() ==> (#[trigger] before[a]).0@ != (#[trigger] before[b]).0@,
    ensures
        lookup_action(after, after[ix].0@) == Some(after[ix].1),
        forall|n: Seq<char>| n != after[ix].0@ ==> lookup_action(after, n) == lookup_action(before, n),
        forall|a: int, b: int|
            0 <= a < b < after.len() ==> (#[trigger] after[a]).0@ != (#[trigger] after[b]).0@,
    decreases before.len(),
{
    assert forall|a: int, b: int|
        0 <= a < b < after.len() implies (#[trigger] after[a]).0@ != (#[trigger] after[b]).0@ by {
        assert(after[a].0@ == before[a].0@ && after[b].0@ == before[b].0@);
    }
    lemma_lookup_action_unique(after, ix);
    assert forall|n: Seq<char>| n != after[ix].0@ implies lookup_action(after, n) == lookup_action(
        before,
        n,
    ) by {
        lemma_lookup_skips_other(before, after, ix, n);
    }
}

/// Lookup of a name other than the replaced one walks the same entries.
proof fn lemma_lookup_skips_other(
    before: Seq<(String, ContextAction_)>,
    after: Seq<(String, ContextAction_)>,
    ix: int,
    n: Seq<char>,
)
    requires
        0 <= ix < before.len(),
        after.len() == before.len(),
        after[ix].0@ == before[ix].0@,
        forall|i: int| 0 <= i < before.len() && i != ix ==> after[i] == before[i],
        n != after[ix].0@,
    ensures
        lookup_action(after, n) == lookup_action(before, n),
    decreases before.len(),
{
    if before.len() > 0 {
        if ix == before.len() - 1 {
            assert(after.last().0@ == before.last().0@);
            assert(after.drop_last() =~= before.drop_last());
        } else {
            assert(after.last() == before.last());
            if after.last().0@ != n {
                assert(after.drop_last()[ix] == after[ix]);
                assert(forall|i: int|
                    0 <= i < before.drop_last().len() && i != ix ==> #[trigger] after.drop_last()[i]
                        == before.drop_last()[i]);
                lemma_lookup_skips_other(before.drop_last(), after.drop_last(), ix, n);
            }
        }
    }
}

/// Appending a fresh name leaves every other name's lookup unchanged.
proof fn lemma_action_lookup_push(
    before: Seq<(String, ContextAction_)>,
    after: Seq<(String, ContextAction_)>,
)
    requires
        after.len() == before.len() + 1,
        forall|i: int| 0 <= i < before.len() ==> after[i] == before[i],
    ensures
        lookup_action(after, after.last().0@) == Some(after.last().1),
        forall|n: Seq<char>|
            n != after.last().0@ ==> lookup_action(after, n) == lookup_action(before, n),
{
    assert(after.drop_last() =~= before);
}

/// Byte-for-byte string comparison, through the vstd specification of
/// `String` equality.
fn string_eq(a: &String, b: &String) -> (r: bool)
    ensures
        r == (a@ == b@),
{
    a.eq(b)
}

} // verus!
