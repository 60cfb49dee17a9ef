//! Surface records kept in an arena indexed by `SurfaceId`, and the commit
//! synchroniser that decides when a surface's pending state becomes current.
use vstd::prelude::*;

verus! {

/// Stable identifier of a client surface: its index in the store.
pub type SurfaceId = usize;

/// Identifier of a client buffer.
pub type BufferId = u64;

/// Upper bound on the length of any parent walk; guards against a malformed
/// (cyclic) parent chain.
pub const MAX_TREE_DEPTH: usize = 32;

#[derive(Clone, Copy, Debug, PartialEq, Eq, Structural)]
pub enum SyncMode {
    Synchronized,
    Desynchronized,
}

#[derive(Clone, Copy, Debug, PartialEq, Eq, Structural)]
pub enum Role {
    Unassigned,
    Toplevel,
    Popup,
    Layer,
    Cursor,
    Subsurface,
}

/// Bookkeeping for one surface.
///
/// `pending` is `Some(b)` when the client attached `b` (or detached, `b == None`)
/// since its last commit; `cached` is `Some(b)` when a synchronised subsurface
/// committed that state and waits for its parent; `committed` is the buffer
/// composited now.
#[derive(Clone, Copy, Debug, PartialEq, Eq, Structural)]
pub struct SurfaceRecord {
    pub alive: bool,
    pub parent: Option<SurfaceId>,
    pub sync: SyncMode,
    pub role: Role,
    pub pending: Option<Option<BufferId>>,
    pub cached: Option<Option<BufferId>>,
    pub committed: Option<BufferId>,
}

pub struct SurfaceStore {
    pub records: Vec<SurfaceRecord>,
}

/// The buffer a surface shows after applying the state `st` on top of `current`.
pub open spec fn applied(current: Option<BufferId>, st: Option<Option<BufferId>>) -> Option<BufferId> {
    match st {
        Some(b) => b,
        None => current,
    }
}

/// Whether surface `id` is effectively synchronised: it is a subsurface whose
/// own mode is synchronised, or whose parent is effectively synchronised.
pub open spec fn sync_held(s: Seq<SurfaceRecord>, id: int, fuel: nat) -> bool
    decreases fuel,
{
    if fuel == 0 || id < 0 || id >= s.len() {
        false
    } else {
        match s[id].parent {
            None => false,
            Some(p) => s[id].sync == SyncMode::Synchronized || sync_held(s, p as int, (fuel - 1) as nat),
        }
    }
}

/// The surface whose commit applies the state cached by `id`: the nearest
/// ancestor-or-self that is not effectively synchronised.
pub open spec fn sync_root(s: Seq<SurfaceRecord>, id: int, fuel: nat) -> int
    decreases fuel,
{
    if fuel > 0 && sync_held(s, id, fuel) {
        sync_root(s, s[id].parent.unwrap() as int, (fuel - 1) as nat)
    } else {
        id
    }
}

/// The topmost ancestor of `id` reachable within `fuel` parent steps.
pub open spec fn tree_root(s: Seq<SurfaceRecord>, id: int, fuel: nat) -> int
    decreases fuel,
{
    if fuel == 0 || id < 0 || id >= s.len() {
        id
    } else {
        match s[id].parent {
            None => id,
            Some(p) => tree_root(s, p as int, (fuel - 1) as nat),
        }
    }
}

/// Whether `a` is `x` or one of its ancestors within `fuel` parent steps.
pub open spec fn ancestor_or_self(s: Seq<SurfaceRecord>, a: int, x: int, fuel: nat) -> bool
    decreases fuel,
{
    if x == a {
        true
    } else if fuel == 0 || x < 0 || x >= s.len() {
        false
    } else {
        match s[x].parent {
            None => false,
            Some(p) => ancestor_or_self(s, a, p as int, (fuel - 1) as nat),
        }
    }
}

#[derive(Clone, Copy, Debug, PartialEq, Eq, Structural)]
pub enum RoleError {
    /// The surface already has a role.
    AlreadyAssigned,
    /// The requested parent is the surface itself or one of its descendants.
    BadParent,
}

/// Whether `id` names a surface of `s` that has not been destroyed.
pub open spec fn live_in(s: Seq<SurfaceRecord>, id: SurfaceId) -> bool {
    id < s.len() && s[id as int].alive
}

/// The records after surface `id` is destroyed: it is dead and shows nothing.
pub open spec fn destroyed(s: Seq<SurfaceRecord>, id: SurfaceId) -> Seq<SurfaceRecord> {
    s.update(id as int, SurfaceRecord { alive: false, pending: None, cached: None, committed: None, ..s[id as int] })
}

/// The records after surface `c` commits.
pub open spec fn after_commit(s: Seq<SurfaceRecord>, c: int) -> Seq<SurfaceRecord> {
    let fuel = MAX_TREE_DEPTH as nat;
    if sync_held(s, c, fuel) {
        s.update(c, SurfaceRecord {
            pending: None,
            cached: if s[c].pending is Some { s[c].pending } else { s[c].cached },
            ..s[c]
        })
    } else {
        Seq::new(s.len(), |i: int|
            if i == c {
                SurfaceRecord { pending: None, committed: applied(s[i].committed, s[i].pending), ..s[i] }
            } else if s[i].cached is Some && sync_held(s, i, fuel) && sync_root(s, i, fuel) == c {
                SurfaceRecord { cached: None, committed: applied(s[i].committed, s[i].cached), ..s[i] }
            } else {
                s[i]
            })
    }
}

/// A commit by an effectively synchronised subsurface changes the buffer
/// shown by no surface: its state waits in the cache.
pub proof fn lemma_sync_commit_shows_nothing(s: Seq<SurfaceRecord>, c: int)
    requires
        0 <= c < s.len(),
        sync_held(s, c, MAX_TREE_DEPTH as nat),
    ensures
        after_commit(s, c).len() == s.len(),
        forall|i: int| 0 <= i < s.len() ==> (#[trigger] after_commit(s, c)[i]).committed == s[i].committed,
        after_commit(s, c)[c].cached == if s[c].pending is Some { s[c].pending } else { s[c].cached },
{
}

/// The next commit of the surface that a synchronised subsurface waits on
/// shows the state the subsurface cached.
pub proof fn lemma_parent_commit_shows_cached(s: Seq<SurfaceRecord>, child: int, root: int)
    requires
        0 <= child < s.len(),
        0 <= root < s.len(),
        child != root,
        s[child].cached is Some,
        sync_held(s, child, MAX_TREE_DEPTH as nat),
        sync_root(s, child, MAX_TREE_DEPTH as nat) == root,
        !sync_held(s, root, MAX_TREE_DEPTH as nat),
    ensures
        after_commit(s, root)[child].committed == applied(s[child].committed, s[child].cached),
        after_commit(s, root)[child].cached is None,
{
}

impl SurfaceStore {
    pub open spec fn view(&self) -> Seq<SurfaceRecord> {
        self.records@
    }

    /// Every parent link names a slot of the store.
    pub open spec fn wf(&self) -> bool {
        forall|i: int| 0 <= i < self.records@.len() ==> ((#[trigger] self.records@[i]).parent matches Some(p) ==> p < self.records@.len())
    }

    pub open spec fn is_live(&self, id: SurfaceId) -> bool {
        live_in(self@, id)
    }

    pub fn new() -> (r: SurfaceStore)
        ensures
            r.wf(),
            r@.len() == 0,
    {
        SurfaceStore { records: Vec::new() }
    }

    pub fn len(&self) -> (r: usize)
        ensures
            r == self@.len(),
    {
        self.records.len()
    }

    /// Creates a fresh surface with no role, no parent and no buffer.
    pub fn create_surface(&mut self) -> (r: SurfaceId)
        requires
            old(self).wf(),
        ensures
            final(self).wf(),
            r == old(self)@.len(),
            final(self)@ == old(self)@.push(SurfaceRecord {
                alive: true,
                parent: None,
                sync: SyncMode::Synchronized,
                role: Role::Unassigned,
                pending: None,
                cached: None,
                committed: None,
            }),
    {
        let id = self.records.len();
        self.records.push(SurfaceRecord {
            alive: true,
            parent: None,
            sync: SyncMode::Synchronized,
            role: Role::Unassigned,
            pending: None,
            cached: None,
            committed: None,
        });
        id
    }

    pub fn is_alive(&self, id: SurfaceId) -> (r: bool)
        ensures
            r == self.is_live(id),
    {
        id < self.records.len() && self.records[id].alive
    }

    pub fn record(&self, id: SurfaceId) -> (r: SurfaceRecord)
        requires
            id < self@.len(),
        ensures
            r == self@[id as int],
    {
        self.records[id]
    }

    /// The buffer that surface `id` currently shows, if any.
    pub fn committed_buffer(&self, id: SurfaceId) -> (r: Option<BufferId>)
        requires
            id < self@.len(),
        ensures
            r == self@[id as int].committed,
    {
        self.records[id].committed
    }

    /// Whether `id` is effectively synchronised, looking at most `fuel` levels up.
    pub fn sync_held_within(&self, id: SurfaceId, fuel: usize) -> (r: bool)
        requires
            self.wf(),
            id < self@.len(),
        ensures
            r == sync_held(self@, id as int, fuel as nat),
        decreases fuel,
    {
        if fuel == 0 {
            return false;
        }
        match self.records[id].parent {
            None => false,
            Some(p) => {
                match self.records[id].sync {
                    SyncMode::Synchronized => true,
                    SyncMode::Desynchronized => self.sync_held_within(p, fuel - 1),
                }
            },
        }
    }

    /// Whether `id` is a subsurface whose commits wait for its parent.
    pub fn is_sync_subsurface(&self, id: SurfaceId) -> (r: bool)
        requires
            self.wf(),
            id < self@.len(),
        ensures
            r == sync_held(self@, id as int, MAX_TREE_DEPTH as nat),
    {
        self.sync_held_within(id, MAX_TREE_DEPTH)
    }

    fn sync_root_within(&self, id: SurfaceId, fuel: usize) -> (r: SurfaceId)
        requires
            self.wf(),
            id < self@.len(),
        ensures
            r == sync_root(self@, id as int, fuel as nat),
            r < self@.len(),
        decreases fuel,
    {
        if fuel > 0 && self.sync_held_within(id, fuel) {
            let p = self.records[id].parent.unwrap();
            self.sync_root_within(p, fuel - 1)
        } else {
            id
        }
    }

    fn tree_root_within(&self, id: SurfaceId, fuel: usize) -> (r: SurfaceId)
        requires
            self.wf(),
            id < self@.len(),
        ensures
            r == tree_root(self@, id as int, fuel as nat),
            r < self@.len(),
        decreases fuel,
    {
        if fuel == 0 {
            return id;
        }
        match self.records[id].parent {
            None => id,
            Some(p) => self.tree_root_within(p, fuel - 1),
        }
    }

    /// The topmost ancestor of `id`, walking at most `MAX_TREE_DEPTH` parent links.
    pub fn root_of(&self, id: SurfaceId) -> (r: SurfaceId)
        requires
            self.wf(),
            id < self@.len(),
        ensures
            r == tree_root(self@, id as int, MAX_TREE_DEPTH as nat),
            r < self@.len(),
    {
        self.tree_root_within(id, MAX_TREE_DEPTH)
    }

    fn is_ancestor_within(&self, a: SurfaceId, x: SurfaceId, fuel: usize) -> (r: bool)
        requires
            self.wf(),
            x < self@.len(),
        ensures
            r == ancestor_or_self(self@, a as int, x as int, fuel as nat),
        decreases fuel,
    {
        if x == a {
            return true;
        }
        if fuel == 0 {
            return false;
        }
        match self.records[x].parent {
            None => false,
            Some(p) => self.is_ancestor_within(a, p, fuel - 1),
        }
    }

    /// Records that the client attached `buffer` (or detached, `None`) to `id`.
    pub fn attach_pending(&mut self, id: SurfaceId, buffer: Option<BufferId>)
        requires
            old(self).wf(),
            old(self).is_live(id),
        ensures
            final(self).wf(),
            final(self)@ == old(self)@.update(id as int, SurfaceRecord { pending: Some(buffer), ..old(self)@[id as int] }),
    {
        let mut rec = self.records[id];
        rec.pending = Some(buffer);
        self.records.set(id, rec);
    }

    /// Gives `id` a role other than subsurface.
    pub fn assign_role(&mut self, id: SurfaceId, role: Role) -> (r: Result<(), RoleError>)
        requires
            old(self).wf(),
            old(self).is_live(id),
            role != Role::Subsurface,
            role != Role::Unassigned,
        ensures
            final(self).wf(),
            old(self)@[id as int].role != Role::Unassigned ==> r == Err::<(), RoleError>(RoleError::AlreadyAssigned) && final(self)@ == old(self)@,
            old(self)@[id as int].role == Role::Unassigned ==> r is Ok && final(self)@ == old(self)@.update(id as int, SurfaceRecord { role, ..old(self)@[id as int] }),
    {
        if self.records[id].role != Role::Unassigned {
            return Err(RoleError::AlreadyAssigned);
        }
        let mut rec = self.records[id];
        rec.role = role;
        self.records.set(id, rec);
        Ok(())
    }

    /// Makes `id` a synchronised subsurface of `parent`.
    pub fn make_subsurface(&mut self, id: SurfaceId, parent: SurfaceId) -> (r: Result<(), RoleError>)
        requires
            old(self).wf(),
            old(self).is_live(id),
            old(self).is_live(parent),
        ensures
            final(self).wf(),
            old(self)@[id as int].role != Role::Unassigned ==> r == Err::<(), RoleError>(RoleError::AlreadyAssigned) && final(self)@ == old(self)@,
            old(self)@[id as int].role == Role::Unassigned && ancestor_or_self(old(self)@, id as int, parent as int, MAX_TREE_DEPTH as nat)
                ==> r == Err::<(), RoleError>(RoleError::BadParent) && final(self)@ == old(self)@,
            old(self)@[id as int].role == Role::Unassigned && !ancestor_or_self(old(self)@, id as int, parent as int, MAX_TREE_DEPTH as nat)
                ==> r is Ok && final(self)@ == old(self)@.update(id as int, SurfaceRecord {
                    role: Role::Subsurface,
                    parent: Some(parent),
                    sync: SyncMode::Synchronized,
                    ..old(self)@[id as int]
                }),
    {
        if self.records[id].role != Role::Unassigned {
            return Err(RoleError::AlreadyAssigned);
        }
        if self.is_ancestor_within(id, parent, MAX_TREE_DEPTH) {
            return Err(RoleError::BadParent);
        }
        let mut rec = self.records[id];
        rec.role = Role::Subsurface;
        rec.parent = Some(parent);
        rec.sync = SyncMode::Synchronized;
        self.records.set(id, rec);
        Ok(())
    }

    /// Sets the synchronisation mode of `id`.
    pub fn set_sync(&mut self, id: SurfaceId, mode: SyncMode)
        requires
            old(self).wf(),
            old(self).is_live(id),
        ensures
            final(self).wf(),
            final(self)@ == old(self)@.update(id as int, SurfaceRecord { sync: mode, ..old(self)@[id as int] }),
    {
        let mut rec = self.records[id];
        rec.sync = mode;
        self.records.set(id, rec);
    }

    /// Destroys `id`: it is no longer alive and shows nothing.
    pub fn destroy(&mut self, id: SurfaceId)
        requires
            old(self).wf(),
            old(self).is_live(id),
        ensures
            final(self).wf(),
            final(self)@ == destroyed(old(self)@, id),
    {
        let mut rec = self.records[id];
        rec.alive = false;
        rec.pending = None;
        rec.cached = None;
        rec.committed = None;
        self.records.set(id, rec);
    }

    /// Applies a client commit on `id`. A synchronised subsurface only caches
    /// its state; any other surface applies its own state and the state
    /// cached by every synchronised descendant that waits on it.
    pub fn commit(&mut self, id: SurfaceId)
        requires
            old(self).wf(),
            old(self).is_live(id),
        ensures
            final(self).wf(),
            final(self)@ == after_commit(old(self)@, id as int),
    {
        let ghost s = self@;
        if self.is_sync_subsurface(id) {
            let mut rec = self.records[id];
            if rec.pending.is_some() {
                rec.cached = rec.pending;
            }
            rec.pending = None;
            self.records.set(id, rec);
            return;
        }
        let n = self.records.len();
        let mut out: Vec<SurfaceRecord> = Vec::new();
        let mut i: usize = 0;
        while i < n
            invariant
                self.wf(),
                self@ == s,
                n == s.len(),
                i <= n,
                id < n,
                !sync_held(s, id as int, MAX_TREE_DEPTH as nat),
                out@ =~= after_commit(s, id as int).take(i as int),
            decreases n - i,
        {
            let rec = self.records[i];
            let mut next = rec;
            if i == id {
                if let Some(b) = rec.pending {
                    next.committed = b;
                }
                next.pending = None;
            } else if rec.cached.is_some() && self.is_sync_subsurface(i) && self.sync_root_within(i, MAX_TREE_DEPTH) == id {
                next.committed = rec.cached.unwrap();
                next.cached = None;
            }
            assert(next == after_commit(s, id as int)[i as int]);
            out.push(next);
            i = i + 1;
        }
        assert(out@ =~= after_commit(s, id as int));
        self.records = out;
    }
}

} // verus!
