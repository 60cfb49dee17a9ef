//! Toplevel windows and the space that stacks them on outputs.
use vstd::prelude::*;

use crate::surface::{SurfaceId, SurfaceStore};

verus! {

broadcast use vstd::seq_lib::group_seq_properties;

/// A toplevel window: its root surface and whether the initial configure
/// has been sent to it.
#[derive(Clone, Copy, Debug, PartialEq, Eq, Structural)]
pub struct WindowElement {
    pub surface: SurfaceId,
    pub initial_configure_sent: bool,
}

/// One mapped element with the output it is shown on and its position there.
#[derive(Clone, Copy, Debug, PartialEq, Eq, Structural)]
pub struct SpaceEntry {
    pub element: SurfaceId,
    pub output: usize,
    pub x: i32,
    pub y: i32,
}

/// Mapped elements, front to back, and the element that is activated.
pub struct Space {
    pub entries: Vec<SpaceEntry>,
    pub active: Option<SurfaceId>,
}

pub open spec fn other_than(id: SurfaceId) -> spec_fn(SpaceEntry) -> bool {
    |e: SpaceEntry| e.element != id
}

pub open spec fn on_output(output: usize) -> spec_fn(SpaceEntry) -> bool {
    |e: SpaceEntry| e.output == output
}

pub open spec fn element_of() -> spec_fn(SpaceEntry) -> SurfaceId {
    |e: SpaceEntry| e.element
}

/// No element appears twice.
pub open spec fn unique_elements(s: Seq<SpaceEntry>) -> bool {
    forall|i: int, j: int| 0 <= i < j < s.len() ==> s[i].element != s[j].element
}

/// The stacking order after mapping `e`: in front of every other element.
pub open spec fn mapped_front(s: Seq<SpaceEntry>, e: SpaceEntry) -> Seq<SpaceEntry> {
    seq![e] + s.filter(other_than(e.element))
}

/// The stacking order after unmapping `id`.
pub open spec fn unmapped(s: Seq<SpaceEntry>, id: SurfaceId) -> Seq<SpaceEntry> {
    s.filter(other_than(id))
}

/// Elements shown on `output`, front to back.
pub open spec fn front_to_back(s: Seq<SpaceEntry>, output: usize) -> Seq<SurfaceId> {
    s.filter(on_output(output)).map_values(element_of())
}

pub proof fn lemma_filter_keeps_unique(s: Seq<SpaceEntry>, p: spec_fn(SpaceEntry) -> bool)
    requires
        unique_elements(s),
    ensures
        unique_elements(s.filter(p)),
    decreases s.len(),
{
    reveal(Seq::filter);
    if s.len() > 0 {
        let d = s.drop_last();
        assert(unique_elements(d));
        lemma_filter_keeps_unique(d, p);
        if p(s.last()) {
            let f = d.filter(p);
            assert forall|i: int| 0 <= i < f.len() implies f[i].element != s.last().element by {
                d.lemma_filter_contains_rev(p, f[i]);
                assert(f.contains(f[i]));
                let k = choose|k: int| 0 <= k < d.len() && d[k] == f[i];
                assert(s[k] == d[k]);
            }
        }
    }
}

proof fn lemma_filter_filter(s: Seq<SpaceEntry>, p: spec_fn(SpaceEntry) -> bool, q: spec_fn(SpaceEntry) -> bool)
    ensures
        s.filter(p).filter(q) == s.filter(|e: SpaceEntry| p(e) && q(e)),
    decreases s.len(),
{
    reveal(Seq::filter);
    if s.len() > 0 {
        lemma_filter_filter(s.drop_last(), p, q);
        let pq = |e: SpaceEntry| p(e) && q(e);
        if p(s.last()) {
            s.drop_last().filter(p).lemma_filter_push(s.last(), q);
        }
    }
}

proof fn lemma_filter_all(s: Seq<SpaceEntry>, p: spec_fn(SpaceEntry) -> bool)
    requires
        forall|i: int| 0 <= i < s.len() ==> p(#[trigger] s[i]),
    ensures
        s.filter(p) == s,
    decreases s.len(),
{
    reveal(Seq::filter);
    if s.len() > 0 {
        lemma_filter_all(s.drop_last(), p);
        assert(s.drop_last().push(s.last()) =~= s);
    }
}

/// Stacking order is not restored by re-mapping: mapping `a`, then `b`,
/// unmapping `a` and mapping `a` again leaves `a` in front of `b`, and every
/// other element behind them in the order it had.
pub proof fn lemma_remap_goes_front(s: Seq<SpaceEntry>, a: SpaceEntry, b: SpaceEntry)
    requires
        a.element != b.element,
    ensures
        mapped_front(unmapped(mapped_front(mapped_front(s, a), b), a.element), a)
            == seq![a, b] + s.filter(|e: SpaceEntry| e.element != a.element && e.element != b.element),
{
    let pa = other_than(a.element);
    let pb = other_than(b.element);
    let rest = |e: SpaceEntry| e.element != a.element && e.element != b.element;
    let s1 = mapped_front(s, a);
    let s2 = mapped_front(s1, b);
    let s3 = unmapped(s2, a.element);
    // s2 == [b] + ([a] + s.filter(pa)).filter(pb)
    Seq::filter_distributes_over_add(seq![a], s.filter(pa), pb);
    reveal(Seq::filter);
    assert(seq![a].filter(pb) =~= seq![a]) by {
        assert(seq![a].drop_last() =~= Seq::<SpaceEntry>::empty());
    }
    lemma_filter_filter(s, pa, pb);
    let fab = s.filter(|e: SpaceEntry| pa(e) && pb(e));
    assert(s2 == seq![b] + (seq![a] + fab));
    // s3 == [b] + fab, since nothing in fab is a
    assert(s2 =~= seq![b, a] + fab);
    Seq::filter_distributes_over_add(seq![b, a], fab, pa);
    assert(seq![b, a].filter(pa) =~= seq![b]) by {
        assert(seq![b, a].drop_last() =~= seq![b]);
        assert(seq![b].drop_last() =~= Seq::<SpaceEntry>::empty());
    }
    assert forall|i: int| 0 <= i < fab.len() implies pa(#[trigger] fab[i]) by {
        s.lemma_filter_pred(|e: SpaceEntry| pa(e) && pb(e), i);
    }
    lemma_filter_all(fab, pa);
    assert(s3 == seq![b] + fab);
    // mapping a again
    Seq::filter_distributes_over_add(seq![b], fab, pa);
    assert(seq![b].filter(pa) =~= seq![b]) by {
        assert(seq![b].drop_last() =~= Seq::<SpaceEntry>::empty());
    }
    assert(fab =~= s.filter(rest)) by {
        assert((|e: SpaceEntry| pa(e) && pb(e)) =~= rest);
    }
    assert(mapped_front(s3, a) =~= seq![a, b] + s.filter(rest));
}

impl Space {
    pub open spec fn wf(&self) -> bool {
        unique_elements(self.entries@)
    }

    pub fn new() -> (r: Space)
        ensures
            r.wf(),
            r.entries@.len() == 0,
            r.active is None,
    {
        Space { entries: Vec::new(), active: None }
    }

    /// Whether `element` is mapped.
    pub fn contains(&self, element: SurfaceId) -> (r: bool)
        ensures
            r == exists|i: int| 0 <= i < self.entries@.len() && (#[trigger] self.entries@[i]).element == element,
    {
        let mut i: usize = 0;
        while i < self.entries.len()
            invariant
                i <= self.entries@.len(),
                forall|k: int| 0 <= k < i ==> (#[trigger] self.entries@[k]).element != element,
            decreases self.entries@.len() - i,
        {
            if self.entries[i].element == element {
                return true;
            }
            i = i + 1;
        }
        false
    }

    /// Maps `element` at `(x, y)` on `output`, in front of every other
    /// element; an element already mapped moves there.
    pub fn map_element(&mut self, element: SurfaceId, output: usize, x: i32, y: i32, activate: bool)
        requires
            old(self).wf(),
        ensures
            final(self).wf(),
            final(self).entries@ == mapped_front(old(self).entries@, SpaceEntry { element, output, x, y }),
            final(self).active == if activate { Some(element) } else { old(self).active },
    {
        let e = SpaceEntry { element, output, x, y };
        let ghost s = self.entries@;
        let ghost p = other_than(element);
        let mut out: Vec<SpaceEntry> = Vec::new();
        out.push(e);
        let mut i: usize = 0;
        while i < self.entries.len()
            invariant
                self.entries@ == s,
                i <= s.len(),
                p == other_than(element),
                out@ == seq![e] + s.take(i as int).filter(p),
            decreases s.len() - i,
        {
            let cur = self.entries[i];
            proof {
                assert(s.take(i + 1) =~= s.take(i as int).push(cur));
                s.take(i as int).lemma_filter_push(cur, p);
            }
            if cur.element != element {
                out.push(cur);
            }
            assert(out@ =~= seq![e] + s.take(i + 1).filter(p));
            i = i + 1;
        }
        proof {
            assert(s.take(s.len() as int) =~= s);
            lemma_filter_keeps_unique(s, p);
            let f = s.filter(p);
            assert forall|k: int| 0 <= k < f.len() implies f[k].element != element by {
                s.lemma_filter_pred(p, k);
            }
            assert(unique_elements(out@));
        }
        self.entries = out;
        if activate {
            self.active = Some(element);
        }
    }

    /// Removes `element` from the space; it is no longer activated.
    pub fn unmap_elem(&mut self, element: SurfaceId)
        requires
            old(self).wf(),
        ensures
            final(self).wf(),
            final(self).entries@ == unmapped(old(self).entries@, element),
            final(self).active == if old(self).active == Some(element) { None } else { old(self).active },
    {
        let ghost s = self.entries@;
        let ghost p = other_than(element);
        let mut out: Vec<SpaceEntry> = Vec::new();
        let mut i: usize = 0;
        while i < self.entries.len()
            invariant
                self.entries@ == s,
                i <= s.len(),
                p == other_than(element),
                out@ == s.take(i as int).filter(p),
            decreases s.len() - i,
        {
            let cur = self.entries[i];
            proof {
                assert(s.take(i + 1) =~= s.take(i as int).push(cur));
                s.take(i as int).lemma_filter_push(cur, p);
            }
            if cur.element != element {
                out.push(cur);
            }
            i = i + 1;
        }
        proof {
            assert(s.take(s.len() as int) =~= s);
            lemma_filter_keeps_unique(s, p);
        }
        self.entries = out;
        if self.active == Some(element) {
            self.active = None;
        }
    }

    /// Elements shown on `output`, front to back (the order for hit-testing).
    pub fn elements_front_to_back(&self, output: usize) -> (r: Vec<SurfaceId>)
        ensures
            r@ == front_to_back(self.entries@, output),
    {
        let ghost s = self.entries@;
        let ghost p = on_output(output);
        let mut out: Vec<SurfaceId> = Vec::new();
        let mut i: usize = 0;
        while i < self.entries.len()
            invariant
                self.entries@ == s,
                i <= s.len(),
                p == on_output(output),
                out@ == s.take(i as int).filter(p).map_values(element_of()),
            decreases s.len() - i,
        {
            let cur = self.entries[i];
            proof {
                assert(s.take(i + 1) =~= s.take(i as int).push(cur));
                s.take(i as int).lemma_filter_push(cur, p);
                assert(s.take(i as int).filter(p).push(cur).map_values(element_of())
                    =~= s.take(i as int).filter(p).map_values(element_of()).push(cur.element));
            }
            if cur.output == output {
                out.push(cur.element);
            }
            i = i + 1;
        }
        proof {
            assert(s.take(s.len() as int) =~= s);
        }
        out
    }

    /// Elements shown on `output`, back to front (the order for rendering).
    pub fn elements_back_to_front(&self, output: usize) -> (r: Vec<SurfaceId>)
        ensures
            r@.len() == front_to_back(self.entries@, output).len(),
            forall|k: int| 0 <= k < r@.len() ==> #[trigger] r@[k] == front_to_back(self.entries@, output)[r@.len() - 1 - k],
    {
        let front = self.elements_front_to_back(output);
        let mut out: Vec<SurfaceId> = Vec::new();
        let mut i: usize = front.len();
        while i > 0
            invariant
                i <= front@.len(),
                out@.len() == front@.len() - i,
                forall|k: int| 0 <= k < out@.len() ==> #[trigger] out@[k] == front@[front@.len() - 1 - k],
            decreases i,
        {
            i = i - 1;
            out.push(front[i]);
        }
        out
    }

    /// Unmaps every element whose surface is no longer alive.
    pub fn refresh(&mut self, store: &SurfaceStore)
        requires
            old(self).wf(),
        ensures
            final(self).wf(),
            final(self).entries@ == old(self).entries@.filter(|e: SpaceEntry| store.is_live(e.element)),
            final(self).active == old(self).active,
    {
        let ghost s = self.entries@;
        let ghost p = |e: SpaceEntry| store.is_live(e.element);
        let mut out: Vec<SpaceEntry> = Vec::new();
        let mut i: usize = 0;
        while i < self.entries.len()
            invariant
                self.entries@ == s,
                i <= s.len(),
                p == (|e: SpaceEntry| store.is_live(e.element)),
                out@ == s.take(i as int).filter(p),
            decreases s.len() - i,
        {
            let cur = self.entries[i];
            proof {
                assert(s.take(i + 1) =~= s.take(i as int).push(cur));
                s.take(i as int).lemma_filter_push(cur, p);
            }
            if store.is_alive(cur.element) {
                out.push(cur);
            }
            i = i + 1;
        }
        proof {
            assert(s.take(s.len() as int) =~= s);
            lemma_filter_keeps_unique(s, p);
        }
        self.entries = out;
    }
}

} // verus!
