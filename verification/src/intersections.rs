//! Intersections: ray parameters paired with the shape they hit, kept
//! sorted ascending by the parameter.
//!
//! A shape is named by its index into the owning world's object list, so
//! an intersection is a plain value with no lifetime coupling.

use vstd::prelude::*;

use crate::fx::Fx;

verus! {

/// The intersection of a ray and a shape: the ray parameter `t` and the
/// index of the shape in the world's object list.
#[derive(Clone, Copy, Debug, PartialEq, Eq, Structural)]
pub struct Intersection {
    pub t: Fx,
    pub object: usize,
}

impl Intersection {
    pub fn new(t: Fx, object: usize) -> (r: Intersection)
        ensures
            r == (Intersection { t, object }),
    {
        Intersection { t, object }
    }

    pub fn t(&self) -> (r: Fx)
        ensures
            r == self.t,
    {
        self.t
    }

    pub fn object(&self) -> (r: usize)
        ensures
            r == self.object,
    {
        self.object
    }
}

/// Ascending by `t`.
pub open spec fn spec_sorted(s: Seq<Intersection>) -> bool {
    forall|i: int, j: int|
        0 <= i < j < s.len() ==> #[trigger] s[i].t.rv() <= #[trigger] s[j].t.rv()
}

/// Stable insertion into a sorted sequence: the new element goes before
/// the first strictly larger one.
pub open spec fn spec_insert_sorted(s: Seq<Intersection>, x: Intersection) -> Seq<Intersection>
    decreases s.len(),
{
    if s.len() == 0 {
        seq![x]
    } else if x.t.rv() < s[0].t.rv() {
        seq![x] + s
    } else {
        seq![s[0]] + spec_insert_sorted(s.subrange(1, s.len() as int), x)
    }
}

/// Stable insertion sort.
pub open spec fn spec_sort(s: Seq<Intersection>) -> Seq<Intersection>
    decreases s.len(),
{
    if s.len() == 0 {
        Seq::empty()
    } else {
        spec_insert_sorted(spec_sort(s.drop_last()), s.last())
    }
}

/// The first intersection with a strictly positive parameter.
pub open spec fn spec_hit(s: Seq<Intersection>) -> Option<Intersection>
    decreases s.len(),
{
    if s.len() == 0 {
        None
    } else if s[0].t.rv() > 0 {
        Some(s[0])
    } else {
        spec_hit(s.subrange(1, s.len() as int))
    }
}

/// Stable insertion only adds the inserted element: a property of every
/// element and of the new one holds of every element afterwards.
pub proof fn lemma_insert_sorted_all(
    s: Seq<Intersection>,
    x: Intersection,
    p: spec_fn(Intersection) -> bool,
)
    requires
        forall|i: int| 0 <= i < s.len() ==> #[trigger] p(s[i]),
        p(x),
    ensures
        forall|i: int|
            0 <= i < spec_insert_sorted(s, x).len() ==> #[trigger] p(spec_insert_sorted(s, x)[i]),
    decreases s.len(),
{
    if s.len() == 0 {
    } else if x.t.rv() < s[0].t.rv() {
    } else {
        let tail = s.subrange(1, s.len() as int);
        assert(forall|i: int| 0 <= i < tail.len() ==> #[trigger] p(tail[i])) by {
            assert(forall|i: int| 0 <= i < tail.len() ==> #[trigger] tail[i] == s[i + 1]);
        }
        lemma_insert_sorted_all(tail, x, p);
        let r = seq![s[0]] + spec_insert_sorted(tail, x);
        assert(forall|i: int| 1 <= i < r.len() ==> #[trigger] r[i] == spec_insert_sorted(tail, x)[
            i - 1
        ]);
    }
}

/// Sorting keeps every element: a property of every element of the
/// input holds of every element of the output.
pub proof fn lemma_sort_all(s: Seq<Intersection>, p: spec_fn(Intersection) -> bool)
    requires
        forall|i: int| 0 <= i < s.len() ==> #[trigger] p(s[i]),
    ensures
        forall|i: int| 0 <= i < spec_sort(s).len() ==> #[trigger] p(spec_sort(s)[i]),
    decreases s.len(),
{
    if s.len() > 0 {
        let front = s.drop_last();
        assert(forall|i: int| 0 <= i < front.len() ==> #[trigger] p(front[i])) by {
            assert(forall|i: int| 0 <= i < front.len() ==> #[trigger] front[i] == s[i]);
        }
        lemma_sort_all(front, p);
        lemma_insert_sorted_all(spec_sort(front), s.last(), p);
    }
}

/// Inserting at the position scanned by the loop is the stable insertion.
proof fn lemma_insert_sorted_at(s: Seq<Intersection>, x: Intersection, idx: int)
    requires
        0 <= idx <= s.len(),
        forall|k: int| 0 <= k < idx ==> !(x.t.rv() < #[trigger] s[k].t.rv()),
        idx < s.len() ==> x.t.rv() < s[idx].t.rv(),
    ensures
        spec_insert_sorted(s, x) == s.insert(idx, x),
    decreases s.len(),
{
    if s.len() == 0 {
        assert(spec_insert_sorted(s, x) =~= s.insert(0, x));
    } else if idx == 0 {
        assert(x.t.rv() < s[0].t.rv());
        assert(seq![x] + s =~= s.insert(0, x));
    } else {
        assert(!(x.t.rv() < s[0].t.rv()));
        let tail = s.subrange(1, s.len() as int);
        assert(forall|k: int| 0 <= k < idx - 1 ==> !(x.t.rv() < #[trigger] tail[k].t.rv())) by {
            assert(forall|k: int| 0 <= k < idx - 1 ==> #[trigger] tail[k] == s[k + 1]);
        }
        lemma_insert_sorted_at(tail, x, idx - 1);
        assert(seq![s[0]] + tail.insert(idx - 1, x) =~= s.insert(idx, x));
    }
}

/// Insertion at the scanned position keeps the sequence sorted.
proof fn lemma_insert_keeps_sorted(s: Seq<Intersection>, x: Intersection, idx: int)
    requires
        spec_sorted(s),
        0 <= idx <= s.len(),
        forall|k: int| 0 <= k < idx ==> !(x.t.rv() < #[trigger] s[k].t.rv()),
        idx < s.len() ==> x.t.rv() < s[idx].t.rv(),
    ensures
        spec_sorted(s.insert(idx, x)),
{
    let r = s.insert(idx, x);
    assert forall|i: int, j: int|
        0 <= i < j < r.len() implies #[trigger] r[i].t.rv() <= #[trigger] r[j].t.rv() by {
        if i < idx {
            assert(r[i] == s[i]);
        } else if i == idx {
            assert(r[i] == x);
        } else {
            assert(r[i] == s[i - 1]);
        }
        if j < idx {
            assert(r[j] == s[j]);
        } else if j == idx {
            assert(r[j] == x);
        } else {
            assert(r[j] == s[j - 1]);
        }
    }
}

/// Inserts `x` before the first strictly larger element.
fn insert_sorted_vec(acc: &mut Vec<Intersection>, x: Intersection)
    requires
        spec_sorted(old(acc)@),
    ensures
        final(acc)@ == spec_insert_sorted(old(acc)@, x),
        spec_sorted(final(acc)@),
{
    let mut idx: usize = 0;
    while idx < acc.len() && acc[idx].t.raw <= x.t.raw
        invariant
            idx <= acc.len(),
            forall|k: int| 0 <= k < idx ==> !(x.t.rv() < #[trigger] acc@[k].t.rv()),
            *acc == *old(acc),
        decreases acc.len() - idx,
    {
        idx = idx + 1;
    }
    proof {
        lemma_insert_sorted_at(acc@, x, idx as int);
        lemma_insert_keeps_sorted(acc@, x, idx as int);
    }
    acc.insert(idx, x);
}

/// Sorts by repeated stable insertion.
fn sort_intersections(v: &Vec<Intersection>) -> (r: Vec<Intersection>)
    ensures
        r@ == spec_sort(v@),
        spec_sorted(r@),
{
    let mut acc: Vec<Intersection> = Vec::new();
    let mut i: usize = 0;
    while i < v.len()
        invariant
            i <= v.len(),
            acc@ == spec_sort(v@.subrange(0, i as int)),
            spec_sorted(acc@),
        decreases v.len() - i,
    {
        let x = v[i];
        insert_sorted_vec(&mut acc, x);
        proof {
            let prefix = v@.subrange(0, i as int);
            let prefix1 = v@.subrange(0, i as int + 1);
            assert(prefix1.drop_last() =~= prefix);
            assert(prefix1.last() == x);
        }
        i = i + 1;
    }
    proof {
        assert(v@.subrange(0, v@.len() as int) =~= v@);
    }
    acc
}

/// A list of intersections, always sorted ascending by `t`.
#[derive(Debug)]
pub struct Intersections {
    items: Vec<Intersection>,
}

impl View for Intersections {
    type V = Seq<Intersection>;

    closed spec fn view(&self) -> Seq<Intersection> {
        self.items@
    }
}

impl Intersections {
    /// The list is sorted at all times.
    pub open spec fn wf(self) -> bool {
        spec_sorted(self@)
    }

    /// Builds the list by sorting what is given.
    pub fn new(items: Vec<Intersection>) -> (r: Intersections)
        ensures
            r@ == spec_sort(items@),
            r.wf(),
    {
        Intersections { items: sort_intersections(&items) }
    }

    /// The empty list.
    pub fn with_capacity(capacity: usize) -> (r: Intersections)
        ensures
            r@ == Seq::<Intersection>::empty(),
            r.wf(),
    {
        Intersections { items: Vec::with_capacity(capacity) }
    }

    pub fn len(&self) -> (r: usize)
        ensures
            r == self@.len(),
    {
        self.items.len()
    }

    pub fn is_empty(&self) -> (r: bool)
        ensures
            r == (self@.len() == 0),
    {
        self.items.len() == 0
    }

    pub fn get(&self, idx: usize) -> (r: Intersection)
        requires
            idx < self@.len(),
        ensures
            r == self@[idx as int],
    {
        self.items[idx]
    }

    /// Merges another list in, keeping the whole sorted.
    pub fn append(&mut self, other: Intersections) -> (res: ())
        ensures
            final(self)@ == spec_sort(old(self)@ + other@),
            final(self).wf(),
    {
        let mut merged = self.items.clone();
        let mut i: usize = 0;
        let ghost others = other@;
        while i < other.items.len()
            invariant
                i <= other.items.len(),
                other@ == others,
                merged@ == old(self)@ + others.subrange(0, i as int),
            decreases other.items.len() - i,
        {
            merged.push(other.items[i]);
            proof {
                assert(old(self)@ + others.subrange(0, i as int + 1) =~= (old(self)@
                    + others.subrange(0, i as int)).push(others[i as int]));
            }
            i = i + 1;
        }
        proof {
            assert(others.subrange(0, others.len() as int) =~= others);
        }
        self.items = sort_intersections(&merged);
    }

    /// The hit: the first intersection along the ray, that is the one
    /// with the smallest strictly positive `t`; nothing when every `t`
    /// is at or behind the origin.
    pub fn hit(&self) -> (r: Option<Intersection>)
        requires
            self.wf(),
        ensures
            r == spec_hit(self@),
            match r {
                Some(h) => h.t.rv() > 0 && self@.contains(h) && forall|j: int|
                    0 <= j < self@.len() && #[trigger] self@[j].t.rv() > 0 ==> h.t.rv()
                        <= self@[j].t.rv(),
                None => forall|j: int| 0 <= j < self@.len() ==> #[trigger] self@[j].t.rv() <= 0,
            },
    {
        let mut i: usize = 0;
        proof {
            assert(self@.subrange(0, self@.len() as int) =~= self@);
        }
        while i < self.items.len()
            invariant
                i <= self@.len(),
                self.wf(),
                forall|k: int| 0 <= k < i ==> #[trigger] self@[k].t.rv() <= 0,
                spec_hit(self@) == spec_hit(self@.subrange(i as int, self@.len() as int)),
            decreases self@.len() - i,
        {
            let x = self.items[i];
            if x.t.raw > 0 {
                proof {
                    let rest = self@.subrange(i as int, self@.len() as int);
                    assert(rest[0] == self@[i as int]);
                    assert(spec_hit(rest) == Some(self@[i as int]));
                    assert(self@.contains(self@[i as int]));
                }
                return Some(x);
            }
            proof {
                let rest = self@.subrange(i as int, self@.len() as int);
                assert(rest[0] == self@[i as int]);
                assert(rest.subrange(1, rest.len() as int) =~= self@.subrange(
                    i as int + 1,
                    self@.len() as int,
                ));
            }
            i = i + 1;
        }
        proof {
            assert(self@.subrange(self@.len() as int, self@.len() as int) =~= Seq::<
                Intersection,
            >::empty());
        }
        None
    }
}

} // verus!
