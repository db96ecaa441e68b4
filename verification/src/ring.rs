//! An ordered collection with a single optional focused position, supporting
//! cyclic (wrap-around) navigation and adjacent-swap dragging.

use vstd::prelude::*;

verus! {

/// The two ways focus can move around a ring.
#[derive(Clone, Copy, Debug, PartialEq, Eq, Structural)]
pub enum Direction {
    Forward,
    Backward,
}

/// The index reached by moving one step from `f` around a ring of `len`
/// elements, wrapping at both ends.
pub open spec fn step_index(f: int, len: int, d: Direction) -> int {
    match d {
        Direction::Forward => if f + 1 == len {
            0
        } else {
            f + 1
        },
        Direction::Backward => if f == 0 {
            len - 1
        } else {
            f - 1
        },
    }
}

/// The index reached by `n` focus steps in direction `d` from `f`.
pub open spec fn step_index_n(f: int, len: int, d: Direction, n: nat) -> int
    decreases n,
{
    if n == 0 {
        f
    } else {
        step_index(step_index_n(f, len, d, (n - 1) as nat), len, d)
    }
}

/// Where focus lands after the element at `removed` has been taken out of a
/// ring whose focus was at `f` and whose length is now `new_len`: focus stays
/// with the same logical element when the removal happened before it, stays at
/// the same position (clamped to the new end) when the focused element itself
/// left, and goes away only when the ring is now empty.
pub open spec fn focus_after_remove(f: int, removed: int, new_len: int) -> Option<int> {
    if new_len == 0 {
        None
    } else if removed < f {
        Some(f - 1)
    } else if f < new_len {
        Some(f)
    } else {
        Some(new_len - 1)
    }
}

/// The contents of a ring after its focused element (at `f`) has been dragged
/// one step in direction `d`: the element leaves its slot and re-enters at the
/// neighbouring position, which swaps it with the neighbour in the middle of
/// the ring and rotates it to the opposite end at a boundary.
pub open spec fn dragged<T>(s: Seq<T>, f: int, d: Direction) -> Seq<T>
    recommends
        0 <= f < s.len(),
        s.len() >= 2,
{
    s.remove(f).insert(step_index(f, s.len() as int, d), s[f])
}

proof fn lemma_step_index_n_forward_unrolled(f: int, len: int, n: nat)
    requires
        0 <= f < len,
        n <= len,
    ensures
        step_index_n(f, len, Direction::Forward, n) == if f + n < len {
            f + n
        } else {
            f + n - len
        },
    decreases n,
{
    if n > 0 {
        lemma_step_index_n_forward_unrolled(f, len, (n - 1) as nat);
    }
}

/// Law: advancing focus forward one step at a time, `len` times, around a ring
/// of `len` elements brings focus back to the position (and so to the element)
/// it started from.
pub proof fn lemma_cycle_focus_round_trip(f: int, len: int)
    requires
        0 <= f < len,
    ensures
        step_index_n(f, len, Direction::Forward, len as nat) == f,
{
    lemma_step_index_n_forward_unrolled(f, len, len as nat);
}

/// Law: dragging the focused element keeps exactly the same collection of
/// elements, as a multiset, and the same length; only the arrangement changes.
pub proof fn lemma_dragged_preserves_multiset<T>(s: Seq<T>, f: int, d: Direction)
    requires
        0 <= f < s.len(),
        s.len() >= 2,
    ensures
        dragged(s, f, d).len() == s.len(),
        dragged(s, f, d).to_multiset() == s.to_multiset(),
{
    broadcast use vstd::seq_lib::group_to_multiset_ensures;

    assert(s.contains(s[f]));
    assert(s.to_multiset().count(s[f]) > 0);
    assert(s.remove(f).to_multiset() == s.to_multiset().remove(s[f]));
    assert(s.to_multiset().remove(s[f]).insert(s[f]) =~= s.to_multiset());
}

/// A generic ordered container with zero or one focused position. The focus
/// is `None` exactly when the container is empty; otherwise it is a valid
/// index. Reused for both window identifiers and layout descriptors.
#[derive(Clone, Debug)]
pub struct Ring<T> {
    elements: Vec<T>,
    focused: Option<usize>,
}

impl<T> View for Ring<T> {
    type V = Seq<T>;

    closed spec fn view(&self) -> Seq<T> {
        self.elements@
    }
}

impl<T> Ring<T> {
    /// The focus position, if any.
    pub closed spec fn focus(&self) -> Option<int> {
        match self.focused {
            Some(i) => Some(i as int),
            None => None,
        }
    }

    /// Structural invariant: focus is absent exactly on an empty ring, and
    /// otherwise lies inside the sequence.
    pub open spec fn wf(&self) -> bool {
        match self.focus() {
            None => self@.len() == 0,
            Some(i) => 0 <= i < self@.len(),
        }
    }

    /// The focused element, if any.
    pub open spec fn focused_spec(&self) -> Option<T> {
        match self.focus() {
            None => None,
            Some(i) => Some(self@[i]),
        }
    }

    /// Whether one focus step in direction `d` would cross the boundary of
    /// the ring (last to first, or first to last). Defined as false for rings
    /// of fewer than two elements.
    pub open spec fn would_wrap_spec(&self, d: Direction) -> bool {
        self@.len() > 1 && match d {
            Direction::Forward => self.focus() == Some(self@.len() - 1),
            Direction::Backward => self.focus() == Some(0int),
        }
    }
}

impl<T: Copy> Ring<T> {
    /// A ring holding `initial` in order, focused on the first element when
    /// there is one.
    pub fn new(initial: Vec<T>) -> (r: Ring<T>)
        ensures
            r.wf(),
            r@ == initial@,
            r.focus() == if initial@.len() == 0 {
                Option::<int>::None
            } else {
                Option::<int>::Some(0int)
            },
    {
        let focused: Option<usize> = if initial.len() == 0 {
            None
        } else {
            Some(0)
        };
        Ring { elements: initial, focused }
    }

    /// The number of elements.
    pub fn len(&self) -> (r: usize)
        ensures
            r == self@.len(),
    {
        self.elements.len()
    }

    /// The element at position `i`.
    pub fn get(&self, i: usize) -> (r: T)
        requires
            i < self@.len(),
        ensures
            r == self@[i as int],
    {
        self.elements[i]
    }

    /// Overwrite the element at position `i`; focus does not move.
    pub fn set(&mut self, i: usize, value: T)
        requires
            old(self).wf(),
            i < old(self)@.len(),
        ensures
            final(self).wf(),
            final(self)@ == old(self)@.update(i as int, value),
            final(self).focus() == old(self).focus(),
    {
        self.elements.set(i, value);
    }

    /// The focused element, or none when the ring is empty.
    pub fn focused(&self) -> (r: Option<T>)
        requires
            self.wf(),
        ensures
            r == self.focused_spec(),
            r is Some <==> self@.len() > 0,
    {
        match self.focused {
            Some(i) => Some(self.elements[i]),
            None => None,
        }
    }

    /// The focus position, or none when the ring is empty.
    pub fn focused_index(&self) -> (r: Option<usize>)
        ensures
            r is None <==> self.focus() is None,
            r is Some ==> self.focus() == Some(r->Some_0 as int),
    {
        self.focused
    }

    /// A snapshot of the elements in ring order.
    pub fn as_vec(&self) -> (r: Vec<T>)
        ensures
            r@ == self@,
    {
        let mut r: Vec<T> = Vec::new();
        let mut i: usize = 0;
        while i < self.elements.len()
            invariant
                i <= self@.len(),
                r@.len() == i,
                forall|j: int| 0 <= j < i ==> r@[j] == self@[j],
            decreases self@.len() - i,
        {
            r.push(self.elements[i]);
            i = i + 1;
        }
        proof {
            assert(r@ =~= self@);
        }
        r
    }

    /// Insert `item` at `index`, shifting later elements right. The inserted
    /// element becomes the focused one; in particular a front insert both
    /// shifts the existing elements and moves focus to the front.
    pub fn insert(&mut self, index: usize, item: T)
        requires
            old(self).wf(),
            index <= old(self)@.len(),
        ensures
            final(self).wf(),
            final(self)@ == old(self)@.insert(index as int, item),
            final(self).focus() == Some(index as int),
    {
        self.elements.insert(index, item);
        self.focused = Some(index);
    }

    /// Move focus to position `index`; the contents do not change.
    pub fn focus_at(&mut self, index: usize)
        requires
            old(self).wf(),
            index < old(self)@.len(),
        ensures
            final(self).wf(),
            final(self)@ == old(self)@,
            final(self).focus() == Some(index as int),
    {
        self.focused = Some(index);
    }

    /// Remove and return the element at `index`, preserving the order of the
    /// rest; focus follows `focus_after_remove`.
    pub fn remove_at(&mut self, index: usize) -> (r: T)
        requires
            old(self).wf(),
            index < old(self)@.len(),
        ensures
            final(self).wf(),
            r == old(self)@[index as int],
            final(self)@ == old(self)@.remove(index as int),
            final(self).focus() == focus_after_remove(
                old(self).focus()->Some_0,
                index as int,
                final(self)@.len() as int,
            ),
    {
        let r = self.elements.remove(index);
        let new_len: usize = self.elements.len();
        let f: usize = self.focused.unwrap();
        self.focused = if new_len == 0 {
            None
        } else if index < f {
            Some(f - 1)
        } else if f < new_len {
            Some(f)
        } else {
            Some(new_len - 1)
        };
        r
    }

    /// Remove and return the focused element, if any, with the same re-focus
    /// rule as `remove_at`.
    pub fn remove_focused(&mut self) -> (r: Option<T>)
        requires
            old(self).wf(),
        ensures
            final(self).wf(),
            old(self)@.len() == 0 ==> r is None && *final(self) == *old(self),
            old(self)@.len() > 0 ==> r == Some(old(self)@[old(self).focus()->Some_0])
                && final(self)@ == old(self)@.remove(old(self).focus()->Some_0) && final(self).focus()
                == focus_after_remove(
                old(self).focus()->Some_0,
                old(self).focus()->Some_0,
                final(self)@.len() as int,
            ),
    {
        match self.focused {
            Some(i) => Some(self.remove_at(i)),
            None => None,
        }
    }

    /// Whether one focus step in direction `d` would cross the ring boundary;
    /// false for rings of fewer than two elements.
    pub fn would_wrap(&self, d: Direction) -> (r: bool)
        requires
            self.wf(),
        ensures
            r == self.would_wrap_spec(d),
    {
        if self.elements.len() < 2 {
            return false;
        }
        let f: usize = self.focused.unwrap();
        match d {
            Direction::Forward => f == self.elements.len() - 1,
            Direction::Backward => f == 0,
        }
    }

    /// Move focus one step in direction `d`, wrapping at the ends, and return
    /// the newly focused element; none on an empty ring. On a one-element
    /// ring the single element wraps to itself.
    pub fn cycle_focus(&mut self, d: Direction) -> (r: Option<T>)
        requires
            old(self).wf(),
        ensures
            final(self).wf(),
            final(self)@ == old(self)@,
            old(self)@.len() == 0 ==> r is None && final(self).focus() is None,
            old(self)@.len() > 0 ==> final(self).focus() == Some(
                step_index(old(self).focus()->Some_0, old(self)@.len() as int, d),
            ) && r == Some(
                final(self)@[step_index(old(self).focus()->Some_0, old(self)@.len() as int, d)],
            ),
    {
        let n: usize = self.elements.len();
        if n == 0 {
            return None;
        }
        let f: usize = self.focused.unwrap();
        let f2: usize = match d {
            Direction::Forward => if f + 1 == n {
                0
            } else {
                f + 1
            },
            Direction::Backward => if f == 0 {
                n - 1
            } else {
                f - 1
            },
        };
        self.focused = Some(f2);
        Some(self.elements[f2])
    }

    /// Swap the focused element one step in direction `d`, rotating it to the
    /// opposite end at a boundary, and keep focus attached to the moved
    /// element; returns the moved element, or none when there is nothing to
    /// swap with (fewer than two elements).
    pub fn drag_focused(&mut self, d: Direction) -> (r: Option<T>)
        requires
            old(self).wf(),
        ensures
            final(self).wf(),
            old(self)@.len() < 2 ==> r is None && *final(self) == *old(self),
            old(self)@.len() >= 2 ==> final(self)@ == dragged(old(self)@, old(self).focus()->Some_0, d)
                && final(self).focus() == Some(
                step_index(old(self).focus()->Some_0, old(self)@.len() as int, d),
            ) && r == Some(old(self)@[old(self).focus()->Some_0]) && final(self).focused_spec() == old(
                self,
            ).focused_spec() && final(self)@.to_multiset() == old(self)@.to_multiset() && final(self)@.len()
                == old(self)@.len(),
    {
        let n: usize = self.elements.len();
        if n < 2 {
            return None;
        }
        let f: usize = self.focused.unwrap();
        let f2: usize = match d {
            Direction::Forward => if f + 1 == n {
                0
            } else {
                f + 1
            },
            Direction::Backward => if f == 0 {
                n - 1
            } else {
                f - 1
            },
        };
        let item: T = self.elements.remove(f);
        self.elements.insert(f2, item);
        self.focused = Some(f2);
        proof {
            lemma_dragged_preserves_multiset(old(self)@, f as int, d);
            assert(self@[f2 as int] == item);
        }
        Some(item)
    }
}

} // verus!
