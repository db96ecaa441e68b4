//! A workspace: a named set of displayed clients and the layouts available
//! for arranging them. Clients are referenced by identifier; one client and
//! one layout are focused at any time the respective ring is non-empty.

use std::collections::HashMap;
use vstd::prelude::*;

use crate::layout::{ids_of, Change, Client, Layout, LayoutConf, Region, ResizeAction, WinId};
use crate::ring::{dragged, focus_after_remove, step_index, Direction, Ring};

verus! {

broadcast use vstd::std_specs::hash::group_hash_axioms;

/// `i` is the position of the first occurrence of `x` in `s`.
spec fn is_first_index_of(s: Seq<WinId>, x: WinId, i: int) -> bool {
    &&& 0 <= i < s.len()
    &&& s[i] == x
    &&& forall|j: int| 0 <= j < i ==> s[j] != x
}

/// When `i` is the position of the first occurrence of `x` in `s`, it is the
/// index that `index_of_first` names.
proof fn lemma_first_index_agrees(s: Seq<WinId>, x: WinId, i: int)
    requires
        is_first_index_of(s, x, i),
    ensures
        s.index_of_first(x) == Some(i),
{
    assert(s.contains(x)) by {
        assert(s[i] == x);
    }
    s.index_of_first_ensures(x);
    let j = s.index_of_first(x)->Some_0;
    if j < i {
        assert(s[j] != x);
    }
    if i < j {
        assert(s[i] != x);
    }
}

/// The identifiers of the registry entries for `ids`, in the same order.
pub open spec fn resolved_ids(ids: Seq<WinId>, m: Map<WinId, Client>) -> Seq<WinId> {
    Seq::new(ids.len(), |i: int| m[ids[i]].id)
}

/// A named set of clients that are tiled according to a focused layout.
/// Layout parameters are tracked per workspace and clients are referenced by
/// identifier; resolving an identifier to window metadata happens only at
/// arrangement time, against a registry the caller owns.
#[derive(Debug)]
pub struct Workspace {
    name: &'static str,
    clients: Ring<WinId>,
    layouts: Ring<Layout>,
}

impl Workspace {
    /// The workspace's display name.
    pub closed spec fn name_spec(&self) -> &'static str {
        self.name
    }

    /// Client identifiers in stack order, top of the stack first.
    pub closed spec fn clients_seq(&self) -> Seq<WinId> {
        self.clients@
    }

    /// Position of the focused client, if any.
    pub closed spec fn client_focus(&self) -> Option<int> {
        self.clients.focus()
    }

    /// The layouts in rotation order.
    pub closed spec fn layouts_seq(&self) -> Seq<Layout> {
        self.layouts@
    }

    /// Position of the active layout.
    pub closed spec fn layout_focus(&self) -> Option<int> {
        self.layouts.focus()
    }

    /// The identifier of the focused client, if any.
    pub open spec fn focused_client_spec(&self) -> Option<WinId> {
        match self.client_focus() {
            None => None,
            Some(i) => Some(self.clients_seq()[i]),
        }
    }

    /// The active layout. Meaningful under `wf`, which keeps the layout ring
    /// non-empty and focused.
    pub open spec fn active_layout(&self) -> Layout
        recommends
            self.wf(),
    {
        self.layouts_seq()[self.layout_focus()->Some_0]
    }

    /// Whether one client-focus step in direction `d` would cross the ring
    /// boundary; false with fewer than two clients.
    pub open spec fn client_would_wrap(&self, d: Direction) -> bool {
        self.clients_seq().len() > 1 && match d {
            Direction::Forward => self.client_focus() == Some(self.clients_seq().len() - 1),
            Direction::Backward => self.client_focus() == Some(0int),
        }
    }

    /// Whether the active layout follows focus and a step in `d` would wrap,
    /// in which case cycling and dragging refuse to move.
    pub open spec fn wrap_suppressed(&self, d: Direction) -> bool {
        self.active_layout().conf.follow_focus && self.client_would_wrap(d)
    }

    /// Structural invariant: both rings are well formed, there is at least
    /// one layout, and every layout's parameters are in range.
    pub closed spec fn wf(&self) -> bool {
        &&& self.clients.wf()
        &&& self.layouts.wf()
        &&& self.layouts@.len() > 0
        &&& forall|i: int| 0 <= i < self.layouts@.len() ==> (#[trigger] self.layouts@[i]).wf()
    }

    /// What well-formedness guarantees observably: there is always an active
    /// layout, its parameters are in range, every focus position is a valid
    /// index, and the client ring has a focused element exactly when it is
    /// non-empty — so `focused_client_spec` is `Some` on every non-empty
    /// workspace and `None` on every empty one.
    pub proof fn lemma_wf(&self)
        requires
            self.wf(),
        ensures
            self.layouts_seq().len() > 0,
            self.layout_focus() is Some,
            0 <= self.layout_focus()->Some_0 < self.layouts_seq().len(),
            self.active_layout().wf(),
            self.client_focus() is Some <==> self.clients_seq().len() > 0,
            self.client_focus() is Some ==> 0 <= self.client_focus()->Some_0
                < self.clients_seq().len(),
            self.focused_client_spec() is Some <==> self.clients_seq().len() > 0,
    {
    }

    /// Build a workspace. The layout list must be non-empty and its
    /// parameters in range: a workspace without layouts is a configuration
    /// error the caller must rule out before construction.
    pub fn new(name: &'static str, layouts: Vec<Layout>) -> (r: Workspace)
        requires
            layouts@.len() > 0,
            forall|i: int| 0 <= i < layouts@.len() ==> (#[trigger] layouts@[i]).wf(),
        ensures
            r.wf(),
            r.name_spec()@ == name@,
            r.clients_seq() == Seq::<WinId>::empty(),
            r.client_focus() is None,
            r.layouts_seq() == layouts@,
            r.layout_focus() == Some(0int),
    {
        Workspace { name, clients: Ring::new(Vec::new()), layouts: Ring::new(layouts) }
    }

    /// The workspace's display name.
    pub fn name(&self) -> (r: &'static str)
        ensures
            r@ == self.name_spec()@,
    {
        self.name
    }

    /// The number of clients currently on this workspace.
    pub fn len(&self) -> (r: usize)
        ensures
            r == self.clients_seq().len(),
    {
        self.clients.len()
    }

    /// The clients on this workspace in position order.
    pub fn iter(&self) -> (r: Vec<WinId>)
        ensures
            r@ == self.clients_seq(),
    {
        self.clients.as_vec()
    }

    /// The currently focused client, if there is one: `Some` exactly when the
    /// workspace holds any client at all.
    pub fn focused_client(&self) -> (r: Option<WinId>)
        requires
            self.wf(),
        ensures
            r == self.focused_client_spec(),
            r is Some <==> self.clients_seq().len() > 0,
    {
        self.clients.focused()
    }

    /// Add a new client at the top of the stack and focus it: the added
    /// identifier is always the new focused client.
    pub fn add_client(&mut self, id: WinId)
        requires
            old(self).wf(),
        ensures
            final(self).wf(),
            final(self).clients_seq() == seq![id] + old(self).clients_seq(),
            final(self).client_focus() == Some(0int),
            final(self).focused_client_spec() == Some(id),
            final(self).layouts_seq() == old(self).layouts_seq(),
            final(self).layout_focus() == old(self).layout_focus(),
            final(self).name_spec()@ == old(self).name_spec()@,
    {
        self.clients.insert(0, id);
        proof {
            assert(self.clients@ =~= seq![id] + old(self).clients@);
        }
    }

    /// First position of `id` among the clients, scanning from the top.
    fn find_client(&self, id: WinId) -> (r: Option<usize>)
        ensures
            match r {
                Some(i) => is_first_index_of(self.clients_seq(), id, i as int),
                None => !self.clients_seq().contains(id),
            },
    {
        let n: usize = self.clients.len();
        let mut i: usize = 0;
        while i < n
            invariant
                i <= n,
                n == self.clients_seq().len(),
                forall|j: int| 0 <= j < i ==> self.clients_seq()[j] != id,
            decreases n - i,
        {
            if self.clients.get(i) == id {
                return Some(i);
            }
            i = i + 1;
        }
        None
    }

    /// Focus the client with the given id. Returns the previously focused
    /// identifier whenever the workspace was non-empty — even when `id` is
    /// absent and focus therefore has not moved, so a caller that must tell a
    /// miss apart has to compare the result against the current focus.
    pub fn focus_client(&mut self, id: WinId) -> (r: Option<WinId>)
        requires
            old(self).wf(),
        ensures
            final(self).wf(),
            final(self).clients_seq() == old(self).clients_seq(),
            final(self).layouts_seq() == old(self).layouts_seq(),
            final(self).layout_focus() == old(self).layout_focus(),
            final(self).name_spec()@ == old(self).name_spec()@,
            r == old(self).focused_client_spec(),
            old(self).clients_seq().contains(id) ==> final(self).client_focus() == Some(
                old(self).clients_seq().index_of_first(id)->Some_0,
            ),
            !old(self).clients_seq().contains(id) ==> final(self).client_focus() == old(self).client_focus(),
    {
        if self.clients.len() == 0 {
            proof {
                assert(!self.clients_seq().contains(id));
            }
            return None;
        }
        let prev: WinId = self.clients.focused().unwrap();
        match self.find_client(id) {
            Some(i) => {
                proof {
                    lemma_first_index_agrees(self.clients_seq(), id, i as int);
                }
                self.clients.focus_at(i);
            },
            None => (),
        }
        Some(prev)
    }

    /// Remove the client with the given id, if present; focus stays at the
    /// same stack position, clamped to the new end. On a miss the workspace
    /// is left exactly as it was and `None` comes back; on a hit the stack
    /// shrinks by one.
    pub fn remove_client(&mut self, id: WinId) -> (r: Option<WinId>)
        requires
            old(self).wf(),
        ensures
            final(self).wf(),
            final(self).layouts_seq() == old(self).layouts_seq(),
            final(self).layout_focus() == old(self).layout_focus(),
            final(self).name_spec()@ == old(self).name_spec()@,
            !old(self).clients_seq().contains(id) ==> r is None && final(self).clients_seq() == old(self).clients_seq() && final(self).client_focus() == old(self).client_focus(),
            old(self).clients_seq().contains(id) ==> r == Some(id) && final(self).clients_seq().len() == old(self).clients_seq().len() - 1 && final(self).clients_seq() == old(self).clients_seq().remove(
                old(self).clients_seq().index_of_first(id)->Some_0,
            ) && final(self).client_focus() == focus_after_remove(
                old(self).client_focus()->Some_0,
                old(self).clients_seq().index_of_first(id)->Some_0,
                final(self).clients_seq().len() as int,
            ),
    {
        match self.find_client(id) {
            Some(i) => {
                proof {
                    lemma_first_index_agrees(self.clients_seq(), id, i as int);
                    assert(self.clients_seq().contains(id)) by {
                        assert(self.clients_seq()[i as int] == id);
                    }
                }
                let removed: WinId = self.clients.remove_at(i);
                Some(removed)
            },
            None => None,
        }
    }

    /// Remove the currently focused client, if any, keeping focus at the
    /// same stack position, clamped to the new end.
    pub fn remove_focused_client(&mut self) -> (r: Option<WinId>)
        requires
            old(self).wf(),
        ensures
            final(self).wf(),
            final(self).layouts_seq() == old(self).layouts_seq(),
            final(self).layout_focus() == old(self).layout_focus(),
            final(self).name_spec()@ == old(self).name_spec()@,
            old(self).clients_seq().len() == 0 ==> r is None && final(self).clients_seq() == old(self).clients_seq() && final(self).client_focus() == old(self).client_focus(),
            old(self).clients_seq().len() > 0 ==> r == old(self).focused_client_spec() && final(self).clients_seq() == old(self).clients_seq().remove(old(self).client_focus()->Some_0)
                && final(self).client_focus() == focus_after_remove(
                old(self).client_focus()->Some_0,
                old(self).client_focus()->Some_0,
                final(self).clients_seq().len() as int,
            ),
    {
        self.clients.remove_focused()
    }

    /// Run the active layout, producing one placement per client in stack
    /// order; an empty workspace arranges to an empty list. Every client
    /// identifier must have a live entry in `client_map`: a missing entry is
    /// a bookkeeping bug in the caller, not a condition this function masks.
    pub fn arrange(&self, screen_region: &Region, client_map: &HashMap<WinId, Client>) -> (r: Vec<
        ResizeAction,
    >)
        requires
            self.wf(),
            screen_region.wf(),
            self.clients_seq().len() <= u32::MAX,
            forall|i: int|
                0 <= i < self.clients_seq().len() ==> client_map@.contains_key(
                    #[trigger] self.clients_seq()[i],
                ),
        ensures
            r@ == self.active_layout().arrange_spec(
                resolved_ids(self.clients_seq(), client_map@),
                self.focused_client_spec(),
                *screen_region,
            ),
            r@.len() == self.clients_seq().len(),
    {
        let n: usize = self.clients.len();
        if n == 0 {
            let out: Vec<ResizeAction> = Vec::new();
            proof {
                assert(out@ =~= self.active_layout().arrange_spec(
                    resolved_ids(self.clients_seq(), client_map@),
                    self.focused_client_spec(),
                    *screen_region,
                ));
            }
            return out;
        }
        let layout: Layout = self.layouts.focused().unwrap();
        let mut resolved: Vec<&Client> = Vec::new();
        let mut i: usize = 0;
        while i < n
            invariant
                i <= n,
                n == self.clients_seq().len(),
                self.wf(),
                resolved@.len() == i,
                forall|j: int|
                    0 <= j < self.clients_seq().len() ==> client_map@.contains_key(
                        #[trigger] self.clients_seq()[j],
                    ),
                forall|j: int|
                    0 <= j < i ==> #[trigger] resolved@[j].id == client_map@[self.clients_seq()[j]].id,
            decreases n - i,
        {
            let id: WinId = self.clients.get(i);
            let c: &Client = client_map.get(&id).unwrap();
            resolved.push(c);
            i = i + 1;
        }
        let focus: Option<WinId> = self.clients.focused();
        let r = layout.arrange(&resolved, focus, screen_region);
        proof {
            assert(ids_of(resolved@) =~= resolved_ids(self.clients_seq(), client_map@));
        }
        r
    }

    /// Make the next (or previous) layout in the rotation active; returns the
    /// symbol of the newly active layout.
    pub fn cycle_layout(&mut self, direction: Direction) -> (r: &'static str)
        requires
            old(self).wf(),
        ensures
            final(self).wf(),
            final(self).clients_seq() == old(self).clients_seq(),
            final(self).client_focus() == old(self).client_focus(),
            final(self).name_spec()@ == old(self).name_spec()@,
            final(self).layouts_seq() == old(self).layouts_seq(),
            final(self).layout_focus() == Some(
                step_index(
                    old(self).layout_focus()->Some_0,
                    old(self).layouts_seq().len() as int,
                    direction,
                ),
            ),
            r@ == final(self).active_layout().symbol@,
    {
        self.layouts.cycle_focus(direction);
        self.layout_symbol()
    }

    /// The symbol of the active layout.
    pub fn layout_symbol(&self) -> (r: &'static str)
        requires
            self.wf(),
        ensures
            r@ == self.active_layout().symbol@,
    {
        self.layouts.focused().unwrap().symbol
    }

    /// The behaviour switches of the active layout; the surrounding window
    /// manager reads them to decide when and how to apply the layout.
    pub fn layout_conf(&self) -> (r: LayoutConf)
        requires
            self.wf(),
        ensures
            r == self.active_layout().conf,
    {
        self.layouts.focused().unwrap().conf
    }

    /// Cycle focus through the clients: refused with fewer than two clients,
    /// and refused when the active layout follows focus and the step would
    /// wrap. Otherwise focus moves one step and the pair (previous, new) is
    /// returned when the two identifiers differ.
    pub fn cycle_client(&mut self, direction: Direction) -> (r: Option<(WinId, WinId)>)
        requires
            old(self).wf(),
        ensures
            final(self).wf(),
            final(self).clients_seq() == old(self).clients_seq(),
            final(self).layouts_seq() == old(self).layouts_seq(),
            final(self).layout_focus() == old(self).layout_focus(),
            final(self).name_spec()@ == old(self).name_spec()@,
            old(self).clients_seq().len() < 2 || old(self).wrap_suppressed(direction) ==> r is None
                && final(self).client_focus() == old(self).client_focus(),
            old(self).clients_seq().len() >= 2 && !old(self).wrap_suppressed(direction) ==> final(self).client_focus() == Some(
                step_index(
                    old(self).client_focus()->Some_0,
                    old(self).clients_seq().len() as int,
                    direction,
                ),
            ) && r == if old(self).focused_client_spec()->Some_0 != final(self).focused_client_spec()->Some_0 {
                Some(
                    (
                        old(self).focused_client_spec()->Some_0,
                        final(self).focused_client_spec()->Some_0,
                    ),
                )
            } else {
                Option::<(WinId, WinId)>::None
            },
    {
        if self.clients.len() < 2 {
            return None;
        }
        if self.layout_conf().follow_focus && self.clients.would_wrap(direction) {
            return None;
        }
        let prev: WinId = self.clients.focused().unwrap();
        let next: WinId = self.clients.cycle_focus(direction).unwrap();
        if prev != next {
            Some((prev, next))
        } else {
            None
        }
    }

    /// Drag the focused client one step through the stack, keeping focus on
    /// the moved client; refused when the active layout follows focus and the
    /// step would wrap, and with fewer than two clients there is nothing to
    /// swap with. The clients are preserved as a multiset — only adjacency
    /// changes — and the focused identifier stays the same.
    pub fn drag_client(&mut self, direction: Direction) -> (r: Option<WinId>)
        requires
            old(self).wf(),
        ensures
            final(self).wf(),
            final(self).layouts_seq() == old(self).layouts_seq(),
            final(self).layout_focus() == old(self).layout_focus(),
            final(self).name_spec()@ == old(self).name_spec()@,
            old(self).clients_seq().len() < 2 || old(self).wrap_suppressed(direction) ==> r is None
                && final(self).clients_seq() == old(self).clients_seq() && final(self).client_focus() == old(self).client_focus(),
            old(self).clients_seq().len() >= 2 && !old(self).wrap_suppressed(direction) ==> final(self).clients_seq() == dragged(
                old(self).clients_seq(),
                old(self).client_focus()->Some_0,
                direction,
            ) && final(self).client_focus() == Some(
                step_index(
                    old(self).client_focus()->Some_0,
                    old(self).clients_seq().len() as int,
                    direction,
                ),
            ) && r == old(self).focused_client_spec() && final(self).focused_client_spec() == old(self).focused_client_spec() && final(self).clients_seq().to_multiset() == old(self).clients_seq().to_multiset() && final(self).clients_seq().len() == old(self).clients_seq().len(),
    {
        if self.layout_conf().follow_focus && self.clients.would_wrap(direction) {
            return None;
        }
        self.clients.drag_focused(direction)
    }

    /// Step the active layout's maximum main-area count in `change`'s
    /// direction; nothing else about the workspace moves.
    pub fn update_max_main(&mut self, change: Change)
        requires
            old(self).wf(),
        ensures
            final(self).wf(),
            final(self).clients_seq() == old(self).clients_seq(),
            final(self).client_focus() == old(self).client_focus(),
            final(self).layout_focus() == old(self).layout_focus(),
            final(self).name_spec()@ == old(self).name_spec()@,
            final(self).layouts_seq() == old(self).layouts_seq().update(
                old(self).layout_focus()->Some_0,
                old(self).active_layout().with_stepped_max_main(change),
            ),
    {
        match self.layouts.focused_index() {
            Some(i) => {
                let mut l: Layout = self.layouts.get(i);
                l.update_max_main(change);
                self.layouts.set(i, l);
            },
            None => (),
        }
    }

    /// Adjust the active layout's main-area ratio by `step` thousandths in
    /// `change`'s direction, saturating at 0 and at the full width; nothing
    /// else about the workspace moves.
    pub fn update_main_ratio(&mut self, change: Change, step: u32)
        requires
            old(self).wf(),
        ensures
            final(self).wf(),
            final(self).clients_seq() == old(self).clients_seq(),
            final(self).client_focus() == old(self).client_focus(),
            final(self).layout_focus() == old(self).layout_focus(),
            final(self).name_spec()@ == old(self).name_spec()@,
            final(self).layouts_seq() == old(self).layouts_seq().update(
                old(self).layout_focus()->Some_0,
                old(self).active_layout().with_stepped_ratio(change, step),
            ),
    {
        match self.layouts.focused_index() {
            Some(i) => {
                let mut l: Layout = self.layouts.get(i);
                l.update_main_ratio(change, step);
                self.layouts.set(i, l);
            },
            None => (),
        }
    }
}

} // verus!
