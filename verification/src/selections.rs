//! The selection tracker: one remembered cursor position per menu
//! identifier, kept for the whole life of the menu so that returning to an
//! already visited identifier restores its cursor.
use vstd::prelude::*;
use std::collections::HashMap;
use crate::types::MenuId;

verus! {

broadcast use vstd::std_specs::hash::group_hash_axioms;

/// The cursor position remembered for `id`: the stored index, or the first
/// selectable entry for an identifier that was never seen.
pub open spec fn sel_of(m: Map<MenuId, usize>, id: MenuId) -> usize {
    if m.contains_key(id) {
        m[id]
    } else {
        0
    }
}

/// `cur` forced below `count`; the cursor used when a stored index has gone
/// stale because the menu's selectable count shrank. Meaningful only for
/// `count > 0`.
pub open spec fn clamp_index(cur: usize, count: usize) -> usize {
    if cur < count {
        cur
    } else {
        (count - 1) as usize
    }
}

/// Where one cursor step lands: forward steps move towards the last
/// selectable entry, backward steps towards the first; at either end the
/// cursor wraps around when `wrap` is set and stays put otherwise.
/// Meaningful only for `count > 0` and `cur < count`.
pub open spec fn next_index(cur: usize, count: usize, forward: bool, wrap: bool) -> usize {
    if forward {
        if cur + 1 < count {
            (cur + 1) as usize
        } else if wrap {
            0
        } else {
            cur
        }
    } else {
        if cur > 0 {
            (cur - 1) as usize
        } else if wrap {
            (count - 1) as usize
        } else {
            0
        }
    }
}

/// The tracker map after one cursor step on `id` against a menu with
/// `count` selectable entries: a no-op when nothing is selectable.
pub open spec fn moved(m: Map<MenuId, usize>, id: MenuId, count: usize, forward: bool, wrap: bool) -> Map<MenuId, usize> {
    if count == 0 {
        m
    } else {
        m.insert(id, next_index(clamp_index(sel_of(m, id), count), count, forward, wrap))
    }
}

/// The tracker map after reconciling `id` against a menu with `count`
/// selectable entries: stale indices are clamped, everything else is kept.
pub open spec fn reconciled(m: Map<MenuId, usize>, id: MenuId, count: usize) -> Map<MenuId, usize> {
    if count > 0 && sel_of(m, id) >= count {
        m.insert(id, (count - 1) as usize)
    } else {
        m
    }
}

/// Per-menu cursor memory, a mapping from menu identifier to the index of
/// the highlighted entry among that menu's selectable entries. Entries are
/// retained even for identifiers no longer on the navigation stack.
pub struct Selections {
    map: HashMap<MenuId, usize>,
}

impl View for Selections {
    type V = Map<MenuId, usize>;

    closed spec fn view(&self) -> Map<MenuId, usize> {
        self.map@
    }
}

impl Selections {
    /// A tracker with no remembered positions.
    pub fn new() -> (r: Self)
        ensures
            r@ == Map::<MenuId, usize>::empty(),
    {
        Selections { map: HashMap::new() }
    }

    /// The last-known cursor for `id`, or the first selectable entry for an
    /// identifier never seen before.
    pub fn current(&self, id: MenuId) -> (r: usize)
        ensures
            r == sel_of(self@, id),
    {
        match self.map.get(&id) {
            Some(v) => *v,
            None => 0,
        }
    }

    /// Explicitly place the cursor for `id`, as pointer-hover input does.
    pub fn set(&mut self, id: MenuId, index: usize)
        ensures
            final(self)@ == old(self)@.insert(id, index),
    {
        self.map.insert(id, index);
    }

    /// Step the cursor for `id` by one selectable entry; a no-op when the
    /// menu has nothing to select. The landing index is always in bounds.
    pub fn move_cursor(&mut self, id: MenuId, count: usize, forward: bool, wrap: bool)
        ensures
            final(self)@ == moved(old(self)@, id, count, forward, wrap),
            count > 0 ==> sel_of(final(self)@, id) < count,
    {
        if count == 0 {
            return ;
        }
        let cur = self.current(id);
        let cur = if cur < count {
            cur
        } else {
            count - 1
        };
        let next = if forward {
            if cur + 1 < count {
                cur + 1
            } else if wrap {
                0
            } else {
                cur
            }
        } else {
            if cur > 0 {
                cur - 1
            } else if wrap {
                count - 1
            } else {
                0
            }
        };
        self.map.insert(id, next);
    }

    /// Reconcile the stored cursor for `id` against a freshly resolved menu
    /// with `count` selectable entries, clamping an index that the new menu
    /// no longer has.
    pub fn reconcile(&mut self, id: MenuId, count: usize)
        ensures
            final(self)@ == reconciled(old(self)@, id, count),
            count > 0 ==> sel_of(final(self)@, id) < count,
    {
        if count == 0 {
            return ;
        }
        let cur = self.current(id);
        if cur >= count {
            self.map.insert(id, count - 1);
        }
    }

    /// Forget every remembered position; part of menu teardown.
    pub fn clear(&mut self)
        ensures
            final(self)@ == Map::<MenuId, usize>::empty(),
    {
        self.map.clear();
    }
}

} // verus!
