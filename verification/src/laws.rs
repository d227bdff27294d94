//! Laws of the library, stated over the same spec functions that the
//! executable functions' contracts use: determinism of resolution, and the
//! wrap-around, bounds and locality properties of the selection tracker.
use vstd::prelude::*;
use crate::ActionTrait;
use crate::ScreenTrait;
use crate::navigation_menu::NavigationMenu;
use crate::selections::clamp_index;
use crate::selections::moved;
use crate::selections::next_index;
use crate::selections::reconciled;
use crate::selections::sel_of;
use crate::types::Menu;
use crate::types::MenuId;
use crate::types::MenuItem;
use crate::types::NavigationEvent;
use crate::types::count_selectable;
use crate::types::nth_selectable;

verus! {

/// Memory of position across push and pop, at the engine level: from an
/// active, well-formed engine whose highlighted entry links to a screen,
/// confirming that entry and then going back restores the previous stack,
/// and the cursor remembered for the previously visible menu is exactly what
/// it was. The pushed menu must carry a different identifier: identifiers
/// name menus, so two menus sharing one identifier share one cursor.
pub proof fn lemma_position_memory<S: ScreenTrait>(
    pre: NavigationMenu<S>,
    mid: NavigationMenu<S>,
    post: NavigationMenu<S>,
    sink0: Seq<<S::Action as ActionTrait>::Event>,
    sink1: Seq<<S::Action as ActionTrait>::Event>,
    sink2: Seq<<S::Action as ActionTrait>::Event>,
)
    requires
        pre.wf(),
        pre.depth() > 0,
        pre.top_spec().selectable_count > 0,
        ({
            let sel = nth_selectable(
                pre.top_spec().menu.entries@,
                sel_of(pre.tracker(), pre.top_spec().menu.id) as nat,
            );
            sel matches MenuItem::Screen { screen, .. } && screen.resolve_spec(
                pre.app_state(),
            ).id != pre.top_spec().menu.id
        }),
        NavigationMenu::<S>::event_step(pre, mid, NavigationEvent::Select, sink0, sink1),
        NavigationMenu::<S>::event_step(mid, post, NavigationEvent::Back, sink1, sink2),
    ensures
        post.frames() == pre.frames(),
        sel_of(post.tracker(), pre.top_spec().menu.id) == sel_of(
            pre.tracker(),
            pre.top_spec().menu.id,
        ),
{
    let aid = pre.top_spec().menu.id;
    assert(mid.frames().drop_last() =~= pre.frames());
    assert(mid.frames()[mid.frames().len() - 2] == pre.top_spec());
    assert(sel_of(mid.tracker(), aid) == sel_of(pre.tracker(), aid));
    assert(sel_of(pre.tracker(), aid) < pre.top_spec().selectable_count);
}

/// Resolution is idempotent: two menus obtained from the same screen and an
/// unchanged state — which is what `resolve`'s contract pins every result to
/// — are the same menu, so their selectable entries agree in count and in
/// order.
pub proof fn lemma_resolve_deterministic<S: ScreenTrait>(
    screen: S,
    state: S::State,
    m1: Menu<S::Action, S>,
    m2: Menu<S::Action, S>,
)
    requires
        m1 == screen.resolve_spec(state),
        m2 == screen.resolve_spec(state),
    ensures
        m1 == m2,
        count_selectable(m1.entries@) == count_selectable(m2.entries@),
        forall|i: nat|
            i < count_selectable(m1.entries@) ==> #[trigger] nth_selectable(m1.entries@, i)
                == nth_selectable(m2.entries@, i),
{
}

/// The cursor after `k` forward steps with wrap-around from `cur`.
pub open spec fn stepped_forward(cur: usize, count: usize, k: nat) -> usize
    decreases k,
{
    if k == 0 {
        cur
    } else {
        next_index(stepped_forward(cur, count, (k - 1) as nat), count, true, true)
    }
}

/// Stepping forward `k` times adds `k` to the cursor, modulo the selectable
/// count.
proof fn lemma_stepped_forward_adds(cur: usize, count: usize, k: nat)
    requires
        count > 0,
        cur < count,
        k <= count,
    ensures
        stepped_forward(cur, count, k) as int == if cur + k < count {
            cur + k
        } else {
            cur + k - count
        },
    decreases k,
{
    if k > 0 {
        lemma_stepped_forward_adds(cur, count, (k - 1) as nat);
    }
}

/// The tracker map after `k` forward wrap-around steps on `id` against a
/// menu with `count` selectable entries.
pub open spec fn moved_times(m: Map<MenuId, usize>, id: MenuId, count: usize, k: nat) -> Map<
    MenuId,
    usize,
>
    decreases k,
{
    if k == 0 {
        m
    } else {
        moved(moved_times(m, id, count, (k - 1) as nat), id, count, true, true)
    }
}

/// Repeated tracker steps follow the pure stepping function, and stay in
/// bounds.
proof fn lemma_moved_times_tracks(m: Map<MenuId, usize>, id: MenuId, count: usize, k: nat)
    requires
        count > 0,
        sel_of(m, id) < count,
    ensures
        sel_of(moved_times(m, id, count, k), id) == stepped_forward(sel_of(m, id), count, k),
        sel_of(moved_times(m, id, count, k), id) < count,
    decreases k,
{
    if k > 0 {
        lemma_moved_times_tracks(m, id, count, (k - 1) as nat);
    }
}

/// Wrap law: moving the cursor forward once per selectable entry — `count`
/// steps on a menu with `count` selectable entries, wrap-around on — returns
/// it to its starting position.
pub proof fn lemma_wrap_cycle(m: Map<MenuId, usize>, id: MenuId, count: usize)
    requires
        count > 0,
        sel_of(m, id) < count,
    ensures
        sel_of(moved_times(m, id, count, count as nat), id) == sel_of(m, id),
{
    lemma_moved_times_tracks(m, id, count, count as nat);
    lemma_stepped_forward_adds(sel_of(m, id), count, count as nat);
}

/// Memory of position: cursor steps and reconciliations on one menu
/// identifier never disturb the position remembered for another, which is
/// why a menu left and later revisited shows its old cursor.
pub proof fn lemma_tracker_locality(
    m: Map<MenuId, usize>,
    remembered: MenuId,
    touched: MenuId,
    count: usize,
    forward: bool,
    wrap: bool,
)
    requires
        remembered != touched,
    ensures
        sel_of(moved(m, touched, count, forward, wrap), remembered) == sel_of(m, remembered),
        sel_of(reconciled(m, touched, count), remembered) == sel_of(m, remembered),
{
}

/// Bounds law: whatever the stored position was, one cursor step and one
/// reconciliation against a menu with `count > 0` selectable entries each
/// leave the tracked index inside `[0, count)`.
pub proof fn lemma_tracker_in_bounds(
    m: Map<MenuId, usize>,
    id: MenuId,
    count: usize,
    forward: bool,
    wrap: bool,
)
    requires
        count > 0,
    ensures
        sel_of(moved(m, id, count, forward, wrap), id) < count,
        sel_of(reconciled(m, id, count), id) < count,
        clamp_index(sel_of(m, id), count) < count,
{
}

} // verus!
