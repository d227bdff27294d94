//! The navigation engine: a stack of visited screens with their resolved
//! menus, driven by navigation events. The bottom frame is the root screen;
//! the top frame is what the presentation layer renders.
use vstd::prelude::*;
use crate::ActionTrait;
use crate::ScreenTrait;
use crate::selections::Selections;
use crate::selections::moved;
use crate::selections::reconciled;
use crate::selections::sel_of;
use crate::types::Menu;
use crate::types::MenuId;
use crate::types::MenuItem;
use crate::types::MenuOptions;
use crate::types::MenuSelection;
use crate::types::NavigationEvent;
use crate::types::count_selectable;
use crate::types::lemma_nth_selectable_is_selectable;
use crate::types::nth_selectable;

verus! {

/// One level of navigation history: a screen, the menu it resolved to when
/// the frame was created, and that menu's selectable-entry count.
pub struct NavigationFrame<S: ScreenTrait> {
    pub screen: S,
    pub menu: Menu<S::Action, S>,
    pub selectable_count: usize,
}

/// The navigation state machine. While the menu is active the stack holds
/// at least one frame; tearing the menu down empties it. The stack and the
/// selection tracker are mutated by the engine alone, which is what keeps
/// `wf` unbreakable from outside.
pub struct NavigationMenu<S: ScreenTrait> {
    /// The application state, owned by the host and threaded through
    /// resolution and action calls.
    state: S::State,
    stack: Vec<NavigationFrame<S>>,
    selections: Selections,
    /// Whether cursor movement wraps around at both ends.
    wrap: bool,
    /// The coalesced redraw signal: raised by any mutation, cleared once
    /// the presentation layer has taken it.
    redraw_needed: bool,
    /// Whether the top menu must be re-resolved before the next redraw,
    /// because something acquired mutable access to the application state.
    needs_refresh: bool,
}

impl<S: ScreenTrait> NavigationMenu<S> {
    /// The application state the engine currently holds.
    pub closed spec fn app_state(self) -> S::State {
        self.state
    }

    /// The navigation stack, bottom frame first.
    pub closed spec fn frames(self) -> Seq<NavigationFrame<S>> {
        self.stack@
    }

    /// The selection tracker's memory: menu identifier to cursor position.
    pub closed spec fn tracker(self) -> Map<MenuId, usize> {
        self.selections@
    }

    /// Whether cursor movement wraps around at both ends.
    pub closed spec fn wrap_on(self) -> bool {
        self.wrap
    }

    /// Whether a redraw signal is pending.
    pub closed spec fn redraw_pending(self) -> bool {
        self.redraw_needed
    }

    /// Whether the visible menu must be re-resolved on the next tick.
    pub closed spec fn refresh_pending(self) -> bool {
        self.needs_refresh
    }

    /// How many frames are on the navigation stack.
    pub open spec fn depth(self) -> nat {
        self.frames().len()
    }

    /// The menu is active exactly while the stack is non-empty.
    pub open spec fn is_active_spec(self) -> bool {
        self.depth() > 0
    }

    /// The currently visible frame.
    pub open spec fn top_spec(self) -> NavigationFrame<S>
        recommends
            self.is_active_spec(),
    {
        self.frames().last()
    }

    /// Every frame records the selectable count of its own menu.
    pub open spec fn frames_wf(self) -> bool {
        forall|i: int|
            0 <= i < self.frames().len() ==> (#[trigger] self.frames()[i]).selectable_count
                == count_selectable(self.frames()[i].menu.entries@)
    }

    /// The cursor tracked for the visible menu lies within its selectable
    /// entries whenever it has any.
    pub open spec fn top_in_bounds(self) -> bool {
        self.is_active_spec() && self.top_spec().selectable_count > 0 ==> sel_of(
            self.tracker(),
            self.top_spec().menu.id,
        ) < self.top_spec().selectable_count
    }

    /// Well-formedness: established by `new`, preserved by every operation.
    pub open spec fn wf(self) -> bool {
        self.frames_wf() && self.top_in_bounds()
    }

    /// The transition relation of one navigation event: how the engine and
    /// the event sink change when `event` is processed against `pre`.
    /// `apply_event` ensures exactly this relation. The action-confirm case
    /// leaves the application state and the sink open: the action handler is
    /// the host's arbitrary code. A torn-down menu ignores every event, and
    /// the stack empties exactly through Back at the root.
    pub open spec fn event_step(
        pre: Self,
        post: Self,
        event: NavigationEvent,
        sink_pre: Seq<<S::Action as ActionTrait>::Event>,
        sink_post: Seq<<S::Action as ActionTrait>::Event>,
    ) -> bool {
        &&& post.wrap_on() == pre.wrap_on()
        &&& (pre.depth() == 0 ==> post == pre && sink_post == sink_pre)
        &&& (post.depth() == 0 <==> (pre.depth() == 0 || (event is Back && pre.depth() == 1)))
        &&& (pre.depth() > 0 ==> match event {
            NavigationEvent::Up | NavigationEvent::Down => ({
                let top = pre.top_spec();
                &&& post.frames() == pre.frames()
                &&& post.app_state() == pre.app_state()
                &&& post.refresh_pending() == pre.refresh_pending()
                &&& post.tracker() == moved(
                    pre.tracker(),
                    top.menu.id,
                    top.selectable_count,
                    event is Down,
                    pre.wrap_on(),
                )
                &&& post.redraw_pending() == (pre.redraw_pending() || top.selectable_count > 0)
                &&& sink_post == sink_pre
            }),
            NavigationEvent::Select => ({
                let top = pre.top_spec();
                if top.selectable_count == 0 {
                    post == pre && sink_post == sink_pre
                } else {
                    let cur = sel_of(pre.tracker(), top.menu.id);
                    match nth_selectable(top.menu.entries@, cur as nat) {
                        MenuItem::Action { .. } => {
                            &&& post.frames() == pre.frames()
                            &&& post.tracker() == pre.tracker()
                            &&& post.redraw_pending()
                            &&& post.refresh_pending()
                        },
                        MenuItem::Screen { screen: s2, .. } => ({
                            let menu = s2.resolve_spec(pre.app_state());
                            let count = count_selectable(menu.entries@);
                            &&& post.app_state() == pre.app_state()
                            &&& post.refresh_pending() == pre.refresh_pending()
                            &&& post.frames() == pre.frames().push(
                                (NavigationFrame {
                                    screen: s2,
                                    menu,
                                    selectable_count: count as usize,
                                }),
                            )
                            &&& post.tracker() == reconciled(pre.tracker(), menu.id, count as usize)
                            &&& post.redraw_pending()
                            &&& sink_post == sink_pre
                        }),
                        _ => false,
                    }
                }
            }),
            NavigationEvent::Back => ({
                &&& post.app_state() == pre.app_state()
                &&& post.refresh_pending() == pre.refresh_pending()
                &&& sink_post == sink_pre
                &&& post.redraw_pending()
                &&& if pre.depth() == 1 {
                    post.depth() == 0 && post.tracker() == Map::<MenuId, usize>::empty()
                } else {
                    let revealed = pre.frames()[pre.frames().len() - 2];
                    post.frames() == pre.frames().drop_last() && post.tracker() == reconciled(
                        pre.tracker(),
                        revealed.menu.id,
                        revealed.selectable_count,
                    )
                }
            }),
        })
    }

    /// A witness that `events` were applied strictly in arrival order,
    /// starting from `pre`: `trace[i]` is the engine before event `i` and
    /// `sinks[i]` the event sink's content at that moment, and every
    /// consecutive pair is one `event_step`, so each event is interpreted
    /// against the state that all earlier events of the tick left behind.
    pub open spec fn is_event_trace(
        pre: Self,
        events: Seq<NavigationEvent>,
        sink_pre: Seq<<S::Action as ActionTrait>::Event>,
        trace: Seq<Self>,
        sinks: Seq<Seq<<S::Action as ActionTrait>::Event>>,
    ) -> bool {
        &&& trace.len() == events.len() + 1
        &&& sinks.len() == events.len() + 1
        &&& trace[0] == pre
        &&& sinks[0] == sink_pre
        &&& forall|i: int|
            0 <= i < events.len() ==> #[trigger] Self::event_step(
                trace[i],
                trace[i + 1],
                events[i],
                sinks[i],
                sinks[i + 1],
            )
    }

    /// The transition relation of one re-resolution of the visible screen:
    /// exactly `refresh`'s contract.
    pub open spec fn refresh_step(pre: Self, post: Self) -> bool {
        &&& !post.refresh_pending()
        &&& post.app_state() == pre.app_state()
        &&& post.wrap_on() == pre.wrap_on()
        &&& (pre.depth() == 0 ==> post.frames() == pre.frames() && post.tracker() == pre.tracker()
            && post.redraw_pending() == pre.redraw_pending())
        &&& (pre.depth() > 0 ==> ({
            let top = pre.top_spec();
            let menu = top.screen.resolve_spec(pre.app_state());
            let count = count_selectable(menu.entries@);
            &&& post.frames() == pre.frames().update(
                pre.frames().len() - 1,
                (NavigationFrame { screen: top.screen, menu, selectable_count: count as usize }),
            )
            &&& post.tracker() == reconciled(pre.tracker(), menu.id, count as usize)
            &&& post.redraw_pending()
        }))
    }

    /// Attach a menu: resolve the root screen against the initial state and
    /// make it the only stack frame.
    pub fn new(state: S::State, screen: S, options: Option<MenuOptions>) -> (r: Self)
        ensures
            r.wf(),
            r.depth() == 1,
            r.top_spec().screen == screen,
            r.top_spec().menu == screen.resolve_spec(state),
            r.top_spec().selectable_count == count_selectable(screen.resolve_spec(state).entries@),
            r.app_state() == state,
            r.tracker() == Map::<MenuId, usize>::empty(),
            r.wrap_on() == (match options {
                Some(o) => o.wrap_around,
                None => true,
            }),
            r.redraw_pending(),
            !r.refresh_pending(),
    {
        let menu = screen.resolve(&state);
        let selectable_count = menu.selectable_count();
        let mut stack: Vec<NavigationFrame<S>> = Vec::new();
        stack.push(NavigationFrame { screen, menu, selectable_count });
        let wrap = match options {
            Some(o) => o.wrap_around,
            None => true,
        };
        NavigationMenu {
            state,
            stack,
            selections: Selections::new(),
            wrap,
            redraw_needed: true,
            needs_refresh: false,
        }
    }

    /// Whether the menu is active, i.e. not yet torn down.
    pub fn is_active(&self) -> (r: bool)
        ensures
            r == self.is_active_spec(),
    {
        self.stack.len() > 0
    }

    /// Process one navigation event. Movement steps the cursor of the
    /// visible menu; Select either invokes the highlighted action or pushes
    /// the highlighted screen; Back pops one frame, or tears the menu down
    /// when it is issued at the root. A torn-down menu ignores every event.
    pub fn apply_event(
        &mut self,
        event: NavigationEvent,
        event_sink: &mut Vec<<S::Action as ActionTrait>::Event>,
    )
        requires
            old(self).wf(),
        ensures
            final(self).wf(),
            Self::event_step(
                *old(self),
                *final(self),
                event,
                old(event_sink)@,
                final(event_sink)@,
            ),
    {
        if self.stack.len() == 0 {
            return ;
        }
        let ti = self.stack.len() - 1;
        match event {
            NavigationEvent::Up | NavigationEvent::Down => {
                let forward = match event {
                    NavigationEvent::Down => true,
                    _ => false,
                };
                let id = self.stack[ti].menu.id;
                let count = self.stack[ti].selectable_count;
                self.selections.move_cursor(id, count, forward, self.wrap);
                if count > 0 {
                    self.redraw_needed = true;
                }
            },
            NavigationEvent::Select => {
                let id = self.stack[ti].menu.id;
                let count = self.stack[ti].selectable_count;
                if count == 0 {
                    return ;
                }
                let cur = self.selections.current(id);
                proof {
                    assert(self.stack@[ti as int].selectable_count == count_selectable(
                        self.stack@[ti as int].menu.entries@,
                    ));
                    lemma_nth_selectable_is_selectable(
                        self.stack@[ti as int].menu.entries@,
                        cur as nat,
                    );
                }
                let sel = self.stack[ti].menu.selected_entry(cur);
                match sel {
                    Some(MenuSelection::Action(a)) => {
                        a.handle(&mut self.state, event_sink);
                        self.redraw_needed = true;
                        self.needs_refresh = true;
                    },
                    Some(MenuSelection::Screen(s2)) => {
                        let menu = s2.resolve(&self.state);
                        let selectable_count = menu.selectable_count();
                        self.selections.reconcile(menu.id, selectable_count);
                        self.stack.push(NavigationFrame { screen: s2, menu, selectable_count });
                        self.redraw_needed = true;
                    },
                    None => {
                        // the cursor is in bounds, so a selectable entry
                        // exists at it
                        proof {
                            assert(false);
                        }
                    },
                }
            },
            NavigationEvent::Back => {
                if self.stack.len() > 1 {
                    let _discarded = self.stack.pop();
                    let nti = self.stack.len() - 1;
                    let id = self.stack[nti].menu.id;
                    let count = self.stack[nti].selectable_count;
                    self.selections.reconcile(id, count);
                    self.redraw_needed = true;
                    proof {
                        assert(self.stack@ =~= old(self).stack@.drop_last());
                    }
                } else {
                    self.stack.clear();
                    self.selections.clear();
                    self.redraw_needed = true;
                }
            },
        }
    }

    /// Tear the whole menu down: clear the stack and the remembered
    /// positions, whatever the current depth. Idempotent.
    pub fn teardown(&mut self)
        ensures
            final(self).wf(),
            final(self).depth() == 0,
            final(self).tracker() == Map::<MenuId, usize>::empty(),
            final(self).app_state() == old(self).app_state(),
            final(self).wrap_on() == old(self).wrap_on(),
            final(self).redraw_pending(),
            final(self).refresh_pending() == old(self).refresh_pending(),
    {
        self.stack.clear();
        self.selections.clear();
        self.redraw_needed = true;
    }

    /// Place the cursor of the visible menu directly on `index`, as
    /// pointer-hover input does; ignored when the menu is inactive or the
    /// index lies outside the selectable entries.
    pub fn set_selection(&mut self, index: usize)
        requires
            old(self).wf(),
        ensures
            final(self).wf(),
            final(self).app_state() == old(self).app_state(),
            final(self).frames() == old(self).frames(),
            final(self).wrap_on() == old(self).wrap_on(),
            final(self).refresh_pending() == old(self).refresh_pending(),
            if old(self).depth() > 0 && index < old(self).top_spec().selectable_count {
                final(self).tracker() == old(self).tracker().insert(
                    old(self).top_spec().menu.id,
                    index,
                ) && final(self).redraw_pending()
            } else {
                final(self).tracker() == old(self).tracker() && final(self).redraw_pending()
                    == old(self).redraw_pending()
            },
    {
        if self.stack.len() == 0 {
            return ;
        }
        let ti = self.stack.len() - 1;
        if index < self.stack[ti].selectable_count {
            self.selections.set(self.stack[ti].menu.id, index);
            self.redraw_needed = true;
        }
    }

    /// Re-resolve the visible screen against the current application state,
    /// replace the top frame with the fresh menu, and reconcile the stored
    /// cursor against the new selectable count.
    pub fn refresh(&mut self)
        requires
            old(self).wf(),
        ensures
            final(self).wf(),
            Self::refresh_step(*old(self), *final(self)),
    {
        self.needs_refresh = false;
        if self.stack.len() == 0 {
            return ;
        }
        let _stale = self.stack.pop();
        let screen = match &_stale {
            Some(f) => f.screen,
            None => {
                // the stack was just checked to be non-empty
                proof {
                    assert(false);
                }
                return ;
            },
        };
        let menu = screen.resolve(&self.state);
        let selectable_count = menu.selectable_count();
        self.selections.reconcile(menu.id, selectable_count);
        self.stack.push(NavigationFrame { screen, menu, selectable_count });
        self.redraw_needed = true;
        proof {
            assert(self.stack@ =~= old(self).stack@.update(
                old(self).stack@.len() - 1,
                (NavigationFrame {
                    screen: old(self).top_spec().screen,
                    menu: old(self).top_spec().screen.resolve_spec(old(self).state),
                    selectable_count: count_selectable(
                        old(self).top_spec().screen.resolve_spec(old(self).state).entries@,
                    ) as usize,
                }),
            ));
        }
    }

    /// Borrow the application state.
    pub fn state(&self) -> (r: &S::State)
        ensures
            r == self.app_state(),
    {
        &self.state
    }

    /// Mutable access to the application state. Handing the reference out
    /// is itself the signal that the visible menu may have gone stale, so
    /// the next tick re-resolves it and a redraw is raised.
    pub fn state_mut(&mut self) -> (r: &mut S::State)
        ensures
            *r == old(self).app_state(),
            final(self).app_state() == *final(r),
            final(self).frames() == old(self).frames(),
            final(self).tracker() == old(self).tracker(),
            final(self).wrap_on() == old(self).wrap_on(),
            final(self).redraw_pending(),
            final(self).refresh_pending(),
            old(self).wf() ==> final(self).wf(),
    {
        self.redraw_needed = true;
        self.needs_refresh = true;
        &mut self.state
    }

    /// Take the coalesced redraw signal, clearing it: however many
    /// mutations happened since the last call, the signal is read once.
    pub fn take_redraw(&mut self) -> (r: bool)
        ensures
            r == old(self).redraw_pending(),
            !final(self).redraw_pending(),
            final(self).app_state() == old(self).app_state(),
            final(self).frames() == old(self).frames(),
            final(self).tracker() == old(self).tracker(),
            final(self).wrap_on() == old(self).wrap_on(),
            final(self).refresh_pending() == old(self).refresh_pending(),
            old(self).wf() ==> final(self).wf(),
    {
        let r = self.redraw_needed;
        self.redraw_needed = false;
        r
    }

    /// The menu to render: the top of the stack, if the menu is active.
    pub fn top_menu(&self) -> (r: Option<&Menu<S::Action, S>>)
        ensures
            match r {
                Some(m) => self.depth() > 0 && *m == self.top_spec().menu,
                None => self.depth() == 0,
            },
    {
        if self.stack.len() == 0 {
            None
        } else {
            Some(&self.stack[self.stack.len() - 1].menu)
        }
    }

    /// The index of the highlighted entry among the visible menu's
    /// selectable entries, or `None` when nothing can be selected.
    pub fn current_index(&self) -> (r: Option<usize>)
        requires
            self.wf(),
        ensures
            if self.depth() > 0 && self.top_spec().selectable_count > 0 {
                r == Some(sel_of(self.tracker(), self.top_spec().menu.id))
            } else {
                r is None
            },
    {
        if self.stack.len() == 0 {
            return None;
        }
        let ti = self.stack.len() - 1;
        if self.stack[ti].selectable_count == 0 {
            return None;
        }
        Some(self.selections.current(self.stack[ti].menu.id))
    }

    /// Drain one tick's worth of queued events in arrival order, then, if
    /// anything acquired mutable state access, re-resolve the visible menu
    /// so the next redraw renders fresh content. Returns, as ghost data, the
    /// trace of intermediate engine states and sink contents: the proof that
    /// every event was applied, sequentially and against the state all
    /// earlier events of the tick left behind.
    pub fn tick(
        &mut self,
        events: &Vec<NavigationEvent>,
        event_sink: &mut Vec<<S::Action as ActionTrait>::Event>,
    ) -> (witness: Ghost<(Seq<Self>, Seq<Seq<<S::Action as ActionTrait>::Event>>)>)
        requires
            old(self).wf(),
        ensures
            final(self).wf(),
            !final(self).refresh_pending(),
            final(self).wrap_on() == old(self).wrap_on(),
            // the queued events are applied strictly in arrival order, each
            // against the state the earlier ones left behind, and a pending
            // re-resolution of the visible menu happens after all of them;
            // the returned trace holds the intermediate states as witnesses
            Self::is_event_trace(*old(self), events@, old(event_sink)@, witness@.0, witness@.1),
            witness@.1.last() == final(event_sink)@,
            if witness@.0.last().refresh_pending() {
                Self::refresh_step(witness@.0.last(), *final(self))
            } else {
                *final(self) == witness@.0.last()
            },
            // a tick with nothing queued and nothing stale changes nothing
            events@.len() == 0 && !old(self).refresh_pending() ==> *final(self) == *old(self)
                && final(event_sink)@ == old(event_sink)@,
            old(self).depth() == 0 ==> final(self).frames() == old(self).frames() && final(self).tracker() == old(self).tracker() && final(self).app_state() == old(self).app_state()
                && final(event_sink)@ == old(event_sink)@ && final(self).redraw_pending() == old(self).redraw_pending(),
    {
        let ghost mut trace: Seq<Self> = seq![*old(self)];
        let ghost mut sinks: Seq<Seq<<S::Action as ActionTrait>::Event>> = seq![old(event_sink)@];
        let mut i: usize = 0;
        while i < events.len()
            invariant
                i <= events@.len(),
                self.wf(),
                self.wrap_on() == old(self).wrap_on(),
                trace.len() == i + 1,
                sinks.len() == i + 1,
                trace[0] == *old(self),
                sinks[0] == old(event_sink)@,
                trace.last() == *self,
                sinks.last() == event_sink@,
                forall|k: int|
                    0 <= k < i ==> #[trigger] Self::event_step(
                        trace[k],
                        trace[k + 1],
                        events@[k],
                        sinks[k],
                        sinks[k + 1],
                    ),
                events@.len() == 0 ==> *self == *old(self) && event_sink@ == old(event_sink)@,
                old(self).depth() == 0 ==> self.frames() == old(self).frames() && self.tracker()
                    == old(self).tracker() && self.app_state() == old(self).app_state()
                    && event_sink@ == old(event_sink)@ && self.redraw_pending() == old(self).redraw_pending() && self.refresh_pending() == old(self).refresh_pending(),
            decreases events@.len() - i,
        {
            self.apply_event(events[i], event_sink);
            proof {
                trace = trace.push(*self);
                sinks = sinks.push(event_sink@);
            }
            i = i + 1;
        }
        if self.needs_refresh {
            self.refresh();
        }
        proof {
            assert(Self::is_event_trace(*old(self), events@, old(event_sink)@, trace, sinks));
        }
        Ghost((trace, sinks))
    }
}

} // verus!
