//! A data-driven menu-navigation engine. The host application describes its
//! screens and actions; the engine resolves screens into menus, keeps a
//! navigation stack with one remembered cursor per menu identifier, and
//! routes input events into screen transitions or action invocations.
use vstd::prelude::*;

pub mod laws;
pub mod navigation_menu;
pub mod selections;
pub mod types;

pub use navigation_menu::NavigationFrame;
pub use navigation_menu::NavigationMenu;
pub use selections::Selections;

pub use types::Menu;
pub use types::MenuIcon;
pub use types::MenuId;
pub use types::MenuItem;
pub use types::MenuOptions;
pub use types::MenuSelection;
pub use types::NavigationEvent;
pub use types::RichTextEntry;

verus! {

/// A user-triggered effect. The host implements this for its action type;
/// confirming an `Action` entry hands the handler exclusive access to the
/// application state and a sink for application-level events.
pub trait ActionTrait: Sized + Clone + Copy {
    type State;

    type Event;

    fn handle(&self, state: &mut Self::State, event_sink: &mut Vec<Self::Event>);
}

/// A menu identity. The host implements this for its screen type; the engine
/// resolves a screen against the current application state to obtain the
/// concrete menu to show.
pub trait ScreenTrait: Sized + Clone + Copy {
    type Action: ActionTrait<State = Self::State>;

    type State;

    /// What `resolve` returns for a given screen and state. Fixing the
    /// result as a function of the pair makes every implementation
    /// deterministic: resolving the same screen against an unchanged state
    /// twice yields the same menu, entries and order included.
    spec fn resolve_spec(&self, state: Self::State) -> Menu<Self::Action, Self>;

    fn resolve(&self, state: &Self::State) -> (m: Menu<Self::Action, Self>)
        ensures
            m == self.resolve_spec(*state),
    ;
}

/// The host-facing handle around the engine: the navigation state plus a
/// flag the presentation layer uses to remember whether it has rendered at
/// least once since the menu was attached.
pub struct MenuState<S: ScreenTrait> {
    pub menu: navigation_menu::NavigationMenu<S>,
    pub initial_render_done: bool,
}

impl<S: ScreenTrait> MenuState<S> {
    /// Attach a menu to an initial application state and a root screen.
    pub fn new(state: S::State, screen: S, options: Option<MenuOptions>) -> (r: Self)
        ensures
            r.menu.wf(),
            r.menu.depth() == 1,
            r.menu.top_spec().screen == screen,
            r.menu.top_spec().menu == screen.resolve_spec(state),
            r.menu.app_state() == state,
            r.menu.tracker() == Map::<MenuId, usize>::empty(),
            r.menu.wrap_on() == (match options {
                Some(o) => o.wrap_around,
                None => true,
            }),
            r.menu.redraw_pending(),
            !r.menu.refresh_pending(),
            !r.initial_render_done,
    {
        MenuState {
            menu: navigation_menu::NavigationMenu::new(state, screen, options),
            initial_render_done: false,
        }
    }

    /// Borrow the application state.
    pub fn state(&self) -> (r: &S::State)
        ensures
            r == self.menu.app_state(),
    {
        self.menu.state()
    }

    /// Mutable access to the application state. Merely taking this handle
    /// marks the visible menu stale, so the next tick re-resolves and the
    /// presentation layer re-renders.
    pub fn state_mut(&mut self) -> (r: &mut S::State)
        ensures
            *r == old(self).menu.app_state(),
            final(self).menu.app_state() == *final(r),
            final(self).menu.frames() == old(self).menu.frames(),
            final(self).menu.tracker() == old(self).menu.tracker(),
            final(self).menu.wrap_on() == old(self).menu.wrap_on(),
            final(self).menu.redraw_pending(),
            final(self).menu.refresh_pending(),
            final(self).initial_render_done == old(self).initial_render_done,
            old(self).menu.wf() ==> final(self).menu.wf(),
    {
        self.menu.state_mut()
    }
}

/// The plugin description a host registers: which screen type drives the
/// menu, and the options the menu is attached with.
pub struct QuickMenuPlugin<S: ScreenTrait> {
    s: core::marker::PhantomData<S>,
    options: Option<MenuOptions>,
}

impl<S: ScreenTrait> QuickMenuPlugin<S> {
    /// The options this plugin was created with, if any.
    pub closed spec fn options_spec(self) -> Option<MenuOptions> {
        self.options
    }

    /// A plugin with the default options.
    pub fn new() -> (r: Self)
        ensures
            r.options_spec() is None,
    {
        QuickMenuPlugin { s: core::marker::PhantomData, options: None }
    }

    /// A plugin with explicit options.
    pub fn with_options(options: MenuOptions) -> (r: Self)
        ensures
            r.options_spec() == Some(options),
    {
        QuickMenuPlugin { s: core::marker::PhantomData, options: Some(options) }
    }

    /// Read the configured options back.
    pub fn options(&self) -> (r: Option<MenuOptions>)
        ensures
            r == self.options_spec(),
    {
        self.options
    }
}

} // verus!
