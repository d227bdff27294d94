//! The menu model: an immutable description of one resolved menu, its
//! entries, and the spec-level view of which entries can be selected.
use vstd::prelude::*;

verus! {

/// Identifier of a resolved menu: an opaque comparable key chosen by the
/// host application. Selection positions are remembered per identifier, so
/// returning to a previously visited identifier restores its cursor.
pub type MenuId = u64;

/// A decoration the host may attach to a selectable entry. Purely
/// presentational; it has no effect on navigation.
#[derive(Clone, Copy, Debug, PartialEq, Eq, Structural)]
pub enum MenuIcon {
    Checked,
    Unchecked,
    Back,
    Controls,
    Sound,
    Players,
    Settings,
}

/// A non-selectable, presentation-only rich text payload.
#[derive(Clone, Debug, PartialEq, Eq)]
pub struct RichTextEntry {
    pub text: String,
}

/// One entry of a menu. `Headline` and `RichText` are informational and can
/// never be highlighted; `Action` and `Screen` are the selectable entries.
#[derive(Clone, Debug, PartialEq)]
pub enum MenuItem<A, S> {
    Headline { text: String },
    RichText { entry: RichTextEntry },
    Action { label: String, icon: Option<MenuIcon>, action: A },
    Screen { label: String, icon: Option<MenuIcon>, screen: S },
}

impl<A, S> MenuItem<A, S> {
    /// Whether the entry can be highlighted and confirmed.
    pub open spec fn is_selectable(self) -> bool {
        match self {
            MenuItem::Action { .. } => true,
            MenuItem::Screen { .. } => true,
            _ => false,
        }
    }

    pub fn selectable(&self) -> (b: bool)
        ensures
            b == self.is_selectable(),
    {
        match self {
            MenuItem::Action { .. } => true,
            MenuItem::Screen { .. } => true,
            _ => false,
        }
    }

    /// An informational, non-selectable heading.
    pub fn headline(text: String) -> (r: Self)
        ensures
            r == (MenuItem::<A, S>::Headline { text }),
    {
        MenuItem::Headline { text }
    }

    /// A non-selectable rich text entry.
    pub fn rich_text(entry: RichTextEntry) -> (r: Self)
        ensures
            r == (MenuItem::<A, S>::RichText { entry }),
    {
        MenuItem::RichText { entry }
    }

    /// A selectable entry that invokes the action handler when confirmed.
    pub fn action(label: String, action: A) -> (r: Self)
        ensures
            r == (MenuItem::<A, S>::Action { label, icon: None, action }),
    {
        MenuItem::Action { label, icon: None, action }
    }

    /// A selectable entry that pushes the given screen when confirmed.
    pub fn screen(label: String, screen: S) -> (r: Self)
        ensures
            r == (MenuItem::<A, S>::Screen { label, icon: None, screen }),
    {
        MenuItem::Screen { label, icon: None, screen }
    }

    /// The entry as `self`, decorated with `icon`; informational entries
    /// carry no icon and are returned unchanged.
    pub open spec fn spec_with_icon(self, icon: MenuIcon) -> Self {
        match self {
            MenuItem::Action { label, icon: _, action } => MenuItem::Action {
                label,
                icon: Some(icon),
                action,
            },
            MenuItem::Screen { label, icon: _, screen } => MenuItem::Screen {
                label,
                icon: Some(icon),
                screen,
            },
            other => other,
        }
    }

    pub fn with_icon(self, icon: MenuIcon) -> (r: Self)
        ensures
            r == self.spec_with_icon(icon),
    {
        match self {
            MenuItem::Action { label, icon: _, action } => MenuItem::Action {
                label,
                icon: Some(icon),
                action,
            },
            MenuItem::Screen { label, icon: _, screen } => MenuItem::Screen {
                label,
                icon: Some(icon),
                screen,
            },
            other => other,
        }
    }
}

/// How many of the entries in `s` are selectable.
pub open spec fn count_selectable<A, S>(s: Seq<MenuItem<A, S>>) -> nat
    decreases s.len(),
{
    if s.len() == 0 {
        0
    } else {
        (if s[0].is_selectable() {
            1nat
        } else {
            0nat
        }) + count_selectable(s.drop_first())
    }
}

/// The `i`-th selectable entry of `s`, counting from the front and skipping
/// the informational entries. Meaningful only for `i < count_selectable(s)`.
pub open spec fn nth_selectable<A, S>(s: Seq<MenuItem<A, S>>, i: nat) -> MenuItem<A, S>
    decreases s.len(),
{
    if s.len() == 0 {
        arbitrary()
    } else if s[0].is_selectable() {
        if i == 0 {
            s[0]
        } else {
            nth_selectable(s.drop_first(), (i - 1) as nat)
        }
    } else {
        nth_selectable(s.drop_first(), i)
    }
}

/// Every position below the selectable count names a selectable entry.
pub proof fn lemma_nth_selectable_is_selectable<A, S>(s: Seq<MenuItem<A, S>>, i: nat)
    requires
        i < count_selectable(s),
    ensures
        nth_selectable(s, i).is_selectable(),
    decreases s.len(),
{
    if s.len() == 0 {
    } else if s[0].is_selectable() {
        if i > 0 {
            lemma_nth_selectable_is_selectable(s.drop_first(), (i - 1) as nat);
        }
    } else {
        lemma_nth_selectable_is_selectable(s.drop_first(), i);
    }
}

/// One resolved menu: an identifier and its ordered entries. Menus are
/// values produced fresh by each resolution and are never mutated in place.
#[derive(Clone, Debug, PartialEq)]
pub struct Menu<A, S> {
    pub id: MenuId,
    pub entries: Vec<MenuItem<A, S>>,
}

/// The selectable entry the cursor rests on: either an action to invoke or
/// a screen to push.
#[derive(Clone, Copy, Debug, PartialEq, Eq)]
pub enum MenuSelection<A, S> {
    Action(A),
    Screen(S),
}

impl<A, S> Menu<A, S> {
    /// How many entries of this menu can be highlighted.
    pub fn selectable_count(&self) -> (n: usize)
        ensures
            n == count_selectable(self.entries@),
    {
        let mut n: usize = 0;
        let mut j: usize = 0;
        proof {
            assert(self.entries@.skip(0) =~= self.entries@);
        }
        while j < self.entries.len()
            invariant
                j <= self.entries@.len(),
                n <= j,
                n + count_selectable(self.entries@.skip(j as int)) == count_selectable(
                    self.entries@,
                ),
            decreases self.entries@.len() - j,
        {
            proof {
                assert(self.entries@.skip(j as int).drop_first() =~= self.entries@.skip(
                    j as int + 1,
                ));
                assert(self.entries@.skip(j as int)[0] == self.entries@[j as int]);
            }
            if self.entries[j].selectable() {
                n = n + 1;
            }
            j = j + 1;
        }
        proof {
            assert(self.entries@.skip(j as int) =~= Seq::<MenuItem<A, S>>::empty());
        }
        n
    }
}

impl<A: Copy, S: Copy> Menu<A, S> {
    /// The selectable entry at position `i` among the selectable entries,
    /// or `None` when `i` lies at or past the selectable count.
    pub fn selected_entry(&self, i: usize) -> (r: Option<MenuSelection<A, S>>)
        ensures
            ({
                let n = count_selectable(self.entries@);
                if i < n {
                    match nth_selectable(self.entries@, i as nat) {
                        MenuItem::Action { action, .. } => r == Some(
                            MenuSelection::<A, S>::Action(action),
                        ),
                        MenuItem::Screen { screen, .. } => r == Some(
                            MenuSelection::<A, S>::Screen(screen),
                        ),
                        _ => false,
                    }
                } else {
                    r is None
                }
            }),
    {
        let ghost s = self.entries@;
        let mut c: usize = 0;
        let mut j: usize = 0;
        proof {
            assert(s.skip(0) =~= s);
        }
        while j < self.entries.len()
            invariant
                j <= s.len(),
                c <= j,
                c <= i,
                self.entries@ == s,
                c + count_selectable(s.skip(j as int)) == count_selectable(s),
                i < count_selectable(s) ==> nth_selectable(s, i as nat) == nth_selectable(
                    s.skip(j as int),
                    (i - c) as nat,
                ),
            decreases s.len() - j,
        {
            proof {
                assert(s.skip(j as int).drop_first() =~= s.skip(j as int + 1));
                assert(s.skip(j as int)[0] == s[j as int]);
            }
            let entry = &self.entries[j];
            if entry.selectable() {
                if c == i {
                    proof {
                        assert(count_selectable(s.skip(j as int)) >= 1);
                        assert(nth_selectable(s.skip(j as int), 0) == s[j as int]);
                    }
                    match entry {
                        MenuItem::Action { action, .. } => {
                            return Some(MenuSelection::Action(*action));
                        },
                        MenuItem::Screen { screen, .. } => {
                            return Some(MenuSelection::Screen(*screen));
                        },
                        _ => {
                            proof {
                                assert(false);
                            }
                        },
                    }
                } else {
                    c = c + 1;
                }
            }
            j = j + 1;
        }
        proof {
            assert(s.skip(j as int) =~= Seq::<MenuItem<A, S>>::empty());
        }
        None
    }
}

/// Configuration recognized when the menu is attached. Only the movement
/// policy has any effect on navigation; visual theming is the presentation
/// layer's concern.
#[derive(Clone, Copy, Debug, PartialEq, Eq, Structural)]
pub struct MenuOptions {
    /// Whether cursor movement wraps past the first and last selectable
    /// entry; wrapping is the default policy.
    pub wrap_around: bool,
}

impl Default for MenuOptions {
    fn default() -> (r: Self)
        ensures
            r == (MenuOptions { wrap_around: true }),
    {
        MenuOptions { wrap_around: true }
    }
}

/// A navigation input event, processed strictly in arrival order.
#[derive(Clone, Copy, Debug, PartialEq, Eq, Structural)]
pub enum NavigationEvent {
    Up,
    Down,
    Select,
    Back,
}

} // verus!
