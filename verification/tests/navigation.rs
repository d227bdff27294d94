use quickmenu::ActionTrait;
use quickmenu::Menu;
use quickmenu::MenuItem;
use quickmenu::MenuOptions;
use quickmenu::MenuState;
use quickmenu::NavigationEvent;
use quickmenu::NavigationMenu;
use quickmenu::ScreenTrait;

#[derive(Clone, Copy, PartialEq, Eq, Debug)]
enum TestAction {
    Play,
    Louder,
    Softer,
}

#[derive(Clone, Copy, PartialEq, Eq, Debug)]
enum TestScreen {
    Root,
    Sound,
    Gallery,
    Empty,
    Shrinky,
}

#[derive(Debug, PartialEq)]
enum TestEvent {
    Played,
}

struct TestState {
    plays: u32,
    volume: i32,
}

impl ActionTrait for TestAction {
    type State = TestState;
    type Event = TestEvent;
    fn handle(&self, state: &mut TestState, event_sink: &mut Vec<TestEvent>) {
        match self {
            TestAction::Play => {
                state.plays += 1;
                event_sink.push(TestEvent::Played);
            }
            TestAction::Louder => state.volume += 1,
            TestAction::Softer => state.volume -= 1,
        }
    }
}

impl ScreenTrait for TestScreen {
    type Action = TestAction;
    type State = TestState;
    fn resolve_spec(&self, state: TestState) -> Menu<TestAction, TestScreen> {
        self.resolve(&state)
    }
    fn resolve(&self, state: &TestState) -> Menu<TestAction, TestScreen> {
        match self {
            TestScreen::Root => Menu {
                id: 1,
                entries: vec![
                    MenuItem::headline("Title".to_string()),
                    MenuItem::action("Play".to_string(), TestAction::Play),
                    MenuItem::screen("Sound".to_string(), TestScreen::Sound),
                    MenuItem::screen("Gallery".to_string(), TestScreen::Gallery),
                ],
            },
            TestScreen::Sound => Menu {
                id: 2,
                entries: vec![
                    MenuItem::action("Louder".to_string(), TestAction::Louder),
                    MenuItem::action("Softer".to_string(), TestAction::Softer),
                    MenuItem::action("Play".to_string(), TestAction::Play),
                ],
            },
            TestScreen::Gallery => Menu {
                id: 3,
                entries: vec![
                    MenuItem::action("One".to_string(), TestAction::Louder),
                    MenuItem::action("Two".to_string(), TestAction::Softer),
                    MenuItem::screen("Deeper".to_string(), TestScreen::Sound),
                    MenuItem::action("Four".to_string(), TestAction::Play),
                ],
            },
            TestScreen::Empty => Menu {
                id: 4,
                entries: vec![MenuItem::headline("Nothing here".to_string())],
            },
            TestScreen::Shrinky => {
                let mut entries = vec![MenuItem::action("Always".to_string(), TestAction::Play)];
                if state.plays == 0 {
                    entries.push(MenuItem::action("Fresh A".to_string(), TestAction::Louder));
                    entries.push(MenuItem::action("Fresh B".to_string(), TestAction::Softer));
                }
                Menu { id: 5, entries }
            }
        }
    }
}

fn engine(screen: TestScreen) -> NavigationMenu<TestScreen> {
    NavigationMenu::new(TestState { plays: 0, volume: 0 }, screen, None)
}

fn top_id(menu: &NavigationMenu<TestScreen>) -> u64 {
    menu.top_menu().expect("menu should be active").id
}

#[test]
fn resolve_is_deterministic() {
    let state = TestState { plays: 0, volume: 0 };
    let first = TestScreen::Root.resolve(&state);
    let second = TestScreen::Root.resolve(&state);
    assert_eq!(first, second);
    assert_eq!(first.selectable_count(), second.selectable_count());
}

#[test]
fn attach_resolves_root() {
    let menu = engine(TestScreen::Root);
    assert!(menu.is_active());
    assert_eq!(top_id(&menu), 1);
    assert_eq!(menu.current_index(), Some(0));
}

#[test]
fn confirm_on_initial_selection_invokes_action() {
    // Root's first selectable entry is the Play action: the headline above
    // it cannot be highlighted.
    let mut menu = engine(TestScreen::Root);
    let mut sink: Vec<TestEvent> = Vec::new();
    menu.apply_event(NavigationEvent::Select, &mut sink);
    assert_eq!(menu.state().plays, 1);
    assert_eq!(sink, vec![TestEvent::Played]);
    assert_eq!(top_id(&menu), 1);
    assert!(menu.is_active());
}

#[test]
fn confirm_on_screen_pushes_and_back_pops() {
    let mut menu = engine(TestScreen::Root);
    let mut sink: Vec<TestEvent> = Vec::new();
    menu.apply_event(NavigationEvent::Down, &mut sink);
    menu.apply_event(NavigationEvent::Select, &mut sink);
    assert_eq!(top_id(&menu), 2);
    menu.apply_event(NavigationEvent::Back, &mut sink);
    assert_eq!(top_id(&menu), 1);
    assert!(menu.is_active());
    assert!(sink.is_empty());
}

#[test]
fn back_at_root_tears_down_and_further_back_is_noop() {
    let mut menu = engine(TestScreen::Root);
    let mut sink: Vec<TestEvent> = Vec::new();
    menu.apply_event(NavigationEvent::Back, &mut sink);
    assert!(!menu.is_active());
    assert!(menu.top_menu().is_none());
    menu.apply_event(NavigationEvent::Back, &mut sink);
    assert!(!menu.is_active());
    menu.apply_event(NavigationEvent::Select, &mut sink);
    assert!(!menu.is_active());
    assert_eq!(menu.state().plays, 0);
}

#[test]
fn move_down_wraps_at_end() {
    // Three selectable entries, cursor on the last one: wrap-around sends
    // a further move down back to the first entry.
    let mut menu = engine(TestScreen::Sound);
    let mut sink: Vec<TestEvent> = Vec::new();
    menu.set_selection(2);
    assert_eq!(menu.current_index(), Some(2));
    menu.apply_event(NavigationEvent::Down, &mut sink);
    assert_eq!(menu.current_index(), Some(0));
}

#[test]
fn move_up_wraps_at_start() {
    let mut menu = engine(TestScreen::Sound);
    let mut sink: Vec<TestEvent> = Vec::new();
    menu.apply_event(NavigationEvent::Up, &mut sink);
    assert_eq!(menu.current_index(), Some(2));
}

#[test]
fn moves_clamp_without_wrap() {
    let options = MenuOptions { wrap_around: false };
    let mut menu = NavigationMenu::new(
        TestState { plays: 0, volume: 0 },
        TestScreen::Sound,
        Some(options),
    );
    let mut sink: Vec<TestEvent> = Vec::new();
    menu.apply_event(NavigationEvent::Up, &mut sink);
    assert_eq!(menu.current_index(), Some(0));
    menu.set_selection(2);
    menu.apply_event(NavigationEvent::Down, &mut sink);
    assert_eq!(menu.current_index(), Some(2));
}

#[test]
fn full_cycle_returns_to_start() {
    // Moving down once per selectable entry comes back to the start.
    let mut menu = engine(TestScreen::Sound);
    let mut sink: Vec<TestEvent> = Vec::new();
    menu.set_selection(1);
    for _ in 0..3 {
        menu.apply_event(NavigationEvent::Down, &mut sink);
    }
    assert_eq!(menu.current_index(), Some(1));
}

#[test]
fn selection_remembered_when_returning() {
    // Highlight the third of the gallery's four entries, descend into the
    // screen it links to, and come back: the cursor is restored.
    let mut menu = engine(TestScreen::Root);
    let mut sink: Vec<TestEvent> = Vec::new();
    menu.apply_event(NavigationEvent::Down, &mut sink);
    menu.apply_event(NavigationEvent::Down, &mut sink);
    menu.apply_event(NavigationEvent::Select, &mut sink);
    assert_eq!(top_id(&menu), 3);
    menu.set_selection(2);
    menu.apply_event(NavigationEvent::Select, &mut sink);
    assert_eq!(top_id(&menu), 2);
    menu.apply_event(NavigationEvent::Back, &mut sink);
    assert_eq!(top_id(&menu), 3);
    assert_eq!(menu.current_index(), Some(2));
}

#[test]
fn empty_menu_ignores_moves_and_confirm() {
    let mut menu = engine(TestScreen::Empty);
    let mut sink: Vec<TestEvent> = Vec::new();
    assert_eq!(menu.current_index(), None);
    menu.apply_event(NavigationEvent::Down, &mut sink);
    menu.apply_event(NavigationEvent::Up, &mut sink);
    menu.apply_event(NavigationEvent::Select, &mut sink);
    assert!(menu.is_active());
    assert_eq!(menu.current_index(), None);
    assert_eq!(menu.state().plays, 0);
    assert!(sink.is_empty());
}

#[test]
fn set_selection_out_of_range_is_ignored() {
    let mut menu = engine(TestScreen::Sound);
    menu.set_selection(7);
    assert_eq!(menu.current_index(), Some(0));
}

#[test]
fn stack_depth_stays_positive_until_teardown() {
    let mut menu = engine(TestScreen::Root);
    let mut sink: Vec<TestEvent> = Vec::new();
    let events = [
        NavigationEvent::Down,
        NavigationEvent::Down,
        NavigationEvent::Select,
        NavigationEvent::Up,
        NavigationEvent::Select,
        NavigationEvent::Back,
    ];
    for event in events {
        menu.apply_event(event, &mut sink);
        assert!(menu.is_active());
    }
    // Back at the root is the one transition out of the active state.
    menu.apply_event(NavigationEvent::Back, &mut sink);
    assert!(!menu.is_active());
    menu.teardown();
    assert!(!menu.is_active());
    menu.teardown();
    assert!(!menu.is_active());
}

#[test]
fn redraw_signal_coalesces() {
    let mut menu = engine(TestScreen::Root);
    assert!(menu.take_redraw());
    assert!(!menu.take_redraw());
    let mut sink: Vec<TestEvent> = Vec::new();
    menu.apply_event(NavigationEvent::Down, &mut sink);
    menu.apply_event(NavigationEvent::Down, &mut sink);
    menu.apply_event(NavigationEvent::Up, &mut sink);
    assert!(menu.take_redraw());
    assert!(!menu.take_redraw());
}

#[test]
fn state_change_refreshes_menu_and_clamps_cursor() {
    // Shrinky's menu loses two entries once something has been played.
    // Touching the state through the handle re-resolves on the next tick and
    // the stale cursor is clamped to the new selectable count.
    let mut state = MenuState::new(TestState { plays: 0, volume: 0 }, TestScreen::Shrinky, None);
    let mut sink: Vec<TestEvent> = Vec::new();
    state.menu.set_selection(2);
    assert_eq!(state.menu.current_index(), Some(2));
    state.state_mut().plays = 5;
    state.menu.tick(&Vec::new(), &mut sink);
    assert_eq!(state.menu.top_menu().expect("active").entries.len(), 1);
    assert_eq!(state.menu.current_index(), Some(0));
}

#[test]
fn quiet_tick_changes_nothing() {
    let mut menu = engine(TestScreen::Root);
    let mut sink: Vec<TestEvent> = Vec::new();
    assert!(menu.take_redraw());
    menu.tick(&Vec::new(), &mut sink);
    assert!(!menu.take_redraw());
    assert_eq!(menu.current_index(), Some(0));
    assert!(sink.is_empty());
}

#[test]
fn tick_drains_events_in_order() {
    // A push followed immediately by a move must observe the post-push
    // stack: the move lands on the pushed menu, not the root.
    let mut menu = engine(TestScreen::Root);
    let mut sink: Vec<TestEvent> = Vec::new();
    let events = vec![
        NavigationEvent::Down,
        NavigationEvent::Select,
        NavigationEvent::Down,
    ];
    menu.tick(&events, &mut sink);
    assert_eq!(top_id(&menu), 2);
    assert_eq!(menu.current_index(), Some(1));
}

#[test]
fn action_confirm_keeps_stack_and_selection_memory() {
    let mut menu = engine(TestScreen::Sound);
    let mut sink: Vec<TestEvent> = Vec::new();
    menu.set_selection(1);
    menu.apply_event(NavigationEvent::Select, &mut sink);
    assert_eq!(menu.state().volume, -1);
    assert_eq!(top_id(&menu), 2);
    assert_eq!(menu.current_index(), Some(1));
}

#[test]
fn menu_state_wrapper_reads_and_mutates_state() {
    let mut state = MenuState::new(TestState { plays: 2, volume: 7 }, TestScreen::Root, None);
    assert!(!state.initial_render_done);
    assert_eq!(state.state().volume, 7);
    state.state_mut().volume = 9;
    assert_eq!(state.state().volume, 9);
    assert!(state.menu.take_redraw());
}
