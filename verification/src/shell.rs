//! The life of the window and of the tray icon: what each event leads to, and
//! when the program may end.

use vstd::prelude::*;

use crate::platform::Platform;
use crate::text::same_text;

verus! {

/// The label of the main window.
pub const MAIN_WINDOW: &'static str = "main";

/// The tray menu item that shows the main window.
pub const MENU_SHOW: &'static str = "show";

/// The tray menu item that ends the program.
pub const MENU_QUIT: &'static str = "quit";

/// What the program remembers while it runs.
#[derive(Debug, Clone, Copy, PartialEq, Eq, Structural)]
pub struct AppState {
    /// The user chose to quit in the tray menu.
    pub quitting: bool,
    /// The main window has finished loading a page at least once.
    pub page_loaded_once: bool,
    /// How many forced reloads the load watchdog has asked for.
    pub watchdog_reloads: u32,
}

/// The state in which the program starts.
pub open spec fn initial_state() -> AppState {
    AppState { quitting: false, page_loaded_once: false, watchdog_reloads: 0 }
}

impl Default for AppState {
    fn default() -> (r: Self)
        ensures
            r == initial_state(),
    {
        AppState { quitting: false, page_loaded_once: false, watchdog_reloads: 0 }
    }
}

/// A mouse button.
#[derive(Debug, Clone, Copy, PartialEq, Eq, Structural)]
pub enum MouseButton {
    Left,
    Right,
    Middle,
}

/// Whether a mouse button went down or came up.
#[derive(Debug, Clone, Copy, PartialEq, Eq, Structural)]
pub enum MouseButtonState {
    Down,
    Up,
}

/// How far the loading of a page is.
#[derive(Debug, Clone, Copy, PartialEq, Eq, Structural)]
pub enum LoadPhase {
    Started,
    Finished,
}

/// What happens to the program.
#[derive(Debug)]
pub enum AppEvent {
    /// The program was started again while it runs.
    SecondInstance,
    /// The tray menu item with this name was chosen.
    MenuItem(String),
    /// A button was pressed or released over the tray icon.
    TrayClick(MouseButton, MouseButtonState),
    /// The window with this label starts or finishes loading a page.
    PageLoad(String, LoadPhase),
    /// The window with this label is asked to close.
    CloseRequested(String),
    /// The program is asked to end.
    ExitRequested,
    /// The Dock icon was clicked.
    Reopen,
    /// The program ends.
    Exit,
}

/// What the program does about an event.
#[derive(Debug, Clone, Copy, PartialEq, Eq, Structural)]
pub enum AppAction {
    /// Let the event take its course.
    Nothing,
    /// Restore the main window and bring it to the front.
    ShowMain,
    /// Ask the program to end, with exit code 0.
    RequestExit,
    /// Keep the window open, and minimize it.
    KeepAndMinimize,
    /// Keep the window open, and hide it.
    KeepAndHide,
    /// Keep the program running, and hide the main window.
    StayAndHide,
    /// Note in the log that the program ends.
    LogExit,
}

/// That the event is the user's choice to quit.
pub open spec fn is_quit(event: AppEvent) -> bool {
    event matches AppEvent::MenuItem(id) && id@ == MENU_QUIT@
}

/// That the main window finishes loading a page.
pub open spec fn is_main_load(event: AppEvent) -> bool {
    event matches AppEvent::PageLoad(label, phase) && label@ == MAIN_WINDOW@ && phase
        == LoadPhase::Finished
}

/// The state after an event.
pub open spec fn next_state(state: AppState, event: AppEvent) -> AppState {
    AppState {
        quitting: state.quitting || is_quit(event),
        page_loaded_once: state.page_loaded_once || is_main_load(event),
        watchdog_reloads: state.watchdog_reloads,
    }
}

/// What an event calls for.
pub open spec fn reaction(platform: Platform, state: AppState, event: AppEvent) -> AppAction {
    match event {
        AppEvent::SecondInstance => AppAction::ShowMain,
        AppEvent::MenuItem(id) => if id@ == MENU_SHOW@ {
            AppAction::ShowMain
        } else if id@ == MENU_QUIT@ {
            AppAction::RequestExit
        } else {
            AppAction::Nothing
        },
        AppEvent::TrayClick(button, button_state) => if button == MouseButton::Left && button_state
            == MouseButtonState::Up {
            AppAction::ShowMain
        } else {
            AppAction::Nothing
        },
        AppEvent::PageLoad(..) => AppAction::Nothing,
        AppEvent::CloseRequested(label) => if label@ != MAIN_WINDOW@ {
            AppAction::Nothing
        } else if platform == Platform::Windows {
            AppAction::KeepAndMinimize
        } else {
            AppAction::KeepAndHide
        },
        AppEvent::ExitRequested => if state.quitting {
            AppAction::Nothing
        } else {
            AppAction::StayAndHide
        },
        AppEvent::Reopen => if platform == Platform::MacOs {
            AppAction::ShowMain
        } else {
            AppAction::Nothing
        },
        AppEvent::Exit => AppAction::LogExit,
    }
}

impl AppState {
    /// Takes note of an event, and decides what to do about it.
    pub fn handle(&mut self, platform: Platform, event: &AppEvent) -> (r: AppAction)
        ensures
            *final(self) == next_state(*old(self), *event),
            r == reaction(platform, *old(self), *event),
    {
        proof {
            reveal_strlit("show");
            reveal_strlit("quit");
            assert("show"@[0] != "quit"@[0]);
        }
        match event {
            AppEvent::SecondInstance => AppAction::ShowMain,
            AppEvent::MenuItem(id) => {
                if same_text(id, MENU_SHOW) {
                    AppAction::ShowMain
                } else if same_text(id, MENU_QUIT) {
                    self.quitting = true;
                    AppAction::RequestExit
                } else {
                    AppAction::Nothing
                }
            },
            AppEvent::TrayClick(button, button_state) => {
                if *button == MouseButton::Left && *button_state == MouseButtonState::Up {
                    AppAction::ShowMain
                } else {
                    AppAction::Nothing
                }
            },
            AppEvent::PageLoad(label, phase) => {
                if *phase == LoadPhase::Finished && same_text(label, MAIN_WINDOW) {
                    self.page_loaded_once = true;
                }
                AppAction::Nothing
            },
            AppEvent::CloseRequested(label) => {
                if !same_text(label, MAIN_WINDOW) {
                    return AppAction::Nothing;
                }
                match platform {
                    Platform::Windows => AppAction::KeepAndMinimize,
                    _ => AppAction::KeepAndHide,
                }
            },
            AppEvent::ExitRequested => {
                if self.quitting {
                    AppAction::Nothing
                } else {
                    AppAction::StayAndHide
                }
            },
            AppEvent::Reopen => match platform {
                Platform::MacOs => AppAction::ShowMain,
                _ => AppAction::Nothing,
            },
            AppEvent::Exit => AppAction::LogExit,
        }
    }
}

/// The state after a history of events.
pub open spec fn state_after(history: Seq<AppEvent>) -> AppState
    decreases history.len(),
{
    if history.len() == 0 {
        initial_state()
    } else {
        next_state(state_after(history.drop_last()), history.last())
    }
}

/// The program is quitting if and only if the user has chosen to quit in the
/// tray menu, and a page counts as loaded if and only if the main window has
/// finished loading one.
pub proof fn law_state_records_history(history: Seq<AppEvent>)
    ensures
        state_after(history).quitting <==> exists|i: int|
            0 <= i < history.len() && is_quit(#[trigger] history[i]),
        state_after(history).page_loaded_once <==> exists|i: int|
            0 <= i < history.len() && is_main_load(#[trigger] history[i]),
    decreases history.len(),
{
    if history.len() > 0 {
        let before = history.drop_last();
        law_state_records_history(before);
        let n = history.len() as int;
        assert(history.last() == history[n - 1]);
        if exists|i: int| 0 <= i < before.len() && is_quit(#[trigger] before[i]) {
            let i = choose|i: int| 0 <= i < before.len() && is_quit(#[trigger] before[i]);
            assert(is_quit(history[i]));
        }
        if exists|i: int| 0 <= i < history.len() && is_quit(#[trigger] history[i]) {
            let i = choose|i: int| 0 <= i < history.len() && is_quit(#[trigger] history[i]);
            if i < n - 1 {
                assert(is_quit(before[i]));
            }
        }
        if exists|i: int| 0 <= i < before.len() && is_main_load(#[trigger] before[i]) {
            let i = choose|i: int| 0 <= i < before.len() && is_main_load(#[trigger] before[i]);
            assert(is_main_load(history[i]));
        }
        if exists|i: int| 0 <= i < history.len() && is_main_load(#[trigger] history[i]) {
            let i = choose|i: int| 0 <= i < history.len() && is_main_load(#[trigger] history[i]);
            if i < n - 1 {
                assert(is_main_load(before[i]));
            }
        }
    }
}

/// After any history, a request to end the program is let through if and only if
/// the user has chosen to quit in the tray menu; otherwise the program stays and
/// hides its window.
pub proof fn law_exit_needs_the_quit_item(platform: Platform, history: Seq<AppEvent>)
    ensures
        reaction(platform, state_after(history), AppEvent::ExitRequested) == (if exists|i: int|
            0 <= i < history.len() && is_quit(#[trigger] history[i]) {
            AppAction::Nothing
        } else {
            AppAction::StayAndHide
        }),
{
    law_state_records_history(history);
}

/// Closing the main window never lets it close, in any state and on any platform.
pub proof fn law_main_window_is_kept(platform: Platform, state: AppState, label: String)
    requires
        label@ == MAIN_WINDOW@,
    ensures
        reaction(platform, state, AppEvent::CloseRequested(label)) == AppAction::KeepAndMinimize
            || reaction(platform, state, AppEvent::CloseRequested(label)) == AppAction::KeepAndHide,
        next_state(state, AppEvent::CloseRequested(label)) == state,
{
    reveal_strlit("main");
    assert(!is_quit(AppEvent::CloseRequested(label)));
}

/// How many rounds the load watchdog takes at most.
pub const WATCHDOG_ROUNDS: u32 = 3;

/// How many forced reloads the load watchdog asks for at most.
pub const MAX_RELOADS: u32 = 2;

/// How long the load watchdog waits before each round, in seconds.
pub const WATCHDOG_PAUSE_SECS: u64 = 20;

/// The script with which the main window reloads a page that is not complete.
pub const RELOAD_SCRIPT: &'static str =
    "if(document.readyState!=='complete'){location.reload()}else{0}";

/// What the load watchdog does in a round.
#[derive(Debug, Clone, Copy, PartialEq, Eq, Structural)]
pub enum WatchdogAction {
    /// End: a page has loaded, or nothing more is to be tried.
    Stop,
    /// Run [`RELOAD_SCRIPT`] in the main window, and go on to the next round.
    Reload,
    /// Navigate the main window to the offline page, and end.
    ShowOffline,
}

/// The load watchdog: it reloads a main window that never finishes loading, and
/// in the end shows the offline page there.
#[derive(Debug, Clone, Copy, PartialEq, Eq, Structural)]
pub struct Watchdog {
    /// The round that comes next; none does from [`WATCHDOG_ROUNDS`] on.
    pub round: u32,
}

/// What a round of the watchdog calls for.
pub open spec fn watchdog_action(round: u32, state: AppState) -> WatchdogAction {
    if round >= WATCHDOG_ROUNDS || state.page_loaded_once {
        WatchdogAction::Stop
    } else if round + 1 == WATCHDOG_ROUNDS {
        WatchdogAction::ShowOffline
    } else if state.watchdog_reloads >= MAX_RELOADS {
        WatchdogAction::Stop
    } else {
        WatchdogAction::Reload
    }
}

/// The state after a round of the watchdog, in which a reload is counted.
pub open spec fn watchdog_state(round: u32, state: AppState) -> AppState {
    match watchdog_action(round, state) {
        WatchdogAction::Reload => AppState {
            watchdog_reloads: (state.watchdog_reloads + 1) as u32,
            ..state
        },
        _ => state,
    }
}

/// The round after one that led to `action`.
pub open spec fn watchdog_next(round: u32, action: WatchdogAction) -> u32 {
    match action {
        WatchdogAction::Reload => (round + 1) as u32,
        _ => WATCHDOG_ROUNDS,
    }
}

impl Watchdog {
    /// A watchdog before its first round.
    pub fn new() -> (r: Self)
        ensures
            r.round == 0,
    {
        Watchdog { round: 0 }
    }

    /// Whether no further round comes.
    pub fn is_over(&self) -> (r: bool)
        ensures
            r == (self.round >= WATCHDOG_ROUNDS),
    {
        self.round >= WATCHDOG_ROUNDS
    }

    /// Takes a round.
    pub fn tick(&mut self, state: &mut AppState) -> (r: WatchdogAction)
        ensures
            r == watchdog_action(old(self).round, *old(state)),
            *final(state) == watchdog_state(old(self).round, *old(state)),
            final(self).round == watchdog_next(old(self).round, r),
    {
        let round = self.round;
        self.round = WATCHDOG_ROUNDS;
        if round >= WATCHDOG_ROUNDS || state.page_loaded_once {
            return WatchdogAction::Stop;
        }
        if round == WATCHDOG_ROUNDS - 1 {
            return WatchdogAction::ShowOffline;
        }
        if state.watchdog_reloads >= MAX_RELOADS {
            return WatchdogAction::Stop;
        }
        state.watchdog_reloads = state.watchdog_reloads + 1;
        self.round = round + 1;
        WatchdogAction::Reload
    }
}

/// No event and no round of a watchdog takes the reloads past their limit, in
/// whatever order they come.
pub proof fn law_reloads_stay_within_the_limit(state: AppState, event: AppEvent, round: u32)
    requires
        state.watchdog_reloads <= MAX_RELOADS,
    ensures
        next_state(state, event).watchdog_reloads <= MAX_RELOADS,
        watchdog_state(round, state).watchdog_reloads <= MAX_RELOADS,
{
}

/// A page that only started to load leaves the state as it is, so the watchdog
/// still takes the window for one that never finishes loading.
pub proof fn law_started_loads_do_not_count(state: AppState, label: String, round: u32)
    ensures
        next_state(state, AppEvent::PageLoad(label, LoadPhase::Started)) == state,
        watchdog_action(
            round,
            next_state(state, AppEvent::PageLoad(label, LoadPhase::Started)),
        ) == watchdog_action(round, state),
{
}

/// The actions of a watchdog from `round` on, in a program in which nothing but
/// the watchdog and the loading of pages happens. `loaded[i]` tells whether the
/// main window has finished loading a page by the `i`-th of these rounds.
pub open spec fn watchdog_actions(round: u32, state: AppState, loaded: Seq<bool>) -> Seq<
    WatchdogAction,
>
    decreases loaded.len(),
{
    if loaded.len() == 0 {
        Seq::empty()
    } else {
        let seen = AppState { page_loaded_once: loaded[0], ..state };
        let action = watchdog_action(round, seen);
        seq![action] + watchdog_actions(
            watchdog_next(round, action),
            watchdog_state(round, seen),
            loaded.drop_first(),
        )
    }
}

/// A program in which no page ever loads sees two reloads, then the offline page,
/// and after that nothing more, however often the watchdog is asked.
pub proof fn law_watchdog_without_a_page(loaded: Seq<bool>)
    requires
        forall|i: int| 0 <= i < loaded.len() ==> !#[trigger] loaded[i],
    ensures
        watchdog_actions(0, initial_state(), loaded) == Seq::new(
            loaded.len(),
            |i: int|
                if i < 2 {
                    WatchdogAction::Reload
                } else if i == 2 {
                    WatchdogAction::ShowOffline
                } else {
                    WatchdogAction::Stop
                },
        ),
{
    lemma_watchdog(0, initial_state(), loaded, loaded.len() as int);
}

/// Once a page has loaded, the watchdog leaves the window alone: of a program
/// whose first page is loaded by round `first`, it sees only what a program
/// without a page sees before that round, and nothing from then on.
pub proof fn law_watchdog_stops_on_load(loaded: Seq<bool>, first: int)
    requires
        0 <= first < loaded.len(),
        loaded[first],
        forall|i: int| 0 <= i < first ==> !#[trigger] loaded[i],
    ensures
        watchdog_actions(0, initial_state(), loaded) == Seq::new(
            loaded.len(),
            |i: int|
                if i < first && i < 2 {
                    WatchdogAction::Reload
                } else if i < first && i == 2 {
                    WatchdogAction::ShowOffline
                } else {
                    WatchdogAction::Stop
                },
        ),
{
    lemma_watchdog(0, initial_state(), loaded, first);
}

proof fn lemma_watchdog_over(state: AppState, loaded: Seq<bool>)
    ensures
        watchdog_actions(WATCHDOG_ROUNDS, state, loaded) == Seq::new(
            loaded.len(),
            |i: int| WatchdogAction::Stop,
        ),
    decreases loaded.len(),
{
    if loaded.len() > 0 {
        let seen = AppState { page_loaded_once: loaded[0], ..state };
        lemma_watchdog_over(watchdog_state(WATCHDOG_ROUNDS, seen), loaded.drop_first());
    }
}

proof fn lemma_watchdog(round: u32, state: AppState, loaded: Seq<bool>, first: int)
    requires
        round < WATCHDOG_ROUNDS,
        state.watchdog_reloads == round,
        0 <= first <= loaded.len(),
        first < loaded.len() ==> loaded[first],
        forall|i: int| 0 <= i < first ==> !#[trigger] loaded[i],
    ensures
        watchdog_actions(round, state, loaded) == Seq::new(
            loaded.len(),
            |i: int|
                if i < first && round + i < 2 {
                    WatchdogAction::Reload
                } else if i < first && round + i == 2 {
                    WatchdogAction::ShowOffline
                } else {
                    WatchdogAction::Stop
                },
        ),
    decreases loaded.len(),
{
    if loaded.len() > 0 {
        let seen = AppState { page_loaded_once: loaded[0], ..state };
        let action = watchdog_action(round, seen);
        let rest = loaded.drop_first();
        if action == WatchdogAction::Reload {
            lemma_watchdog((round + 1) as u32, watchdog_state(round, seen), rest, first - 1);
        } else {
            lemma_watchdog_over(watchdog_state(round, seen), rest);
        }
    }
}

/// The hidden window can always be brought back: after any history and on every
/// platform, releasing the left button over the tray icon, choosing the show item
/// and starting the program again restore it, and on macOS a click on the Dock icon
/// does too.
pub proof fn law_the_window_can_be_brought_back(
    platform: Platform,
    history: Seq<AppEvent>,
    state: AppState,
    id: String,
)
    requires
        id@ == "show"@,
    ensures
        reaction(
            platform,
            state_after(history),
            AppEvent::TrayClick(MouseButton::Left, MouseButtonState::Up),
        ) == AppAction::ShowMain,
        reaction(platform, state_after(history), AppEvent::MenuItem(id)) == AppAction::ShowMain,
        reaction(platform, state_after(history), AppEvent::SecondInstance) == AppAction::ShowMain,
        reaction(Platform::MacOs, state_after(history), AppEvent::Reopen) == AppAction::ShowMain,
        reaction(
            platform,
            state,
            AppEvent::TrayClick(MouseButton::Left, MouseButtonState::Up),
        ) == AppAction::ShowMain,
        reaction(platform, state, AppEvent::MenuItem(id)) == AppAction::ShowMain,
        reaction(platform, state, AppEvent::SecondInstance) == AppAction::ShowMain,
        reaction(Platform::MacOs, state, AppEvent::Reopen) == AppAction::ShowMain,
{
}

/// Nothing else brings the window back: no other button and no press of one, no
/// other menu item, no page that loads, no request to close or to end.
pub proof fn law_what_brings_the_window_back(platform: Platform, state: AppState, event: AppEvent)
    requires
        reaction(platform, state, event) == AppAction::ShowMain,
    ensures
        match event {
            AppEvent::SecondInstance => true,
            AppEvent::MenuItem(id) => id@ == "show"@,
            AppEvent::TrayClick(button, phase) => button is Left && phase is Up,
            AppEvent::Reopen => platform is MacOs,
            _ => false,
        },
{
}

/// The program is asked to end by the quit item and by nothing else, in every
/// state.
pub proof fn law_only_the_quit_item_asks_to_end(
    platform: Platform,
    state: AppState,
    event: AppEvent,
)
    ensures
        reaction(platform, state, event) == AppAction::RequestExit <==> (event matches
            AppEvent::MenuItem(id) && id@ == "quit"@),
{
    reveal_strlit("show");
    reveal_strlit("quit");
    assert("show"@[0] != "quit"@[0]);
}

/// A request to close the main window keeps it in every state: on Windows it is
/// minimized, elsewhere it is hidden. No other window is kept, and nothing but such
/// a request keeps a window.
pub proof fn law_closing_hides(platform: Platform, state: AppState, event: AppEvent)
    ensures
        reaction(platform, state, event) == AppAction::KeepAndMinimize <==> (event matches
            AppEvent::CloseRequested(label) && label@ == "main"@ && platform is Windows),
        reaction(platform, state, event) == AppAction::KeepAndHide <==> (event matches
            AppEvent::CloseRequested(label) && label@ == "main"@ && !(platform is Windows)),
{
}

/// A request to end the program is held back, and its window hidden, exactly while
/// the user has not chosen to quit; that the program ends is noted whenever it does,
/// and only then.
pub proof fn law_ending(platform: Platform, state: AppState, event: AppEvent)
    ensures
        reaction(platform, state, event) == AppAction::StayAndHide <==> (event is ExitRequested
            && !state.quitting),
        reaction(platform, state, event) == AppAction::LogExit <==> event is Exit,
{
}

/// What an event leads to depends on nothing that happened before, but for a
/// request to end.
pub proof fn law_only_requests_to_end_look_back(
    platform: Platform,
    one: AppState,
    other: AppState,
    event: AppEvent,
)
    requires
        !(event is ExitRequested),
    ensures
        reaction(platform, one, event) == reaction(platform, other, event),
{
}

/// What an event changes: choosing quit is remembered for ever, and so is a finished
/// load of the main window. Nothing else is remembered, and nothing is forgotten.
pub proof fn law_what_is_remembered(state: AppState, event: AppEvent)
    ensures
        state.quitting ==> next_state(state, event).quitting,
        state.page_loaded_once ==> next_state(state, event).page_loaded_once,
        next_state(state, event).watchdog_reloads == state.watchdog_reloads,
        !state.quitting ==> (next_state(state, event).quitting <==> (event matches
            AppEvent::MenuItem(id) && id@ == "quit"@)),
        !state.page_loaded_once ==> (next_state(state, event).page_loaded_once <==> (event matches
            AppEvent::PageLoad(label, phase) && label@ == "main"@ && phase is Finished)),
{
}

/// The program starts with nothing remembered.
pub proof fn law_the_program_starts_fresh()
    ensures
        !initial_state().quitting,
        !initial_state().page_loaded_once,
        initial_state().watchdog_reloads == 0,
        state_after(Seq::empty()) == initial_state(),
{
}

/// A round of the watchdog, whatever else the program remembers: once a page has
/// loaded it ends; before that, the first two rounds each ask for one of at most two
/// reloads, and the third shows the offline page. Three rounds take a minute.
pub proof fn law_watchdog_rounds(round: u32, state: AppState)
    ensures
        state.page_loaded_once ==> watchdog_action(round, state) == WatchdogAction::Stop,
        !state.page_loaded_once && round < 2 && state.watchdog_reloads < 2 ==> watchdog_action(
            round,
            state,
        ) == WatchdogAction::Reload,
        !state.page_loaded_once && round < 2 && state.watchdog_reloads >= 2 ==> watchdog_action(
            round,
            state,
        ) == WatchdogAction::Stop,
        !state.page_loaded_once && round == 2 ==> watchdog_action(round, state)
            == WatchdogAction::ShowOffline,
        round > 2 ==> watchdog_action(round, state) == WatchdogAction::Stop,
        WATCHDOG_ROUNDS * WATCHDOG_PAUSE_SECS == 60,
{
}

/// What a round of the watchdog changes: a reload is counted and leads to the next
/// round, anything else changes nothing and ends the watchdog.
pub proof fn law_watchdog_counts_reloads(round: u32, state: AppState, action: WatchdogAction)
    ensures
        watchdog_state(round, state).quitting == state.quitting,
        watchdog_state(round, state).page_loaded_once == state.page_loaded_once,
        watchdog_state(round, state).watchdog_reloads == state.watchdog_reloads + (if watchdog_action(
            round,
            state,
        ) == WatchdogAction::Reload {
            1int
        } else {
            0
        }),
        round < 3 && action == WatchdogAction::Reload ==> watchdog_next(round, action) == round + 1,
        action != WatchdogAction::Reload ==> watchdog_next(round, action) == 3,
{
}

} // verus!
