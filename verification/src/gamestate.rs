//! The screens of the game and the moves between them.

use vstd::prelude::*;

verus! {

/// The screen the game is on.
#[derive(Copy, Clone, Eq, PartialEq, Debug, Hash, Structural)]
pub enum GameState {
    /// Assets are loading. Leads to the main menu.
    Loading,
    /// The main menu. Leads into the game.
    MainMenu,
    /// The game runs. Leads to the pause screen and to the end of the game.
    InGame,
    /// The game is paused. Leads back into the game.
    Paused,
    /// The game is ending. Leads to the main menu.
    GameEnding,
    /// The game quits.
    Quitting,
}

impl Default for GameState {
    fn default() -> (state: GameState)
        ensures
            state == GameState::Loading,
    {
        GameState::Loading
    }
}

/// A record of whether one tracked asset, with all it depends on, has
/// finished loading.
#[derive(Copy, Clone, Debug, PartialEq, Eq, Structural)]
pub enum LoadProgress {
    /// Not loaded yet, or unknown to the asset server.
    Pending,
    /// Loaded, with all that it depends on.
    Loaded,
    /// Loading failed. Nothing more will come of it.
    Failed,
}

/// Whether every tracked asset has come to rest: none is still pending.
pub open spec fn all_settled(loads: Seq<LoadProgress>) -> bool {
    forall|i: int| 0 <= i < loads.len() ==> loads[i] != LoadProgress::Pending
}

/// The move out of the loading screen: to the main menu once every tracked
/// asset has come to rest, loaded or failed; none while any is pending.
pub fn loading_update(loads: &[LoadProgress]) -> (next: Option<GameState>)
    ensures
        all_settled(loads@) ==> next == Some(GameState::MainMenu),
        !all_settled(loads@) ==> next.is_none(),
{
    let mut all_done = true;
    let mut i: usize = 0;
    while i < loads.len()
        invariant
            i <= loads.len(),
            all_done <==> all_settled(loads@.take(i as int)),
        decreases loads.len() - i,
    {
        match loads[i] {
            LoadProgress::Loaded => {},
            LoadProgress::Failed => {},
            LoadProgress::Pending => {
                all_done = false;
            },
        }
        proof {
            // what was seen before is settled exactly if all but the last
            // of what is seen now is
            let seen = loads@.take(i as int);
            let next = loads@.take(i + 1);
            assert(forall|j: int| 0 <= j < i ==> seen[j] == next[j]);
            assert(next[i as int] == loads@[i as int]);
        }
        i = i + 1;
    }
    assert(loads@.take(i as int) =~= loads@);
    if all_done {
        Some(GameState::MainMenu)
    } else {
        None
    }
}

/// The move out of the main menu: straight into the game. On any other
/// screen there is none.
pub fn dummy_mainmenu(current: GameState) -> (next: Option<GameState>)
    ensures
        current == GameState::MainMenu ==> next == Some(GameState::InGame),
        current != GameState::MainMenu ==> next.is_none(),
{
    match current {
        GameState::MainMenu => Some(GameState::InGame),
        _ => None,
    }
}

/// The move out of the ending screen: to the main menu once the ending
/// timer has run out; none before.
pub fn game_ending_system(timer_finished: bool) -> (next: Option<GameState>)
    ensures
        timer_finished ==> next == Some(GameState::MainMenu),
        !timer_finished ==> next.is_none(),
{
    if timer_finished {
        Some(GameState::MainMenu)
    } else {
        None
    }
}

/// Whether a pause key counts: one of the two keys went down, and the
/// debounce timer has run out since the last time one counted.
pub open spec fn pause_requested(
    debounce_finished: bool,
    esc_pressed: bool,
    start_pressed: bool,
) -> bool {
    debounce_finished && (esc_pressed || start_pressed)
}

/// The move out of the running game: to the pause screen when a pause key
/// counts. The caller then restarts the debounce timer.
pub fn pause_input_handler(
    debounce_finished: bool,
    esc_pressed: bool,
    start_pressed: bool,
) -> (next: Option<GameState>)
    ensures
        pause_requested(debounce_finished, esc_pressed, start_pressed) ==> next == Some(
            GameState::Paused,
        ),
        !pause_requested(debounce_finished, esc_pressed, start_pressed) ==> next.is_none(),
{
    if debounce_finished && (esc_pressed || start_pressed) {
        Some(GameState::Paused)
    } else {
        None
    }
}

/// The move out of the pause screen: back into the game when a pause key
/// counts. The caller then restarts the debounce timer.
pub fn pause_menu_system(
    debounce_finished: bool,
    esc_pressed: bool,
    start_pressed: bool,
) -> (next: Option<GameState>)
    ensures
        pause_requested(debounce_finished, esc_pressed, start_pressed) ==> next == Some(
            GameState::InGame,
        ),
        !pause_requested(debounce_finished, esc_pressed, start_pressed) ==> next.is_none(),
{
    if debounce_finished && (esc_pressed || start_pressed) {
        Some(GameState::InGame)
    } else {
        None
    }
}

} // verus!
