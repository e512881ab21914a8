//! Starting a game, and switching how it is watched and synchronised.

use vstd::prelude::*;

use crate::model::{AppState, DashboardView, Game, GameView, StateView};
use crate::protocol::{Protocol, Reply, ReplyView, World};
use crate::refresh::{Refresh, RefreshView};
use crate::text::join;

verus! {

/// The name of the process to watch for once the game runs: only where the game is watched and
/// has a name for its executable.
pub open spec fn watched_process(game: GameView) -> Option<Seq<char>> {
    match game.exe_name {
        Some(name) if game.track_changes && name.len() > 0 => Some(name),
        _ => None,
    }
}

/// A step of starting a game.
#[derive(Debug, PartialEq, Eq)]
pub enum LaunchGame {
    /// Read the state kept on this device.
    LoadState { game_id: String },
    /// Look the game up in the state.
    FindGame { game_id: String, state: AppState },
    /// Expand the environment variables in the path of the executable. `process` is the name
    /// to watch for once it runs.
    ExpandPath { game_id: String, raw_path: String, process: Option<String> },
    /// Open the executable.
    Open { game_id: String, path: String, process: Option<String> },
    /// Have the watcher wait for a process of this name.
    ArmWatcher { game_id: String, exe_name: String },
    /// Give this to the caller.
    Finished(Result<(), String>),
}

/// The value of a [`LaunchGame`].
pub enum LaunchGameView {
    LoadState { game_id: Seq<char> },
    FindGame { game_id: Seq<char>, state: StateView },
    ExpandPath { game_id: Seq<char>, raw_path: Seq<char>, process: Option<Seq<char>> },
    Open { game_id: Seq<char>, path: Seq<char>, process: Option<Seq<char>> },
    ArmWatcher { game_id: Seq<char>, exe_name: Seq<char> },
    Finished(Result<(), Seq<char>>),
}

impl DeepView for LaunchGame {
    type V = LaunchGameView;

    open spec fn deep_view(&self) -> LaunchGameView {
        match *self {
            LaunchGame::LoadState { game_id } => LaunchGameView::LoadState { game_id: game_id@ },
            LaunchGame::FindGame { game_id, state } => LaunchGameView::FindGame {
                game_id: game_id@,
                state: state.deep_view(),
            },
            LaunchGame::ExpandPath { game_id, raw_path, process } => LaunchGameView::ExpandPath {
                game_id: game_id@,
                raw_path: raw_path@,
                process: process.deep_view(),
            },
            LaunchGame::Open { game_id, path, process } => LaunchGameView::Open {
                game_id: game_id@,
                path: path@,
                process: process.deep_view(),
            },
            LaunchGame::ArmWatcher { game_id, exe_name } => LaunchGameView::ArmWatcher {
                game_id: game_id@,
                exe_name: exe_name@,
            },
            LaunchGame::Finished(result) => LaunchGameView::Finished(
                crate::model::outcome(result),
            ),
        }
    }
}

impl Protocol for LaunchGameView {
    open spec fn asks_for(self, reply: ReplyView) -> bool {
        match self {
            LaunchGameView::LoadState { .. } => reply is State,
            LaunchGameView::FindGame { .. } => reply is Game,
            LaunchGameView::ExpandPath { .. } => reply is Text,
            LaunchGameView::Open { .. } => reply is Done,
            LaunchGameView::ArmWatcher { .. } => reply is Done,
            LaunchGameView::Finished(_) => true,
        }
    }

    open spec fn next(self, reply: ReplyView) -> LaunchGameView {
        match (self, reply) {
            (LaunchGameView::LoadState { .. }, ReplyView::State(Err(message))) => {
                LaunchGameView::Finished(Err(message))
            },
            (LaunchGameView::LoadState { game_id }, ReplyView::State(Ok(state))) => {
                LaunchGameView::FindGame { game_id, state }
            },
            (LaunchGameView::FindGame { .. }, ReplyView::Game(Err(message))) => {
                LaunchGameView::Finished(Err(message))
            },
            (LaunchGameView::FindGame { game_id, .. }, ReplyView::Game(Ok(game))) => {
                match game.exe_path {
                    Some(raw_path) => LaunchGameView::ExpandPath {
                        game_id,
                        raw_path,
                        process: watched_process(game),
                    },
                    None => LaunchGameView::Finished(
                        Err("No executable path configured for this game."@),
                    ),
                }
            },
            (LaunchGameView::ExpandPath { game_id, process, .. }, ReplyView::Text(path)) => {
                LaunchGameView::Open { game_id, path, process }
            },
            (LaunchGameView::Open { .. }, ReplyView::Done(Err(message))) => {
                LaunchGameView::Finished(Err("Failed to launch game: "@ + message))
            },
            (LaunchGameView::Open { game_id, process, .. }, ReplyView::Done(Ok(_))) => {
                match process {
                    Some(exe_name) => LaunchGameView::ArmWatcher { game_id, exe_name },
                    None => LaunchGameView::Finished(Ok(())),
                }
            },
            (LaunchGameView::ArmWatcher { .. }, ReplyView::Done(_)) => {
                LaunchGameView::Finished(Ok(()))
            },
            _ => self,
        }
    }

    open spec fn finished(self) -> bool {
        self is Finished
    }

    proof fn law_other_replies_change_nothing(self, reply: ReplyView) {
    }

    proof fn law_finished_stays(self, reply: ReplyView) {
    }
}

impl LaunchGame {
    /// The first step of starting a game.
    pub fn launch_game(game_id: String) -> (step: Self)
        ensures
            step.deep_view() == (LaunchGameView::LoadState { game_id: game_id@ }),
    {
        LaunchGame::LoadState { game_id }
    }

    /// The step after this one.
    pub fn advance(self, reply: Reply) -> (step: Self)
        ensures
            step.deep_view() == self.deep_view().next(reply.deep_view()),
    {
        match self {
            LaunchGame::LoadState { game_id } => match reply {
                Reply::State(Err(message)) => LaunchGame::Finished(Err(message)),
                Reply::State(Ok(state)) => LaunchGame::FindGame { game_id, state },
                _ => LaunchGame::LoadState { game_id },
            },
            LaunchGame::FindGame { game_id, state } => match reply {
                Reply::Game(Err(message)) => LaunchGame::Finished(Err(message)),
                Reply::Game(Ok(game)) => match game.exe_path {
                    Some(raw_path) => {
                        let process = match game.exe_name {
                            Some(name) => if game.track_changes && !name.as_str().is_empty() {
                                Some(name)
                            } else {
                                None
                            },
                            None => None,
                        };
                        LaunchGame::ExpandPath { game_id, raw_path, process }
                    },
                    None => LaunchGame::Finished(
                        Err("No executable path configured for this game.".to_owned()),
                    ),
                },
                _ => LaunchGame::FindGame { game_id, state },
            },
            LaunchGame::ExpandPath { game_id, raw_path, process } => match reply {
                Reply::Text(path) => LaunchGame::Open { game_id, path, process },
                _ => LaunchGame::ExpandPath { game_id, raw_path, process },
            },
            LaunchGame::Open { game_id, path, process } => match reply {
                Reply::Done(Err(message)) => LaunchGame::Finished(
                    Err(join("Failed to launch game: ", message.as_str())),
                ),
                Reply::Done(Ok(())) => match process {
                    Some(exe_name) => LaunchGame::ArmWatcher { game_id, exe_name },
                    None => LaunchGame::Finished(Ok(())),
                },
                _ => LaunchGame::Open { game_id, path, process },
            },
            LaunchGame::ArmWatcher { game_id, exe_name } => match reply {
                Reply::Done(_) => LaunchGame::Finished(Ok(())),
                _ => LaunchGame::ArmWatcher { game_id, exe_name },
            },
            LaunchGame::Finished(result) => LaunchGame::Finished(result),
        }
    }
}

/// The steps of starting a game that is in the library and has an executable, in order. The
/// watcher is armed exactly where the executable could be opened, the game is watched and its
/// executable has a name; it is armed with that name, after the executable was opened. A game
/// that could be opened counts as started, whatever becomes of the watcher.
pub proof fn law_launch_steps(
    game_id: Seq<char>,
    state: StateView,
    game: GameView,
    world: World<LaunchGameView>,
    count: nat,
)
    requires
        crate::protocol::cooperative(world),
        world(LaunchGameView::LoadState { game_id }) == ReplyView::State(Ok(state)),
        world(LaunchGameView::FindGame { game_id, state }) == ReplyView::Game(Ok(game)),
        game.exe_path is Some,
        count >= 5,
    ensures
        ({
            let process = watched_process(game);
            let expand = LaunchGameView::ExpandPath {
                game_id,
                raw_path: game.exe_path->0,
                process,
            };
            let open = LaunchGameView::Open { game_id, path: world(expand)->Text_0, process };
            crate::protocol::trace(LaunchGameView::LoadState { game_id }, world, count) == seq![
                LaunchGameView::LoadState { game_id },
                LaunchGameView::FindGame { game_id, state },
                expand,
                open,
            ] + (match world(open)->Done_0 {
                Err(message) => seq![
                    LaunchGameView::Finished(Err("Failed to launch game: "@ + message)),
                ],
                Ok(_) => match process {
                    Some(exe_name) => seq![
                        LaunchGameView::ArmWatcher { game_id, exe_name },
                        LaunchGameView::Finished(Ok(())),
                    ],
                    None => seq![LaunchGameView::Finished(Ok(()))],
                },
            })
        }),
{
    reveal_with_fuel(crate::protocol::trace, 7);
    let expand = LaunchGameView::ExpandPath {
        game_id,
        raw_path: game.exe_path->0,
        process: watched_process(game),
    };
    assert(expand.asks_for(world(expand)));
    let open = expand.next(world(expand));
    assert(open.asks_for(world(open)));
    let fifth = open.next(world(open));
    assert(fifth.asks_for(world(fifth)));
}

/// Where the state cannot be read, the game is not found or it has no executable, nothing is
/// opened or watched, and the caller gets the reason.
pub proof fn law_launch_refused(game_id: Seq<char>, world: World<LaunchGameView>, count: nat)
    requires
        crate::protocol::cooperative(world),
        count >= 2,
    ensures
        ({
            let load = LaunchGameView::LoadState { game_id };
            let state = world(load)->State_0->Ok_0;
            let find = LaunchGameView::FindGame { game_id, state };
            let steps = crate::protocol::trace(load, world, count);
            &&& world(load)->State_0 matches Err(message) ==> steps == seq![
                load,
                LaunchGameView::Finished(Err(message)),
            ]
            &&& world(load)->State_0 is Ok && world(find)->Game_0 is Err ==> steps == seq![
                load,
                find,
                LaunchGameView::Finished(Err(world(find)->Game_0->Err_0)),
            ]
            &&& world(load)->State_0 is Ok && world(find)->Game_0 is Ok
                && world(find)->Game_0->Ok_0.exe_path is None ==> steps == seq![
                load,
                find,
                LaunchGameView::Finished(Err("No executable path configured for this game."@)),
            ]
        }),
{
    reveal_with_fuel(crate::protocol::trace, 4);
    let load = LaunchGameView::LoadState { game_id };
    assert(load.asks_for(world(load)));
    let find = load.next(world(load));
    assert(find.asks_for(world(find)));
}

/// A switch of a game.
#[derive(Clone, Copy, Debug, PartialEq, Eq, Structural)]
pub enum Switch {
    /// Whether the running game is watched.
    TrackChanges,
    /// Whether the game is synchronised by itself.
    AutoSync,
}

impl Switch {
    /// A game with the switch set.
    pub open spec fn set_in(self, game: GameView, enabled: bool) -> GameView {
        match self {
            Switch::TrackChanges => GameView { track_changes: enabled, ..game },
            Switch::AutoSync => GameView { auto_sync: enabled, ..game },
        }
    }

    /// Sets the switch of a game, and nothing else.
    pub fn set(self, game: &mut Game, enabled: bool)
        ensures
            final(game).deep_view() == self.set_in(old(game).deep_view(), enabled),
            self == Switch::TrackChanges ==> final(game).track_changes == enabled
                && final(game).auto_sync == old(game).auto_sync,
            self == Switch::AutoSync ==> final(game).auto_sync == enabled
                && final(game).track_changes == old(game).track_changes,
            final(game).id == old(game).id,
            final(game).name == old(game).name,
            final(game).save_paths == old(game).save_paths,
            final(game).gdrive_folder_id == old(game).gdrive_folder_id,
            final(game).exe_path == old(game).exe_path,
            final(game).exe_name == old(game).exe_name,
            final(game).total_play_time_seconds == old(game).total_play_time_seconds,
            final(game).cloud_storage_bytes == old(game).cloud_storage_bytes,
            final(game).last_cloud_modified == old(game).last_cloud_modified,
            final(game).last_local_modified == old(game).last_local_modified,
            final(game).other == old(game).other,
    {
        match self {
            Switch::TrackChanges => game.track_changes = enabled,
            Switch::AutoSync => game.auto_sync = enabled,
        }
    }
}

/// Setting a switch twice leaves what was set last, and the two switches do not touch each
/// other: in which order they are set makes no difference.
pub proof fn law_switches_are_independent(game: GameView, a: bool, b: bool)
    ensures
        forall|switch: Switch|
            #[trigger] switch.set_in(switch.set_in(game, a), b) == switch.set_in(game, b),
        Switch::TrackChanges.set_in(Switch::AutoSync.set_in(game, a), b) == Switch::AutoSync.set_in(
            Switch::TrackChanges.set_in(game, b),
            a,
        ),
{
}

/// A step of switching.
#[derive(Debug, PartialEq, Eq)]
pub enum Toggle {
    /// Set the switch of the game, and store the state.
    SetSwitch { game_id: String, switch: Switch, enabled: bool },
    /// Start or stop the watcher of the game.
    Watch { game_id: String, enabled: bool, state: AppState },
    /// Show the games.
    Show(Refresh),
}

/// The value of a [`Toggle`].
pub enum ToggleView {
    SetSwitch { game_id: Seq<char>, switch: Switch, enabled: bool },
    Watch { game_id: Seq<char>, enabled: bool, state: StateView },
    Show(RefreshView),
}

impl DeepView for Toggle {
    type V = ToggleView;

    open spec fn deep_view(&self) -> ToggleView {
        match *self {
            Toggle::SetSwitch { game_id, switch, enabled } => ToggleView::SetSwitch {
                game_id: game_id@,
                switch,
                enabled,
            },
            Toggle::Watch { game_id, enabled, state } => ToggleView::Watch {
                game_id: game_id@,
                enabled,
                state: state.deep_view(),
            },
            Toggle::Show(refresh) => ToggleView::Show(refresh.deep_view()),
        }
    }
}

impl Protocol for ToggleView {
    open spec fn asks_for(self, reply: ReplyView) -> bool {
        match self {
            ToggleView::SetSwitch { .. } => reply is State,
            ToggleView::Watch { .. } => reply is Done,
            ToggleView::Show(refresh) => refresh.asks_for(reply),
        }
    }

    open spec fn next(self, reply: ReplyView) -> ToggleView {
        match (self, reply) {
            (ToggleView::SetSwitch { .. }, ReplyView::State(Err(message))) => {
                ToggleView::Show(RefreshView::Finished(Err(message)))
            },
            (
                ToggleView::SetSwitch { game_id, switch, enabled },
                ReplyView::State(Ok(state)),
            ) => match switch {
                Switch::TrackChanges => ToggleView::Watch { game_id, enabled, state },
                Switch::AutoSync => ToggleView::Show(RefreshView::ApplyOverrides { state }),
            },
            (ToggleView::Watch { .. }, ReplyView::Done(Err(message))) => {
                ToggleView::Show(RefreshView::Finished(Err(message)))
            },
            (ToggleView::Watch { state, .. }, ReplyView::Done(Ok(_))) => {
                ToggleView::Show(RefreshView::ApplyOverrides { state })
            },
            (ToggleView::Show(refresh), _) => ToggleView::Show(refresh.next(reply)),
            _ => self,
        }
    }

    open spec fn finished(self) -> bool {
        self matches ToggleView::Show(refresh) && refresh.finished()
    }

    proof fn law_other_replies_change_nothing(self, reply: ReplyView) {
    }

    proof fn law_finished_stays(self, reply: ReplyView) {
    }
}

impl Toggle {
    /// The first step of switching whether a game is watched.
    pub fn toggle_track_changes(game_id: String, enabled: bool) -> (step: Self)
        ensures
            step.deep_view() == (ToggleView::SetSwitch {
                game_id: game_id@,
                switch: Switch::TrackChanges,
                enabled,
            }),
    {
        Toggle::SetSwitch { game_id, switch: Switch::TrackChanges, enabled }
    }

    /// The first step of switching whether a game is synchronised by itself.
    pub fn toggle_auto_sync(game_id: String, enabled: bool) -> (step: Self)
        ensures
            step.deep_view() == (ToggleView::SetSwitch {
                game_id: game_id@,
                switch: Switch::AutoSync,
                enabled,
            }),
    {
        Toggle::SetSwitch { game_id, switch: Switch::AutoSync, enabled }
    }

    /// The step after this one.
    pub fn advance(self, reply: Reply) -> (step: Self)
        ensures
            step.deep_view() == self.deep_view().next(reply.deep_view()),
    {
        match self {
            Toggle::SetSwitch { game_id, switch, enabled } => match reply {
                Reply::State(Err(message)) => Toggle::Show(Refresh::Finished(Err(message))),
                Reply::State(Ok(state)) => match switch {
                    Switch::TrackChanges => Toggle::Watch { game_id, enabled, state },
                    Switch::AutoSync => Toggle::Show(Refresh::ApplyOverrides { state }),
                },
                _ => Toggle::SetSwitch { game_id, switch, enabled },
            },
            Toggle::Watch { game_id, enabled, state } => match reply {
                Reply::Done(Err(message)) => Toggle::Show(Refresh::Finished(Err(message))),
                Reply::Done(Ok(())) => Toggle::Show(Refresh::ApplyOverrides { state }),
                _ => Toggle::Watch { game_id, enabled, state },
            },
            Toggle::Show(refresh) => Toggle::Show(refresh.advance(reply)),
        }
    }
}

/// The steps of switching, in order. The switch is stored first; where that fails, nothing else
/// is done. Only the switch for watching has to do with the watcher, which gets the value that
/// was stored, and whose failure is passed on. The games shown are those of the stored state.
pub proof fn law_toggle_steps(
    game_id: Seq<char>,
    switch: Switch,
    enabled: bool,
    world: World<ToggleView>,
    count: nat,
)
    requires
        crate::protocol::cooperative(world),
        count >= 3,
    ensures
        ({
            let set = ToggleView::SetSwitch { game_id, switch, enabled };
            let state = world(set)->State_0->Ok_0;
            let watch = ToggleView::Watch { game_id, enabled, state };
            let show = ToggleView::Show(RefreshView::ApplyOverrides { state });
            let last = ToggleView::Show(
                RefreshView::Finished(Ok(DashboardView { games: world(show)->Games_0 })),
            );
            crate::protocol::trace(set, world, count) == match world(set)->State_0 {
                Err(message) => seq![
                    set,
                    ToggleView::Show(RefreshView::Finished(Err(message))),
                ],
                Ok(_) => match switch {
                    Switch::AutoSync => seq![set, show, last],
                    Switch::TrackChanges => match world(watch)->Done_0 {
                        Err(message) => seq![
                            set,
                            watch,
                            ToggleView::Show(RefreshView::Finished(Err(message))),
                        ],
                        Ok(_) => seq![set, watch, show, last],
                    },
                },
            }
        }),
{
    reveal_with_fuel(crate::protocol::trace, 5);
    let set = ToggleView::SetSwitch { game_id, switch, enabled };
    assert(set.asks_for(world(set)));
    let second = set.next(world(set));
    assert(second.asks_for(world(second)));
    let third = second.next(world(second));
    assert(third.asks_for(world(third)));
}

/// When the watcher is armed. Starting a game that was found and has an executable opens the
/// expansion of the path of that executable. Once that is open, the watcher is armed with a
/// name exactly where the game is watched, its executable has that name and the name is not
/// empty; otherwise the game counts as started at once. No other field of the game plays a
/// part.
pub proof fn law_watcher_is_armed_for_watched_games(
    game_id: Seq<char>,
    state: StateView,
    game: GameView,
    path: Seq<char>,
    name: Seq<char>,
)
    requires
        game.exe_path is Some,
    ensures
        ({
            let find = LaunchGameView::FindGame { game_id, state };
            let expand = find.next(ReplyView::Game(Ok(game)));
            let open = expand.next(ReplyView::Text(path));
            let opened = open.next(ReplyView::Done(Ok(())));
            &&& expand is ExpandPath
            &&& expand->ExpandPath_game_id == game_id
            &&& expand->raw_path == game.exe_path->0
            &&& open is Open
            &&& open->Open_game_id == game_id
            &&& open->path == path
            &&& opened == (LaunchGameView::ArmWatcher { game_id, exe_name: name })
                <==> game.track_changes && game.exe_name == Some(name) && name.len() > 0
            &&& opened == LaunchGameView::Finished(Ok(())) <==> !game.track_changes
                || game.exe_name is None || game.exe_name->0.len() == 0
        }),
{
}

/// What each reply makes of a launch. Each failure is the answer, the one of the opening with
/// words before it; a game without an executable is refused. What becomes of the watcher is of
/// no account. A step waits for its own kind of reply.
pub proof fn law_launch_follows_replies(
    game_id: Seq<char>,
    state: StateView,
    game: GameView,
    text: Seq<char>,
    process: Option<Seq<char>>,
    message: Seq<char>,
    done: Result<(), Seq<char>>,
    step: LaunchGameView,
    reply: ReplyView,
)
    ensures
        ({
            let load = LaunchGameView::LoadState { game_id };
            let find = LaunchGameView::FindGame { game_id, state };
            let open = LaunchGameView::Open { game_id, path: text, process };
            let failed = LaunchGameView::Finished(Err(message));
            &&& load.next(ReplyView::State(Ok(state))) == find
            &&& load.next(ReplyView::State(Err(message))) == failed
            &&& find.next(ReplyView::Game(Err(message))) == failed
            &&& game.exe_path is None ==> find.next(ReplyView::Game(Ok(game)))
                == LaunchGameView::Finished(
                Err("No executable path configured for this game."@),
            )
            &&& open.next(ReplyView::Done(Err(message))) == LaunchGameView::Finished(
                Err("Failed to launch game: "@ + message),
            )
            &&& open.next(ReplyView::Done(Ok(()))) == match process {
                Some(exe_name) => LaunchGameView::ArmWatcher { game_id, exe_name },
                None => LaunchGameView::Finished(Ok(())),
            }
            &&& (LaunchGameView::ExpandPath { game_id, raw_path: message, process }).next(
                ReplyView::Text(text),
            ) == open
            &&& (LaunchGameView::ArmWatcher { game_id, exe_name: text }).next(
                ReplyView::Done(done),
            ) == LaunchGameView::Finished(Ok(()))
        }),
        step.finished() <==> step is Finished,
        step is Finished ==> step.next(reply) == step,
        step is LoadState && reply !is State ==> step.next(reply) == step,
        step is FindGame && reply !is Game ==> step.next(reply) == step,
        step is ExpandPath && reply !is Text ==> step.next(reply) == step,
        step is Open && reply !is Done ==> step.next(reply) == step,
        step is ArmWatcher && reply !is Done ==> step.next(reply) == step,
{
}

/// A switch takes the value that it is set to, on every game, and nothing else of the game
/// changes.
pub proof fn law_switch_takes_its_value(game: GameView, enabled: bool)
    ensures
        Switch::TrackChanges.set_in(game, enabled).track_changes == enabled,
        Switch::AutoSync.set_in(game, enabled).auto_sync == enabled,
        Switch::TrackChanges.set_in(game, enabled) == (GameView {
            track_changes: Switch::TrackChanges.set_in(game, enabled).track_changes,
            ..game
        }),
        Switch::AutoSync.set_in(game, enabled) == (GameView {
            auto_sync: Switch::AutoSync.set_in(game, enabled).auto_sync,
            ..game
        }),
{
}

/// What each reply makes of a switching. The stored state is what is shown. The watcher has a
/// part only in switching whether a game is watched: it is told the game and the value, and a
/// failure of it is the answer. A step waits for its own kind of reply, and from showing on,
/// the switching is a refresh.
pub proof fn law_toggle_follows_replies(
    game_id: Seq<char>,
    switch: Switch,
    enabled: bool,
    state: StateView,
    message: Seq<char>,
    refresh: RefreshView,
    step: ToggleView,
    reply: ReplyView,
)
    ensures
        ({
            let set = ToggleView::SetSwitch { game_id, switch, enabled };
            let watch = ToggleView::Watch { game_id, enabled, state };
            let show = ToggleView::Show(RefreshView::ApplyOverrides { state });
            let failed = ToggleView::Show(RefreshView::Finished(Err(message)));
            &&& switch == Switch::TrackChanges ==> set.next(ReplyView::State(Ok(state))) == watch
            &&& switch == Switch::AutoSync ==> set.next(ReplyView::State(Ok(state))) == show
            &&& set.next(ReplyView::State(Err(message))) == failed
            &&& watch.next(ReplyView::Done(Ok(()))) == show
            &&& watch.next(ReplyView::Done(Err(message))) == failed
        }),
        ToggleView::Show(refresh).next(reply) == ToggleView::Show(refresh.next(reply)),
        step is SetSwitch && reply !is State ==> step.next(reply) == step,
        step is Watch && reply !is Done ==> step.next(reply) == step,
        step.finished() <==> step is Show && step->Show_0 is Finished,
{
}

/// The values of the steps tell what the steps hold.
pub proof fn law_launch_values(launch: LaunchGame, toggle: Toggle)
    ensures
        match launch {
            LaunchGame::LoadState { game_id } => launch.deep_view() == (
            LaunchGameView::LoadState { game_id: game_id@ }),
            LaunchGame::FindGame { game_id, state } => launch.deep_view() == (
            LaunchGameView::FindGame { game_id: game_id@, state: state.deep_view() }),
            LaunchGame::ExpandPath { game_id, raw_path, process } => launch.deep_view() == (
            LaunchGameView::ExpandPath {
                game_id: game_id@,
                raw_path: raw_path@,
                process: process.deep_view(),
            }),
            LaunchGame::Open { game_id, path, process } => launch.deep_view() == (
            LaunchGameView::Open {
                game_id: game_id@,
                path: path@,
                process: process.deep_view(),
            }),
            LaunchGame::ArmWatcher { game_id, exe_name } => launch.deep_view() == (
            LaunchGameView::ArmWatcher { game_id: game_id@, exe_name: exe_name@ }),
            LaunchGame::Finished(result) => launch.deep_view() == LaunchGameView::Finished(
                crate::model::outcome(result),
            ),
        },
        match toggle {
            Toggle::SetSwitch { game_id, switch, enabled } => toggle.deep_view() == (
            ToggleView::SetSwitch { game_id: game_id@, switch, enabled }),
            Toggle::Watch { game_id, enabled, state } => toggle.deep_view() == (
            ToggleView::Watch { game_id: game_id@, enabled, state: state.deep_view() }),
            Toggle::Show(refresh) => toggle.deep_view() == ToggleView::Show(refresh.deep_view()),
        },
{
}

} // verus!
