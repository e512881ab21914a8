use game_sync::launch::{LaunchGame, Switch, Toggle};
use game_sync::model::{AppSettings, AppState, DashboardData, Game};
use game_sync::protocol::Reply;
use game_sync::refresh::Refresh;

fn text(value: &str) -> String {
    value.to_string()
}

fn some(value: &str) -> Option<String> {
    Some(value.to_string())
}

fn game(id: &str) -> Game {
    Game {
        id: text(id),
        name: text("Name of ") + id,
        save_paths: Vec::new(),
        gdrive_folder_id: None,
        exe_path: None,
        exe_name: None,
        track_changes: false,
        auto_sync: false,
        total_play_time_seconds: 7,
        cloud_storage_bytes: Some(11),
        last_cloud_modified: some("2024-05-01"),
        last_local_modified: some("stale"),
        other: text("{\"thumbnail\":\"x\"}"),
    }
}

fn settings() -> AppSettings {
    AppSettings { start_minimised: false, other: text("{}") }
}

fn state(games: Vec<Game>) -> AppState {
    AppState {
        games,
        settings: settings(),
        last_cloud_library_modified: some("2024-06-01"),
        other: text("{}"),
    }
}

fn playable() -> Game {
    let mut game = game("one");
    game.exe_path = some("%PROGRAMFILES%\\one.exe");
    game.exe_name = some("one.exe");
    game.track_changes = true;
    game
}

fn found(game: Game) -> LaunchGame {
    LaunchGame::launch_game(text("one"))
        .advance(Reply::State(Ok(state(vec![]))))
        .advance(Reply::Game(Ok(game)))
}

#[test]
fn watched_game_is_opened_and_watched() {
    let step = LaunchGame::launch_game(text("one"));
    assert_eq!(step, LaunchGame::LoadState { game_id: text("one") });
    let step = step.advance(Reply::State(Ok(state(vec![playable()]))));
    assert_eq!(
        step,
        LaunchGame::FindGame { game_id: text("one"), state: state(vec![playable()]) }
    );
    let step = step.advance(Reply::Game(Ok(playable())));
    assert_eq!(
        step,
        LaunchGame::ExpandPath {
            game_id: text("one"),
            raw_path: text("%PROGRAMFILES%\\one.exe"),
            process: some("one.exe"),
        }
    );
    let step = step.advance(Reply::Text(text("C:\\one.exe")));
    assert_eq!(
        step,
        LaunchGame::Open {
            game_id: text("one"),
            path: text("C:\\one.exe"),
            process: some("one.exe"),
        }
    );
    let step = step.advance(Reply::Done(Ok(())));
    assert_eq!(
        step,
        LaunchGame::ArmWatcher { game_id: text("one"), exe_name: text("one.exe") }
    );
    assert_eq!(step.advance(Reply::Done(Err(text("busy")))), LaunchGame::Finished(Ok(())));
}

#[test]
fn game_is_watched_only_with_a_name_and_tracking() {
    let mut untracked = playable();
    untracked.track_changes = false;
    let mut nameless = playable();
    nameless.exe_name = None;
    let mut empty = playable();
    empty.exe_name = some("");
    for game in [untracked, nameless, empty] {
        let step = found(game)
            .advance(Reply::Text(text("C:\\one.exe")))
            .advance(Reply::Done(Ok(())));
        assert_eq!(step, LaunchGame::Finished(Ok(())));
    }
}

#[test]
fn launch_refusals_have_their_reasons() {
    let start = LaunchGame::launch_game(text("one"));
    let step = start.advance(Reply::State(Err(text("broken"))));
    assert_eq!(step, LaunchGame::Finished(Err(text("broken"))));
    let step = LaunchGame::launch_game(text("one"))
        .advance(Reply::State(Ok(state(vec![]))))
        .advance(Reply::Game(Err(text("Game not found"))));
    assert_eq!(step, LaunchGame::Finished(Err(text("Game not found"))));
    assert_eq!(
        found(game("one")),
        LaunchGame::Finished(Err(text("No executable path configured for this game.")))
    );
    let step = found(playable())
        .advance(Reply::Text(text("C:\\one.exe")))
        .advance(Reply::Done(Err(text("denied"))));
    assert_eq!(step, LaunchGame::Finished(Err(text("Failed to launch game: denied"))));
}

#[test]
fn switches_change_one_field() {
    let mut switched = game("one");
    Switch::TrackChanges.set(&mut switched, true);
    let mut expected = game("one");
    expected.track_changes = true;
    assert_eq!(switched, expected);
    Switch::AutoSync.set(&mut switched, true);
    expected.auto_sync = true;
    assert_eq!(switched, expected);
    Switch::TrackChanges.set(&mut switched, true);
    assert_eq!(switched, expected);
    Switch::TrackChanges.set(&mut switched, false);
    Switch::AutoSync.set(&mut switched, false);
    assert_eq!(switched, game("one"));
}

#[test]
fn switching_the_watching_reaches_the_watcher() {
    let step = Toggle::toggle_track_changes(text("one"), true);
    assert_eq!(
        step,
        Toggle::SetSwitch { game_id: text("one"), switch: Switch::TrackChanges, enabled: true }
    );
    let step = step.advance(Reply::State(Ok(state(vec![game("one")]))));
    assert_eq!(
        step,
        Toggle::Watch { game_id: text("one"), enabled: true, state: state(vec![game("one")]) }
    );
    let step = step.advance(Reply::Done(Ok(())));
    let show = Refresh::ApplyOverrides { state: state(vec![game("one")]) };
    assert_eq!(step, Toggle::Show(show));
    let step = step.advance(Reply::Games(vec![game("one")]));
    let last = Refresh::Finished(Ok(DashboardData { games: vec![game("one")] }));
    assert_eq!(step, Toggle::Show(last));
}

#[test]
fn switching_failures_are_passed_on() {
    let step = Toggle::toggle_track_changes(text("one"), false)
        .advance(Reply::State(Err(text("Game not found"))));
    assert_eq!(step, Toggle::Show(Refresh::Finished(Err(text("Game not found")))));
    let step = Toggle::toggle_track_changes(text("one"), false)
        .advance(Reply::State(Ok(state(vec![]))))
        .advance(Reply::Done(Err(text("no watcher"))));
    assert_eq!(step, Toggle::Show(Refresh::Finished(Err(text("no watcher")))));
}

#[test]
fn switching_the_synchronisation_leaves_the_watcher_alone() {
    let step = Toggle::toggle_auto_sync(text("one"), true)
        .advance(Reply::State(Ok(state(vec![game("one")]))));
    let show = Refresh::ApplyOverrides { state: state(vec![game("one")]) };
    assert_eq!(step, Toggle::Show(show));
}
