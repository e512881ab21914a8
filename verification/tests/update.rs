use game_sync::model::{AppSettings, AppState, DashboardData, Game, SavePath};
use game_sync::protocol::Reply;
use game_sync::refresh::Refresh;
use game_sync::update::{plan_update, Cleanup, CleanupTask, UpdateGame, UpdatePlan};

fn text(value: &str) -> String {
    value.to_string()
}

fn some(value: &str) -> Option<String> {
    Some(value.to_string())
}

fn game(id: &str) -> Game {
    Game {
        id: text(id),
        name: text("Name of ") + id,
        save_paths: Vec::new(),
        gdrive_folder_id: None,
        exe_path: None,
        exe_name: None,
        track_changes: false,
        auto_sync: false,
        total_play_time_seconds: 7,
        cloud_storage_bytes: Some(11),
        last_cloud_modified: some("2024-05-01"),
        last_local_modified: some("stale"),
        other: text("{\"thumbnail\":\"x\"}"),
    }
}

fn settings() -> AppSettings {
    AppSettings { start_minimised: false, other: text("{}") }
}

fn state(games: Vec<Game>) -> AppState {
    AppState {
        games,
        settings: settings(),
        last_cloud_library_modified: some("2024-06-01"),
        other: text("{}"),
    }
}

fn path(includes: &[&str], folder: Option<&str>) -> SavePath {
    SavePath {
        sync_includes: includes.iter().map(|value| value.to_string()).collect(),
        gdrive_folder_id: folder.map(|value| value.to_string()),
        other: text("{\"path\":\"p\"}"),
    }
}

fn task(folder: &str, includes: &[&str]) -> CleanupTask {
    CleanupTask {
        folder_id: text(folder),
        includes: includes.iter().map(|value| value.to_string()).collect(),
    }
}

fn nothing() -> UpdatePlan {
    UpdatePlan { watch: None, cleanup: vec![] }
}

#[test]
fn unchanged_game_asks_for_nothing() {
    let mut old = game("one");
    old.gdrive_folder_id = some("root");
    old.track_changes = true;
    old.save_paths = vec![path(&["a"], None), path(&["b", "c"], Some("second"))];
    let mut new = game("one");
    new.name = text("Renamed");
    new.gdrive_folder_id = some("root");
    new.track_changes = true;
    new.save_paths = vec![path(&["a"], None), path(&["b", "c"], Some("second"))];
    assert_eq!(plan_update(Some(&old), &new), nothing());
}

#[test]
fn changed_lists_are_cleaned_in_order() {
    let mut old = game("one");
    old.save_paths = vec![
        path(&["a"], None),
        path(&["b"], Some("second")),
        path(&["c"], Some("third")),
        path(&["d"], Some("fourth")),
    ];
    let mut new = game("one");
    new.gdrive_folder_id = some("root");
    new.save_paths = vec![
        path(&["a2"], Some("ignored")),
        path(&["b"], Some("second")),
        path(&["c2"], None),
        path(&[], Some("fourth")),
        path(&["e"], Some("fifth")),
        path(&[], Some("sixth")),
    ];
    assert_eq!(
        plan_update(Some(&old), &new).cleanup,
        vec![task("root", &["a2"]), task("fourth", &[]), task("fifth", &["e"])]
    );
}

#[test]
fn first_folder_needs_the_folder_of_the_game() {
    let mut new = game("one");
    new.save_paths = vec![path(&["a"], Some("own"))];
    assert_eq!(plan_update(None, &new).cleanup, vec![]);
    new.gdrive_folder_id = some("root");
    assert_eq!(plan_update(None, &new).cleanup, vec![task("root", &["a"])]);
}

#[test]
fn watcher_follows_the_change() {
    let mut watched = game("one");
    watched.track_changes = true;
    let unwatched = game("one");
    assert_eq!(plan_update(Some(&unwatched), &watched).watch, Some(true));
    assert_eq!(plan_update(Some(&watched), &unwatched).watch, Some(false));
    assert_eq!(plan_update(Some(&watched), &watched).watch, None);
    assert_eq!(plan_update(None, &watched).watch, Some(true));
    assert_eq!(plan_update(None, &unwatched).watch, None);
}

fn changed() -> Game {
    let mut new = game("one");
    new.track_changes = true;
    new.gdrive_folder_id = some("root");
    new.save_paths = vec![path(&["a"], None)];
    new
}

#[test]
fn whole_change_goes_through_its_steps() {
    let step = UpdateGame::update_game(changed());
    assert_eq!(step, UpdateGame::ReadOld { game: changed() });
    let step = step.advance(Reply::State(Ok(state(vec![game("zero"), game("one")]))));
    let plan = UpdatePlan { watch: Some(true), cleanup: vec![task("root", &["a"])] };
    assert_eq!(step, UpdateGame::Store { game: changed(), plan });
    let step = step.advance(Reply::Done(Ok(())));
    assert_eq!(
        step,
        UpdateGame::Watch {
            game_id: text("one"),
            enabled: true,
            cleanup: vec![task("root", &["a"])]
        }
    );
    let step = step.advance(Reply::Done(Err(text("no watcher"))));
    assert_eq!(
        step,
        UpdateGame::StartCleanup { game_id: text("one"), cleanup: vec![task("root", &["a"])] }
    );
    let step = step.advance(Reply::Done(Ok(())));
    assert_eq!(step, UpdateGame::Show(Refresh::LoadState));
    let step = step.advance(Reply::State(Ok(state(vec![changed()]))));
    assert_eq!(step, UpdateGame::Show(Refresh::ApplyOverrides { state: state(vec![changed()]) }));
    let step = step.advance(Reply::Games(vec![changed()]));
    let last = Refresh::Finished(Ok(DashboardData { games: vec![changed()] }));
    assert_eq!(step, UpdateGame::Show(last));
    let last = Refresh::Finished(Ok(DashboardData { games: vec![changed()] }));
    assert_eq!(step.advance(Reply::Done(Ok(()))), UpdateGame::Show(last));
}

#[test]
fn game_that_cannot_be_stored_ends_the_change() {
    let step = UpdateGame::update_game(changed())
        .advance(Reply::State(Ok(state(vec![]))))
        .advance(Reply::Done(Err(text("disk full"))));
    assert_eq!(step, UpdateGame::Show(Refresh::Finished(Err(text("disk full")))));
}

#[test]
fn unreadable_old_state_counts_as_a_new_game() {
    let step = UpdateGame::update_game(changed()).advance(Reply::State(Err(text("broken"))));
    let plan = UpdatePlan { watch: Some(true), cleanup: vec![task("root", &["a"])] };
    assert_eq!(step, UpdateGame::Store { game: changed(), plan });
}

#[test]
fn plain_change_goes_straight_to_the_games() {
    let step = UpdateGame::update_game(game("one"))
        .advance(Reply::State(Ok(state(vec![game("one")]))))
        .advance(Reply::Done(Ok(())));
    assert_eq!(step, UpdateGame::Show(Refresh::LoadState));
}

#[test]
fn refresh_after_a_change() {
    assert_eq!(Refresh::after(Ok(())), Refresh::LoadState);
    assert_eq!(Refresh::after(Err(text("no"))), Refresh::Finished(Err(text("no"))));
    let failed = Refresh::LoadState.advance(Reply::State(Err(text("broken"))));
    assert_eq!(failed, Refresh::Finished(Err(text("broken"))));
    assert_eq!(Refresh::LoadState.advance(Reply::Done(Ok(()))), Refresh::LoadState);
}

#[test]
fn every_folder_is_cleaned_once() {
    let tasks = vec![task("f1", &["a"]), task("f2", &[])];
    let mut step = Cleanup::begin(text("one"), tasks);
    let mut cleaned: Vec<String> = Vec::new();
    while let Cleanup::Clean { game_id, .. } = &step {
        assert_eq!(game_id, "one");
        cleaned.push(step.task().unwrap().folder_id.clone());
        step = step.advance(Reply::Done(Err(text("offline"))));
    }
    assert_eq!(step, Cleanup::Finished);
    assert_eq!(step.task(), None);
    assert_eq!(cleaned, ["f1", "f2"]);
    assert_eq!(Cleanup::begin(text("one"), vec![]), Cleanup::Finished);
}
