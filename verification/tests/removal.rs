use game_sync::model::{position_of, AppSettings, AppState, DashboardData, Game, SavePath};
use game_sync::protocol::Reply;
use game_sync::refresh::Refresh;
use game_sync::removal::{clear_cloud_metadata, ClearDrive, RemoveGame};

fn text(value: &str) -> String {
    value.to_string()
}

fn some(value: &str) -> Option<String> {
    Some(value.to_string())
}

fn game(id: &str) -> Game {
    Game {
        id: text(id),
        name: text("Name of ") + id,
        save_paths: Vec::new(),
        gdrive_folder_id: None,
        exe_path: None,
        exe_name: None,
        track_changes: false,
        auto_sync: false,
        total_play_time_seconds: 7,
        cloud_storage_bytes: Some(11),
        last_cloud_modified: some("2024-05-01"),
        last_local_modified: some("stale"),
        other: text("{\"thumbnail\":\"x\"}"),
    }
}

fn settings() -> AppSettings {
    AppSettings { start_minimised: false, other: text("{}") }
}

fn state(games: Vec<Game>) -> AppState {
    AppState {
        games,
        settings: settings(),
        last_cloud_library_modified: some("2024-06-01"),
        other: text("{}"),
    }
}

fn on_drive(id: &str, folder: &str) -> Game {
    let mut game = game(id);
    game.gdrive_folder_id = some(folder);
    game
}

fn cleared(id: &str) -> Game {
    let mut game = game(id);
    game.gdrive_folder_id = None;
    game.total_play_time_seconds = 0;
    game.cloud_storage_bytes = None;
    game.last_cloud_modified = None;
    game
}

fn cleared_state() -> AppState {
    let mut all = state(vec![cleared("one"), cleared("two")]);
    all.last_cloud_library_modified = None;
    all
}

fn full_state() -> AppState {
    state(vec![on_drive("one", "f1"), on_drive("two", "f2")])
}

#[test]
fn first_game_with_the_identifier_is_found() {
    let mut games = vec![game("one"), game("two"), game("two")];
    games[2].name = text("Later");
    assert_eq!(position_of(&games, &text("two")), 1);
    assert_eq!(position_of(&games, &text("none")), 3);
    assert_eq!(position_of(&vec![], &text("none")), 0);
}

#[test]
fn removed_game_loses_its_folder() {
    let step = RemoveGame::remove_game(text("two"));
    let step = step.advance(Reply::State(Ok(full_state())));
    assert_eq!(step, RemoveGame::Remove { game_id: text("two"), folder: some("f2") });
    let step = step.advance(Reply::Done(Ok(())));
    assert_eq!(step, RemoveGame::StartFolderDeletion { folder_id: text("f2") });
    let step = step.advance(Reply::Done(Ok(())));
    assert_eq!(step, RemoveGame::Show(Refresh::LoadState));
}

#[test]
fn folder_stays_where_the_removal_fails() {
    let step = RemoveGame::remove_game(text("two"))
        .advance(Reply::State(Ok(full_state())))
        .advance(Reply::Done(Err(text("locked"))));
    assert_eq!(step, RemoveGame::Show(Refresh::Finished(Err(text("locked")))));
}

#[test]
fn game_without_a_folder_deletes_nothing_on_drive() {
    for old in [Ok(state(vec![game("two")])), Ok(state(vec![])), Err(text("broken"))] {
        let step = RemoveGame::remove_game(text("two")).advance(Reply::State(old));
        assert_eq!(step, RemoveGame::Remove { game_id: text("two"), folder: None });
        let step = step.advance(Reply::Done(Ok(())));
        assert_eq!(step, RemoveGame::Show(Refresh::LoadState));
    }
}

#[test]
fn clearing_touches_only_what_is_on_drive() {
    let mut all = full_state();
    clear_cloud_metadata(&mut all);
    assert_eq!(all, cleared_state());
    clear_cloud_metadata(&mut all);
    assert_eq!(all, cleared_state());
}

fn save_path(folder: Option<&str>) -> SavePath {
    SavePath {
        sync_includes: vec![text("*.sav"), text("profile")],
        gdrive_folder_id: folder.map(text),
        other: text("{\"path\":\"%HOME%\"}"),
    }
}

#[test]
fn clearing_forgets_the_drive_folders_of_save_folders() {
    let mut one = on_drive("one", "f1");
    one.save_paths = vec![save_path(None), save_path(Some("p1")), save_path(Some("p2"))];
    let mut two = game("two");
    two.save_paths = vec![save_path(Some("p3"))];
    let mut all = state(vec![one, two]);
    clear_cloud_metadata(&mut all);
    let mut expected = cleared_state();
    expected.games[0].save_paths = vec![save_path(None), save_path(None), save_path(None)];
    expected.games[1].save_paths = vec![save_path(None)];
    assert_eq!(all, expected);
    clear_cloud_metadata(&mut all);
    assert_eq!(all, expected);
}

#[test]
fn saved_state_knows_no_drive_folder() {
    let mut one = on_drive("one", "f1");
    one.save_paths = vec![save_path(Some("p1")), save_path(Some("p2"))];
    let step = ClearDrive::AskUser { state: state(vec![one]) }.advance(Reply::Optional(None));
    let mut expected = cleared("one");
    expected.save_paths = vec![save_path(None), save_path(None)];
    let mut kept = state(vec![expected]);
    kept.last_cloud_library_modified = None;
    assert_eq!(step, ClearDrive::Save { state: kept });
}

#[test]
fn clearing_deletes_every_document_then_saves() {
    let step = ClearDrive::clear_all_drive_data();
    assert_eq!(step, ClearDrive::EnsureRoot);
    let step = step.advance(Reply::Fallible(Ok(text("root"))));
    assert_eq!(step, ClearDrive::DeleteRoot { folder_id: text("root") });
    let step = step.advance(Reply::Done(Ok(())));
    assert_eq!(step, ClearDrive::LoadState);
    let step = step.advance(Reply::State(Ok(full_state())));
    assert_eq!(step, ClearDrive::AskUser { state: full_state() });
    let step = step.advance(Reply::Optional(some("me")));
    assert_eq!(
        step,
        ClearDrive::DeleteDocument { state: full_state(), user_id: text("me"), index: 0 }
    );
    assert_eq!(step.document(), Some((&text("me"), &text("one"))));
    let step = step.advance(Reply::Done(Err(text("offline"))));
    assert_eq!(
        step,
        ClearDrive::DeleteDocument { state: full_state(), user_id: text("me"), index: 1 }
    );
    assert_eq!(step.document(), Some((&text("me"), &text("two"))));
    let step = step.advance(Reply::Done(Ok(())));
    assert_eq!(step, ClearDrive::Save { state: cleared_state() });
    assert_eq!(step.document(), None);
    let step = step.advance(Reply::Done(Ok(())));
    assert_eq!(step, ClearDrive::Show(Refresh::ApplyOverrides { state: cleared_state() }));
    let step = step.advance(Reply::Games(cleared_state().games));
    let last = Refresh::Finished(Ok(DashboardData { games: cleared_state().games }));
    assert_eq!(step, ClearDrive::Show(last));
}

#[test]
fn clearing_without_a_user_saves_at_once() {
    let step = ClearDrive::AskUser { state: full_state() }.advance(Reply::Optional(None));
    assert_eq!(step, ClearDrive::Save { state: cleared_state() });
    let step = ClearDrive::AskUser { state: state(vec![]) }.advance(Reply::Optional(some("me")));
    let mut empty = state(vec![]);
    empty.last_cloud_library_modified = None;
    assert_eq!(step, ClearDrive::Save { state: empty });
}

#[test]
fn clearing_stops_at_the_first_failure() {
    let failed = |message: &str| ClearDrive::Show(Refresh::Finished(Err(text(message))));
    let step = ClearDrive::EnsureRoot.advance(Reply::Fallible(Err(text("no root"))));
    assert_eq!(step, failed("no root"));
    let step = ClearDrive::DeleteRoot { folder_id: text("root") }
        .advance(Reply::Done(Err(text("no delete"))));
    assert_eq!(step, failed("no delete"));
    let step = ClearDrive::LoadState.advance(Reply::State(Err(text("no state"))));
    assert_eq!(step, failed("no state"));
    let step = ClearDrive::Save { state: cleared_state() }
        .advance(Reply::Done(Err(text("no save"))));
    assert_eq!(step, failed("no save"));
}
