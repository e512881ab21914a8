use game_sync::dashboard::Dashboard;
use game_sync::model::{AppSettings, AppState, DashboardData, Game};
use game_sync::protocol::Reply;

fn text(value: &str) -> String {
    value.to_string()
}

fn some(value: &str) -> Option<String> {
    Some(value.to_string())
}

fn game(id: &str) -> Game {
    Game {
        id: text(id),
        name: text("Name of ") + id,
        save_paths: Vec::new(),
        gdrive_folder_id: None,
        exe_path: None,
        exe_name: None,
        track_changes: false,
        auto_sync: false,
        total_play_time_seconds: 7,
        cloud_storage_bytes: Some(11),
        last_cloud_modified: some("2024-05-01"),
        last_local_modified: some("stale"),
        other: text("{\"thumbnail\":\"x\"}"),
    }
}

fn settings() -> AppSettings {
    AppSettings { start_minimised: false, other: text("{}") }
}

fn state(games: Vec<Game>) -> AppState {
    AppState {
        games,
        settings: settings(),
        last_cloud_library_modified: some("2024-06-01"),
        other: text("{}"),
    }
}

/// Runs the whole command: `folders` holds the save folders of each game, `modified` what the
/// scan of an expanded folder gives.
fn load(
    cloud: Result<bool, String>,
    loaded: Result<AppState, String>,
    folders: &[Vec<Option<String>>],
    modified: fn(&str) -> Option<String>,
) -> (Result<DashboardData, String>, Vec<String>) {
    let mut scanned: Vec<String> = Vec::new();
    let mut loaded = Some(loaded);
    let mut cloud = Some(cloud);
    let mut step = Dashboard::load_dashboard();
    loop {
        let reply = match &mut step {
            Dashboard::ReconcilePlaytime => Reply::Done(Err(text("offline"))),
            Dashboard::FetchLibrary => Reply::Answer(cloud.take().unwrap()),
            Dashboard::LoadState => Reply::State(loaded.take().unwrap()),
            Dashboard::ApplyOverrides { state } => {
                Reply::Games(std::mem::take(&mut state.games))
            }
            Dashboard::ListPaths { games, index, .. } => {
                let (place, id) = (*index, games[*index].id.clone());
                let (listed, kept) = step.listed().unwrap();
                assert_eq!(listed.id, id);
                assert_eq!(kept, &settings());
                Reply::Paths(folders[place].clone())
            }
            Dashboard::ExpandPath { .. } => {
                Reply::Text(format!("/expanded{}", step.path().unwrap()))
            }
            Dashboard::ScanFolder { folder, .. } => {
                scanned.push(folder.clone());
                Reply::Optional(modified(folder))
            }
            Dashboard::Finished(_) => break,
        };
        step = step.advance(reply);
    }
    match step {
        Dashboard::Finished(result) => (result, scanned),
        _ => unreachable!(),
    }
}

fn clock(folder: &str) -> Option<String> {
    match folder {
        "/expanded/a" => some("2024-01-01"),
        "/expanded/b" => some("2024-03-01"),
        "/expanded/c" => some("2024-02-01"),
        _ => None,
    }
}

#[test]
fn every_game_gets_its_newest_change() {
    let folders = vec![
        vec![some("/a"), None, some("/b"), some("/c")],
        vec![],
        vec![some("/missing"), some("/a")],
    ];
    let games = vec![game("one"), game("two"), game("three")];
    let (result, scanned) = load(Ok(true), Ok(state(games)), &folders, clock);
    let mut expected = vec![game("one"), game("two"), game("three")];
    expected[0].last_local_modified = some("2024-03-01");
    expected[1].last_local_modified = None;
    expected[2].last_local_modified = some("2024-01-01");
    assert_eq!(result, Ok(DashboardData { games: expected }));
    assert_eq!(
        scanned,
        ["/expanded/a", "/expanded/b", "/expanded/c", "/expanded/missing", "/expanded/a"]
    );
}

#[test]
fn order_of_the_folders_does_not_matter() {
    let paths = [some("/a"), some("/b"), some("/c"), None];
    for turn in 0..4 {
        let mut turned = paths.to_vec();
        turned.rotate_left(turn);
        let (result, _) = load(Ok(false), Ok(state(vec![game("one")])), &[turned], clock);
        assert_eq!(result.unwrap().games[0].last_local_modified, some("2024-03-01"));
    }
}

#[test]
fn cloud_failures_do_not_stop_the_dashboard() {
    let failed = load(Err(text("offline")), Ok(state(vec![game("one")])), &[vec![some("/a")]], clock);
    let fetched = load(Ok(true), Ok(state(vec![game("one")])), &[vec![some("/a")]], clock);
    assert_eq!(failed, fetched);
    assert!(failed.0.is_ok());
}

#[test]
fn unreadable_state_is_the_answer() {
    let (result, scanned) = load(Ok(true), Err(text("broken state")), &[], clock);
    assert_eq!(result, Err(text("broken state")));
    assert!(scanned.is_empty());
}

#[test]
fn empty_library_is_shown_empty() {
    let (result, _) = load(Ok(true), Ok(state(vec![])), &[], clock);
    assert_eq!(result, Ok(DashboardData { games: vec![] }));
}

#[test]
fn replies_of_another_kind_change_nothing() {
    let step = Dashboard::load_dashboard().advance(Reply::Text(text("stray")));
    assert_eq!(step, Dashboard::ReconcilePlaytime);
    let step = step.advance(Reply::Done(Ok(()))).advance(Reply::Done(Ok(())));
    assert_eq!(step, Dashboard::FetchLibrary);
}

#[test]
fn steps_name_the_game_and_the_folder() {
    let listing = Dashboard::ListPaths {
        games: vec![game("one"), game("two")],
        settings: settings(),
        index: 1,
    };
    assert_eq!(listing.listed(), Some((&game("two"), &settings())));
    assert_eq!(listing.path(), None);
    let expanding = listing.advance(Reply::Paths(vec![None, some("%HOME%/saves")]));
    assert_eq!(expanding.path(), Some(&text("%HOME%/saves")));
    assert_eq!(expanding.listed(), None);
    let scanning = expanding.advance(Reply::Text(text("/home/me/saves")));
    assert!(matches!(&scanning, Dashboard::ScanFolder { folder, .. } if folder == "/home/me/saves"));
    assert_eq!(scanning.path(), None);
    assert_eq!(Dashboard::load_dashboard().listed(), None);
}

#[test]
fn scan_that_points_past_the_games_ends() {
    let step = Dashboard::ListPaths { games: vec![game("one")], settings: settings(), index: 5 };
    assert_eq!(step.listed(), None);
    let step = step.advance(Reply::Paths(vec![None]));
    assert_eq!(step, Dashboard::Finished(Ok(DashboardData { games: vec![game("one")] })));
}
