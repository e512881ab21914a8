//! The records that the commands read and change, each with the mathematical value it stands
//! for.
//!
//! A record has more fields than the commands read. Those travel along in `other`, as the text
//! of a JSON object, so that what is stored again is whole.

use vstd::prelude::*;

verus! {

/// One save folder of a game.
#[derive(Debug, PartialEq, Eq)]
pub struct SavePath {
    /// The files and folders to synchronise; an empty list means all of them.
    pub sync_includes: Vec<String>,
    /// The Drive folder that holds this save folder. The first save folder of a game lives in
    /// the game's own Drive folder instead.
    pub gdrive_folder_id: Option<String>,
    /// The other fields.
    pub other: String,
}

/// The value of a [`SavePath`].
pub struct SavePathView {
    pub sync_includes: Seq<Seq<char>>,
    pub gdrive_folder_id: Option<Seq<char>>,
    pub other: Seq<char>,
}

impl DeepView for SavePath {
    type V = SavePathView;

    open spec fn deep_view(&self) -> SavePathView {
        SavePathView {
            sync_includes: self.sync_includes.deep_view(),
            gdrive_folder_id: self.gdrive_folder_id.deep_view(),
            other: self.other@,
        }
    }
}

/// A game of the library.
#[derive(Debug, PartialEq, Eq)]
pub struct Game {
    pub id: String,
    pub name: String,
    pub save_paths: Vec<SavePath>,
    /// The Drive folder of the game, once it has been synchronised.
    pub gdrive_folder_id: Option<String>,
    pub exe_path: Option<String>,
    pub exe_name: Option<String>,
    /// Whether the running game is watched.
    pub track_changes: bool,
    pub auto_sync: bool,
    pub total_play_time_seconds: u64,
    pub cloud_storage_bytes: Option<u64>,
    pub last_cloud_modified: Option<String>,
    /// The newest change in any local save folder, found when the dashboard is loaded.
    pub last_local_modified: Option<String>,
    /// The other fields.
    pub other: String,
}

/// The value of a [`Game`].
pub struct GameView {
    pub id: Seq<char>,
    pub name: Seq<char>,
    pub save_paths: Seq<SavePathView>,
    pub gdrive_folder_id: Option<Seq<char>>,
    pub exe_path: Option<Seq<char>>,
    pub exe_name: Option<Seq<char>>,
    pub track_changes: bool,
    pub auto_sync: bool,
    pub total_play_time_seconds: u64,
    pub cloud_storage_bytes: Option<u64>,
    pub last_cloud_modified: Option<Seq<char>>,
    pub last_local_modified: Option<Seq<char>>,
    pub other: Seq<char>,
}

impl DeepView for Game {
    type V = GameView;

    open spec fn deep_view(&self) -> GameView {
        GameView {
            id: self.id@,
            name: self.name@,
            save_paths: self.save_paths.deep_view(),
            gdrive_folder_id: self.gdrive_folder_id.deep_view(),
            exe_path: self.exe_path.deep_view(),
            exe_name: self.exe_name.deep_view(),
            track_changes: self.track_changes,
            auto_sync: self.auto_sync,
            total_play_time_seconds: self.total_play_time_seconds,
            cloud_storage_bytes: self.cloud_storage_bytes,
            last_cloud_modified: self.last_cloud_modified.deep_view(),
            last_local_modified: self.last_local_modified.deep_view(),
            other: self.other@,
        }
    }
}

/// The settings of this device.
#[derive(Debug, PartialEq, Eq)]
pub struct AppSettings {
    /// Whether the main window stays hidden when the application starts.
    pub start_minimised: bool,
    /// The other fields, the path overrides of this device among them.
    pub other: String,
}

/// The value of an [`AppSettings`].
pub struct SettingsView {
    pub start_minimised: bool,
    pub other: Seq<char>,
}

impl DeepView for AppSettings {
    type V = SettingsView;

    open spec fn deep_view(&self) -> SettingsView {
        SettingsView { start_minimised: self.start_minimised, other: self.other@ }
    }
}

/// What the application keeps on this device.
#[derive(Debug, PartialEq, Eq)]
pub struct AppState {
    pub games: Vec<Game>,
    pub settings: AppSettings,
    /// When the library in the cloud last changed.
    pub last_cloud_library_modified: Option<String>,
    /// The other fields.
    pub other: String,
}

/// The value of an [`AppState`].
pub struct StateView {
    pub games: Seq<GameView>,
    pub settings: SettingsView,
    pub last_cloud_library_modified: Option<Seq<char>>,
    pub other: Seq<char>,
}

impl DeepView for AppState {
    type V = StateView;

    open spec fn deep_view(&self) -> StateView {
        StateView {
            games: self.games.deep_view(),
            settings: self.settings.deep_view(),
            last_cloud_library_modified: self.last_cloud_library_modified.deep_view(),
            other: self.other@,
        }
    }
}

/// What the dashboard shows.
#[derive(Debug, PartialEq, Eq)]
pub struct DashboardData {
    pub games: Vec<Game>,
}

/// The value of a [`DashboardData`].
pub struct DashboardView {
    pub games: Seq<GameView>,
}

impl DeepView for DashboardData {
    type V = DashboardView;

    open spec fn deep_view(&self) -> DashboardView {
        DashboardView { games: self.games.deep_view() }
    }
}

/// The value of an outcome: the value of what it carries, or the text of its error.
pub open spec fn outcome<T: DeepView>(result: Result<T, String>) -> Result<T::V, Seq<char>> {
    match result {
        Ok(value) => Ok(value.deep_view()),
        Err(message) => Err(message@),
    }
}

/// The first game with this identifier.
pub open spec fn find_game(games: Seq<GameView>, id: Seq<char>) -> Option<GameView>
    decreases games.len(),
{
    if games.len() == 0 {
        None
    } else if games[0].id == id {
        Some(games[0])
    } else {
        find_game(games.drop_first(), id)
    }
}

/// The place of the first game with this identifier, or `games.len()` where there is none.
pub fn position_of(games: &Vec<Game>, id: &String) -> (place: usize)
    ensures
        place <= games@.len(),
        forall|i: int| 0 <= i < place ==> (#[trigger] games@[i]).id@ != id@,
        place < games@.len() ==> games@[place as int].id@ == id@,
        find_game(games.deep_view(), id@) == if place < games@.len() {
            Some(games@[place as int].deep_view())
        } else {
            None
        },
{
    let ghost all = games.deep_view();
    let mut i: usize = 0;
    assert(all.skip(0) =~= all);
    while i < games.len()
        invariant
            i <= games@.len(),
            all == games.deep_view(),
            forall|j: int| 0 <= j < i ==> (#[trigger] games@[j]).id@ != id@,
            find_game(all, id@) == find_game(all.skip(i as int), id@),
        decreases games@.len() - i,
    {
        if games[i].id == *id {
            assert(all.skip(i as int)[0] == games@[i as int].deep_view());
            return i;
        }
        assert(all.skip(i as int).drop_first() =~= all.skip(i + 1));
        i = i + 1;
    }
    i
}

/// The game that is found is the first one with the identifier: all games before it have
/// another. Where all games have another, none is found.
pub proof fn law_first_game_is_found(games: Seq<GameView>, id: Seq<char>, place: int)
    requires
        0 <= place <= games.len(),
        forall|i: int| 0 <= i < place ==> (#[trigger] games[i]).id != id,
        place < games.len() ==> games[place].id == id,
    ensures
        find_game(games, id) == if place < games.len() {
            Some(games[place])
        } else {
            None
        },
    decreases games.len(),
{
    if place > 0 {
        assert(games[0].id != id);
        assert forall|i: int| 0 <= i < place - 1 implies (#[trigger] games.drop_first()[i]).id
            != id by {
            assert(games.drop_first()[i] == games[i + 1]);
        }
        law_first_game_is_found(games.drop_first(), id, place - 1);
    }
}

/// The value of a save folder holds each of its fields as it is.
pub proof fn law_save_path_value(path: SavePath)
    ensures
        path.deep_view().sync_includes == path.sync_includes.deep_view(),
        path.deep_view().gdrive_folder_id == path.gdrive_folder_id.deep_view(),
        path.deep_view().other == path.other@,
{
}

/// The value of a game holds each of its fields as it is.
pub proof fn law_game_value(game: Game)
    ensures
        game.deep_view().id == game.id@,
        game.deep_view().name == game.name@,
        game.deep_view().save_paths == game.save_paths.deep_view(),
        game.deep_view().gdrive_folder_id == game.gdrive_folder_id.deep_view(),
        game.deep_view().exe_path == game.exe_path.deep_view(),
        game.deep_view().exe_name == game.exe_name.deep_view(),
        game.deep_view().track_changes == game.track_changes,
        game.deep_view().auto_sync == game.auto_sync,
        game.deep_view().total_play_time_seconds == game.total_play_time_seconds,
        game.deep_view().cloud_storage_bytes == game.cloud_storage_bytes,
        game.deep_view().last_cloud_modified == game.last_cloud_modified.deep_view(),
        game.deep_view().last_local_modified == game.last_local_modified.deep_view(),
        game.deep_view().other == game.other@,
{
}

/// The value of a state holds each of its fields as it is, and so does that of its settings.
pub proof fn law_state_value(state: AppState)
    ensures
        state.deep_view().games == state.games.deep_view(),
        state.deep_view().settings.start_minimised == state.settings.start_minimised,
        state.deep_view().settings.other == state.settings.other@,
        state.deep_view().last_cloud_library_modified
            == state.last_cloud_library_modified.deep_view(),
        state.deep_view().other == state.other@,
{
}

/// The value of a dashboard holds its games, in their order.
pub proof fn law_dashboard_value(data: DashboardData)
    ensures
        data.deep_view().games == data.games.deep_view(),
{
}

/// The value of an outcome is a success exactly where the outcome is one, and tells what it
/// carries.
pub proof fn law_outcome_value<T: DeepView>(result: Result<T, String>)
    ensures
        result matches Ok(value) ==> outcome(result) == Ok::<T::V, Seq<char>>(value.deep_view()),
        result matches Err(message) ==> outcome(result) == Err::<T::V, Seq<char>>(message@),
{
}

} // verus!
