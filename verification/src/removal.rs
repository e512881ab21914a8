//! Taking things away: a game with its Drive folder, or everything that is kept on Drive.

use vstd::prelude::*;

use crate::model::{
    position_of, AppState, DashboardView, Game, GameView, SavePath, SavePathView, StateView,
};
use crate::protocol::{Protocol, Reply, ReplyView, World};
use crate::refresh::{Refresh, RefreshView};
use crate::text::copy_text;

verus! {

/// The Drive folder of the game with this identifier, in a state that could perhaps not be
/// read.
pub open spec fn folder_of(
    state: Result<StateView, Seq<char>>,
    id: Seq<char>,
) -> Option<Seq<char>> {
    match state {
        Ok(state) => match crate::model::find_game(state.games, id) {
            Some(game) => game.gdrive_folder_id,
            None => None,
        },
        Err(_) => None,
    }
}

/// A step of removing a game.
#[derive(Debug, PartialEq, Eq)]
pub enum RemoveGame {
    /// Read the state as it is before the removal.
    ReadOld { game_id: String },
    /// Remove the game from the state.
    Remove { game_id: String, folder: Option<String> },
    /// Have the Drive folder of the game deleted in the background.
    StartFolderDeletion { folder_id: String },
    /// Show the games.
    Show(Refresh),
}

/// The value of a [`RemoveGame`].
pub enum RemoveGameView {
    ReadOld { game_id: Seq<char> },
    Remove { game_id: Seq<char>, folder: Option<Seq<char>> },
    StartFolderDeletion { folder_id: Seq<char> },
    Show(RefreshView),
}

impl DeepView for RemoveGame {
    type V = RemoveGameView;

    open spec fn deep_view(&self) -> RemoveGameView {
        match *self {
            RemoveGame::ReadOld { game_id } => RemoveGameView::ReadOld { game_id: game_id@ },
            RemoveGame::Remove { game_id, folder } => RemoveGameView::Remove {
                game_id: game_id@,
                folder: folder.deep_view(),
            },
            RemoveGame::StartFolderDeletion { folder_id } => {
                RemoveGameView::StartFolderDeletion { folder_id: folder_id@ }
            },
            RemoveGame::Show(refresh) => RemoveGameView::Show(refresh.deep_view()),
        }
    }
}

impl Protocol for RemoveGameView {
    open spec fn asks_for(self, reply: ReplyView) -> bool {
        match self {
            RemoveGameView::ReadOld { .. } => reply is State,
            RemoveGameView::Remove { .. } => reply is Done,
            RemoveGameView::StartFolderDeletion { .. } => reply is Done,
            RemoveGameView::Show(refresh) => refresh.asks_for(reply),
        }
    }

    open spec fn next(self, reply: ReplyView) -> RemoveGameView {
        match (self, reply) {
            (RemoveGameView::ReadOld { game_id }, ReplyView::State(state)) => {
                RemoveGameView::Remove { game_id, folder: folder_of(state, game_id) }
            },
            (RemoveGameView::Remove { .. }, ReplyView::Done(Err(message))) => {
                RemoveGameView::Show(RefreshView::Finished(Err(message)))
            },
            (RemoveGameView::Remove { folder, .. }, ReplyView::Done(Ok(_))) => match folder {
                Some(folder_id) => RemoveGameView::StartFolderDeletion { folder_id },
                None => RemoveGameView::Show(RefreshView::LoadState),
            },
            (RemoveGameView::StartFolderDeletion { .. }, ReplyView::Done(_)) => {
                RemoveGameView::Show(RefreshView::LoadState)
            },
            (RemoveGameView::Show(refresh), _) => RemoveGameView::Show(refresh.next(reply)),
            _ => self,
        }
    }

    open spec fn finished(self) -> bool {
        self matches RemoveGameView::Show(refresh) && refresh.finished()
    }

    proof fn law_other_replies_change_nothing(self, reply: ReplyView) {
    }

    proof fn law_finished_stays(self, reply: ReplyView) {
    }
}

impl RemoveGame {
    /// The first step of removing a game.
    pub fn remove_game(game_id: String) -> (step: Self)
        ensures
            step.deep_view() == (RemoveGameView::ReadOld { game_id: game_id@ }),
    {
        RemoveGame::ReadOld { game_id }
    }

    /// The step after this one.
    pub fn advance(self, reply: Reply) -> (step: Self)
        ensures
            step.deep_view() == self.deep_view().next(reply.deep_view()),
    {
        match self {
            RemoveGame::ReadOld { game_id } => match reply {
                Reply::State(Ok(state)) => {
                    let place = position_of(&state.games, &game_id);
                    let folder = if place < state.games.len() {
                        copy_text(&state.games[place].gdrive_folder_id)
                    } else {
                        None
                    };
                    RemoveGame::Remove { game_id, folder }
                },
                Reply::State(Err(_)) => RemoveGame::Remove { game_id, folder: None },
                _ => RemoveGame::ReadOld { game_id },
            },
            RemoveGame::Remove { game_id, folder } => match reply {
                Reply::Done(Err(message)) => RemoveGame::Show(Refresh::Finished(Err(message))),
                Reply::Done(Ok(())) => match folder {
                    Some(folder_id) => RemoveGame::StartFolderDeletion { folder_id },
                    None => RemoveGame::Show(Refresh::LoadState),
                },
                _ => RemoveGame::Remove { game_id, folder },
            },
            RemoveGame::StartFolderDeletion { folder_id } => match reply {
                Reply::Done(_) => RemoveGame::Show(Refresh::LoadState),
                _ => RemoveGame::StartFolderDeletion { folder_id },
            },
            RemoveGame::Show(refresh) => RemoveGame::Show(refresh.advance(reply)),
        }
    }
}

/// The steps of a whole removal, in order. The Drive folder is looked up before the game is
/// removed. It is deleted only where the game had one and could be removed; a game that cannot
/// be removed ends the command there, with the error.
pub proof fn law_removal_steps(game_id: Seq<char>, world: World<RemoveGameView>, count: nat)
    requires
        crate::protocol::cooperative(world),
        count >= 5,
    ensures
        ({
            let start = RemoveGameView::ReadOld { game_id };
            let folder = folder_of(world(start)->State_0, game_id);
            let remove = RemoveGameView::Remove { game_id, folder };
            let loaded = world(RemoveGameView::Show(RefreshView::LoadState))->State_0;
            let games = world(
                RemoveGameView::Show(RefreshView::ApplyOverrides { state: loaded->Ok_0 }),
            )->Games_0;
            crate::protocol::trace(start, world, count) == match world(remove)->Done_0 {
                Err(message) => seq![
                    start,
                    remove,
                    RemoveGameView::Show(RefreshView::Finished(Err(message))),
                ],
                Ok(_) => seq![start, remove] + (match folder {
                    Some(folder_id) => seq![RemoveGameView::StartFolderDeletion { folder_id }],
                    None => Seq::empty(),
                }) + crate::refresh::refresh_steps(loaded, games).map_values(
                    |step: RefreshView| RemoveGameView::Show(step),
                ),
            }
        }),
{
    reveal_with_fuel(crate::protocol::trace, 7);
    let start = RemoveGameView::ReadOld { game_id };
    assert(start.asks_for(world(start)));
    let remove = start.next(world(start));
    assert(remove.asks_for(world(remove)));
    let third = remove.next(world(remove));
    assert(third.asks_for(world(third)));
    let fourth = third.next(world(third));
    assert(fourth.asks_for(world(fourth)));
    let fifth = fourth.next(world(fourth));
    assert(fifth.asks_for(world(fifth)));
}

/// A save folder that nothing on Drive belongs to any more.
pub open spec fn cleared_path(path: SavePathView) -> SavePathView {
    SavePathView { gdrive_folder_id: None, ..path }
}

/// A game that nothing on Drive belongs to any more, neither its own folder nor one of a save
/// folder.
pub open spec fn cleared_game(game: GameView) -> GameView {
    GameView {
        save_paths: game.save_paths.map_values(|path: SavePathView| cleared_path(path)),
        gdrive_folder_id: None,
        total_play_time_seconds: 0,
        cloud_storage_bytes: None,
        last_cloud_modified: None,
        ..game
    }
}

/// A state that nothing on Drive belongs to any more.
pub open spec fn cleared(state: StateView) -> StateView {
    StateView {
        games: state.games.map_values(|game: GameView| cleared_game(game)),
        last_cloud_library_modified: None,
        ..state
    }
}

/// Clears what the save folders of a game say about Drive.
fn clear_save_paths(paths: &mut Vec<SavePath>)
    ensures
        final(paths).deep_view() == old(paths).deep_view().map_values(
            |path: SavePathView| cleared_path(path),
        ),
{
    let ghost before = paths.deep_view();
    let count: usize = paths.len();
    let mut i: usize = 0;
    while i < count
        invariant
            i <= count,
            count == paths@.len(),
            before.len() == count,
            forall|j: int|
                0 <= j < i ==> (#[trigger] paths@[j]).deep_view() == cleared_path(before[j]),
            forall|j: int| i <= j < count ==> (#[trigger] paths@[j]).deep_view() == before[j],
        decreases count - i,
    {
        let ghost old_paths = paths@;
        paths[i].gdrive_folder_id = None;
        assert(forall|j: int| 0 <= j < count && j != i ==> #[trigger] paths@[j] == old_paths[j]);
        i = i + 1;
    }
    assert(paths.deep_view() =~= before.map_values(|path: SavePathView| cleared_path(path)));
}

/// Clears what a game says about Drive.
fn clear_game(game: &mut Game)
    ensures
        final(game).deep_view() == cleared_game(old(game).deep_view()),
{
    clear_save_paths(&mut game.save_paths);
    game.gdrive_folder_id = None;
    game.total_play_time_seconds = 0;
    game.cloud_storage_bytes = None;
    game.last_cloud_modified = None;
}

/// Clears what a state says about Drive, in every game and its save folders and for the
/// library.
pub fn clear_cloud_metadata(state: &mut AppState)
    ensures
        final(state).deep_view() == cleared(old(state).deep_view()),
{
    let ghost before = state.deep_view();
    let count: usize = state.games.len();
    let mut i: usize = 0;
    while i < count
        invariant
            i <= count,
            count == state.games@.len(),
            before.games.len() == count,
            state.settings.deep_view() == before.settings,
            state.other@ == before.other,
            state.last_cloud_library_modified.deep_view() == before.last_cloud_library_modified,
            forall|j: int|
                0 <= j < i ==> (#[trigger] state.games@[j]).deep_view() == cleared_game(
                    before.games[j],
                ),
            forall|j: int|
                i <= j < count ==> (#[trigger] state.games@[j]).deep_view() == before.games[j],
        decreases count - i,
    {
        let ghost old_games = state.games@;
        clear_game(&mut state.games[i]);
        assert(forall|j: int|
            0 <= j < count && j != i ==> #[trigger] state.games@[j] == old_games[j]);
        i = i + 1;
    }
    state.last_cloud_library_modified = None;
    assert(state.games.deep_view() =~= cleared(before).games);
}

/// Clearing a state twice is clearing it once.
pub proof fn law_clearing_twice(state: StateView)
    ensures
        cleared(cleared(state)) == cleared(state),
{
    assert forall|i: int| 0 <= i < state.games.len() implies #[trigger] cleared(
        cleared(state),
    ).games[i] == cleared(state).games[i] by {
        assert(cleared(cleared(state)).games[i].save_paths =~= cleared(
            state,
        ).games[i].save_paths);
    }
    assert(cleared(cleared(state)).games =~= cleared(state).games);
}

/// A cleared state names no folder on Drive, and nothing else that the cloud gave: not for the
/// library, not for a game, not for a save folder of a game.
pub proof fn law_clearing_forgets_drive(state: StateView, place: int)
    requires
        0 <= place < state.games.len(),
    ensures
        cleared(state).last_cloud_library_modified is None,
        cleared(state).games[place].gdrive_folder_id is None,
        cleared(state).games[place].total_play_time_seconds == 0,
        cleared(state).games[place].cloud_storage_bytes is None,
        cleared(state).games[place].last_cloud_modified is None,
        forall|folder: int|
            0 <= folder < cleared(state).games[place].save_paths.len() ==> (#[trigger] cleared(
                state,
            ).games[place].save_paths[folder]).gdrive_folder_id is None,
        forall|folder: int|
            0 <= folder < state.games[place].save_paths.len() ==> #[trigger]
                crate::update::drive_folder(cleared(state).games[place], folder) is None,
{
}

/// Clearing keeps the games, their order and what they have on this device: their save
/// folders with what is synchronised of them, their executables, their local changes and how
/// they are watched and synchronised.
pub proof fn law_clearing_keeps_local_data(state: StateView, place: int)
    requires
        0 <= place < state.games.len(),
    ensures
        cleared(state).games.len() == state.games.len(),
        cleared(state).settings == state.settings,
        cleared(state).other == state.other,
        cleared(state).games[place].id == state.games[place].id,
        cleared(state).games[place].name == state.games[place].name,
        cleared(state).games[place].save_paths.len() == state.games[place].save_paths.len(),
        forall|folder: int|
            0 <= folder < state.games[place].save_paths.len() ==> {
                let path = #[trigger] cleared(state).games[place].save_paths[folder];
                &&& path.sync_includes == state.games[place].save_paths[folder].sync_includes
                &&& path.other == state.games[place].save_paths[folder].other
            },
        cleared(state).games[place].exe_path == state.games[place].exe_path,
        cleared(state).games[place].exe_name == state.games[place].exe_name,
        cleared(state).games[place].track_changes == state.games[place].track_changes,
        cleared(state).games[place].auto_sync == state.games[place].auto_sync,
        cleared(state).games[place].last_local_modified == state.games[place].last_local_modified,
        cleared(state).games[place].other == state.games[place].other,
{
}

/// A step of clearing Drive.
#[derive(Debug, PartialEq, Eq)]
pub enum ClearDrive {
    /// Find, or make, the root folder on Drive.
    EnsureRoot,
    /// Delete the root folder.
    DeleteRoot { folder_id: String },
    /// Read the state kept on this device.
    LoadState,
    /// Find out who is signed in.
    AskUser { state: AppState },
    /// Delete the document of the game at `index` from the cloud (see [`ClearDrive::document`]).
    DeleteDocument { state: AppState, user_id: String, index: usize },
    /// Store the state.
    Save { state: AppState },
    /// Show the games.
    Show(Refresh),
}

/// The value of a [`ClearDrive`].
pub enum ClearDriveView {
    EnsureRoot,
    DeleteRoot { folder_id: Seq<char> },
    LoadState,
    AskUser { state: StateView },
    DeleteDocument { state: StateView, user_id: Seq<char>, index: int },
    Save { state: StateView },
    Show(RefreshView),
}

impl DeepView for ClearDrive {
    type V = ClearDriveView;

    open spec fn deep_view(&self) -> ClearDriveView {
        match *self {
            ClearDrive::EnsureRoot => ClearDriveView::EnsureRoot,
            ClearDrive::DeleteRoot { folder_id } => ClearDriveView::DeleteRoot {
                folder_id: folder_id@,
            },
            ClearDrive::LoadState => ClearDriveView::LoadState,
            ClearDrive::AskUser { state } => ClearDriveView::AskUser { state: state.deep_view() },
            ClearDrive::DeleteDocument { state, user_id, index } => {
                ClearDriveView::DeleteDocument {
                    state: state.deep_view(),
                    user_id: user_id@,
                    index: index as int,
                }
            },
            ClearDrive::Save { state } => ClearDriveView::Save { state: state.deep_view() },
            ClearDrive::Show(refresh) => ClearDriveView::Show(refresh.deep_view()),
        }
    }
}

/// The step that deletes the document of the game at `index`; past the last game, the cleared
/// state is stored.
pub open spec fn at_document(state: StateView, user_id: Seq<char>, index: int) -> ClearDriveView {
    if 0 <= index < state.games.len() {
        ClearDriveView::DeleteDocument { state, user_id, index }
    } else {
        ClearDriveView::Save { state: cleared(state) }
    }
}

impl Protocol for ClearDriveView {
    open spec fn asks_for(self, reply: ReplyView) -> bool {
        match self {
            ClearDriveView::EnsureRoot => reply is Fallible,
            ClearDriveView::DeleteRoot { .. } => reply is Done,
            ClearDriveView::LoadState => reply is State,
            ClearDriveView::AskUser { .. } => reply is Optional,
            ClearDriveView::DeleteDocument { .. } => reply is Done,
            ClearDriveView::Save { .. } => reply is Done,
            ClearDriveView::Show(refresh) => refresh.asks_for(reply),
        }
    }

    open spec fn next(self, reply: ReplyView) -> ClearDriveView {
        match (self, reply) {
            (ClearDriveView::EnsureRoot, ReplyView::Fallible(Ok(folder_id))) => {
                ClearDriveView::DeleteRoot { folder_id }
            },
            (ClearDriveView::EnsureRoot, ReplyView::Fallible(Err(message))) => {
                ClearDriveView::Show(RefreshView::Finished(Err(message)))
            },
            (ClearDriveView::DeleteRoot { .. }, ReplyView::Done(Ok(_))) => {
                ClearDriveView::LoadState
            },
            (ClearDriveView::DeleteRoot { .. }, ReplyView::Done(Err(message))) => {
                ClearDriveView::Show(RefreshView::Finished(Err(message)))
            },
            (ClearDriveView::LoadState, ReplyView::State(Ok(state))) => {
                ClearDriveView::AskUser { state }
            },
            (ClearDriveView::LoadState, ReplyView::State(Err(message))) => {
                ClearDriveView::Show(RefreshView::Finished(Err(message)))
            },
            (ClearDriveView::AskUser { state }, ReplyView::Optional(user)) => match user {
                Some(user_id) => at_document(state, user_id, 0),
                None => ClearDriveView::Save { state: cleared(state) },
            },
            (ClearDriveView::DeleteDocument { state, user_id, index }, ReplyView::Done(_)) => {
                at_document(state, user_id, index + 1)
            },
            (ClearDriveView::Save { state }, ReplyView::Done(Ok(_))) => {
                ClearDriveView::Show(RefreshView::ApplyOverrides { state })
            },
            (ClearDriveView::Save { .. }, ReplyView::Done(Err(message))) => {
                ClearDriveView::Show(RefreshView::Finished(Err(message)))
            },
            (ClearDriveView::Show(refresh), _) => ClearDriveView::Show(refresh.next(reply)),
            _ => self,
        }
    }

    open spec fn finished(self) -> bool {
        self matches ClearDriveView::Show(refresh) && refresh.finished()
    }

    proof fn law_other_replies_change_nothing(self, reply: ReplyView) {
    }

    proof fn law_finished_stays(self, reply: ReplyView) {
    }
}

impl ClearDriveView {
    /// The user and the game whose document this step deletes.
    pub open spec fn names_document(self) -> Option<(Seq<char>, Seq<char>)> {
        match self {
            ClearDriveView::DeleteDocument { state, user_id, index } if 0 <= index
                < state.games.len() => Some((user_id, state.games[index].id)),
            _ => None,
        }
    }
}

/// Every deletion that a run reaches names a game of the state.
pub proof fn law_document_is_named(world: World<ClearDriveView>, count: nat)
    ensures
        ({
            let step = crate::protocol::run(ClearDriveView::EnsureRoot, world, count);
            step is DeleteDocument ==> step.names_document() is Some
        }),
    decreases count,
{
    if count > 0 {
        let first = ClearDriveView::EnsureRoot;
        crate::protocol::law_run_continues(first, world, (count - 1) as nat, 1);
        law_document_is_named(world, (count - 1) as nat);
        reveal_with_fuel(crate::protocol::run, 2);
    }
}

/// Goes on to store the cleared state.
fn begin_save(state: AppState) -> (step: ClearDrive)
    ensures
        step.deep_view() == (ClearDriveView::Save { state: cleared(state.deep_view()) }),
{
    let mut state = state;
    clear_cloud_metadata(&mut state);
    ClearDrive::Save { state }
}

impl ClearDrive {
    /// The first step of clearing Drive.
    pub fn clear_all_drive_data() -> (step: Self)
        ensures
            step.deep_view() == ClearDriveView::EnsureRoot,
    {
        ClearDrive::EnsureRoot
    }

    /// The user and the game whose document this step deletes, for a step that deletes one.
    pub fn document(&self) -> (named: Option<(&String, &String)>)
        ensures
            named.deep_view() == self.deep_view().names_document(),
    {
        match self {
            ClearDrive::DeleteDocument { state, user_id, index } => if *index < state.games.len() {
                Some((user_id, &state.games[*index].id))
            } else {
                None
            },
            _ => None,
        }
    }

    /// The step after this one.
    pub fn advance(self, reply: Reply) -> (step: Self)
        ensures
            step.deep_view() == self.deep_view().next(reply.deep_view()),
    {
        match self {
            ClearDrive::EnsureRoot => match reply {
                Reply::Fallible(Ok(folder_id)) => ClearDrive::DeleteRoot { folder_id },
                Reply::Fallible(Err(message)) => ClearDrive::Show(
                    Refresh::Finished(Err(message)),
                ),
                _ => ClearDrive::EnsureRoot,
            },
            ClearDrive::DeleteRoot { folder_id } => match reply {
                Reply::Done(Ok(())) => ClearDrive::LoadState,
                Reply::Done(Err(message)) => ClearDrive::Show(Refresh::Finished(Err(message))),
                _ => ClearDrive::DeleteRoot { folder_id },
            },
            ClearDrive::LoadState => match reply {
                Reply::State(Ok(state)) => ClearDrive::AskUser { state },
                Reply::State(Err(message)) => ClearDrive::Show(Refresh::Finished(Err(message))),
                _ => ClearDrive::LoadState,
            },
            ClearDrive::AskUser { state } => match reply {
                Reply::Optional(Some(user_id)) => if state.games.len() > 0 {
                    ClearDrive::DeleteDocument { state, user_id, index: 0 }
                } else {
                    begin_save(state)
                },
                Reply::Optional(None) => begin_save(state),
                _ => ClearDrive::AskUser { state },
            },
            ClearDrive::DeleteDocument { state, user_id, index } => match reply {
                Reply::Done(_) => if index < state.games.len() && index + 1 < state.games.len() {
                    ClearDrive::DeleteDocument { state, user_id, index: index + 1 }
                } else {
                    begin_save(state)
                },
                _ => ClearDrive::DeleteDocument { state, user_id, index },
            },
            ClearDrive::Save { state } => match reply {
                Reply::Done(Ok(())) => ClearDrive::Show(Refresh::ApplyOverrides { state }),
                Reply::Done(Err(message)) => ClearDrive::Show(Refresh::Finished(Err(message))),
                _ => ClearDrive::Save { state },
            },
            ClearDrive::Show(refresh) => ClearDrive::Show(refresh.advance(reply)),
        }
    }
}

/// The steps that delete the documents of the games from `from` on, in the order of the games.
pub open spec fn document_steps(
    state: StateView,
    user_id: Seq<char>,
    from: int,
) -> Seq<ClearDriveView> {
    Seq::new(
        (state.games.len() - from) as nat,
        |i: int| ClearDriveView::DeleteDocument { state, user_id, index: from + i },
    )
}

/// The steps from storing the cleared state on.
pub open spec fn save_steps(
    state: StateView,
    world: World<ClearDriveView>,
) -> Seq<ClearDriveView> {
    let save = ClearDriveView::Save { state };
    match world(save)->Done_0 {
        Err(message) => seq![save, ClearDriveView::Show(RefreshView::Finished(Err(message)))],
        Ok(_) => {
            let show = ClearDriveView::Show(RefreshView::ApplyOverrides { state });
            let games = world(show)->Games_0;
            seq![
                save,
                show,
                ClearDriveView::Show(RefreshView::Finished(Ok(DashboardView { games }))),
            ]
        },
    }
}

proof fn lemma_save_steps(state: StateView, world: World<ClearDriveView>, count: nat)
    requires
        crate::protocol::cooperative(world),
        count >= 2,
    ensures
        crate::protocol::trace(ClearDriveView::Save { state }, world, count) == save_steps(
            state,
            world,
        ),
{
    reveal_with_fuel(crate::protocol::trace, 4);
    let save = ClearDriveView::Save { state };
    assert(save.asks_for(world(save)));
    let show = save.next(world(save));
    assert(show.asks_for(world(show)));
}

proof fn lemma_document_steps(
    state: StateView,
    user_id: Seq<char>,
    from: int,
    world: World<ClearDriveView>,
    count: nat,
)
    requires
        crate::protocol::cooperative(world),
        0 <= from <= state.games.len(),
        count >= state.games.len() - from + 2,
    ensures
        crate::protocol::trace(at_document(state, user_id, from), world, count)
            == document_steps(state, user_id, from) + save_steps(cleared(state), world),
    decreases state.games.len() - from,
{
    let step = at_document(state, user_id, from);
    if from < state.games.len() {
        assert(step.asks_for(world(step)));
        lemma_document_steps(state, user_id, from + 1, world, (count - 1) as nat);
        assert(document_steps(state, user_id, from) =~= seq![step] + document_steps(
            state,
            user_id,
            from + 1,
        ));
        assert(crate::protocol::trace(step, world, count) =~= document_steps(
            state,
            user_id,
            from,
        ) + save_steps(cleared(state), world));
    } else {
        lemma_save_steps(cleared(state), world, count);
        assert(document_steps(state, user_id, from) =~= Seq::empty());
        assert(document_steps(state, user_id, from) + save_steps(cleared(state), world)
            =~= save_steps(cleared(state), world));
    }
}

/// The steps of clearing Drive, in order. Each of the first three failures ends the command
/// with its error, before anything on this device has changed. With somebody signed in, the
/// document of every game is deleted, each once and in the order of the games, whether or not
/// the others could be. What is stored is the cleared state, and what is shown are its games.
pub proof fn law_clear_steps(world: World<ClearDriveView>, count: nat)
    requires
        crate::protocol::cooperative(world),
        count >= 3,
        world(ClearDriveView::LoadState)->State_0 matches Ok(state) ==> count >= state.games.len()
            + 6,
    ensures
        ({
            let root = ClearDriveView::EnsureRoot;
            let delete = ClearDriveView::DeleteRoot { folder_id: world(root)->Fallible_0->Ok_0 };
            let load = ClearDriveView::LoadState;
            let state = world(load)->State_0->Ok_0;
            let ask = ClearDriveView::AskUser { state };
            crate::protocol::trace(root, world, count) == if world(root)->Fallible_0 is Err {
                seq![
                    root,
                    ClearDriveView::Show(
                        RefreshView::Finished(Err(world(root)->Fallible_0->Err_0)),
                    ),
                ]
            } else if world(delete)->Done_0 is Err {
                seq![
                    root,
                    delete,
                    ClearDriveView::Show(RefreshView::Finished(Err(world(delete)->Done_0->Err_0))),
                ]
            } else if world(load)->State_0 is Err {
                seq![
                    root,
                    delete,
                    load,
                    ClearDriveView::Show(RefreshView::Finished(Err(world(load)->State_0->Err_0))),
                ]
            } else {
                seq![root, delete, load, ask] + (match world(ask)->Optional_0 {
                    Some(user_id) => document_steps(state, user_id, 0),
                    None => Seq::empty(),
                }) + save_steps(cleared(state), world)
            }
        }),
{
    reveal_with_fuel(crate::protocol::trace, 5);
    let root = ClearDriveView::EnsureRoot;
    assert(root.asks_for(world(root)));
    if world(root)->Fallible_0 is Ok {
        let delete = root.next(world(root));
        assert(delete.asks_for(world(delete)));
        if world(delete)->Done_0 is Ok {
            let load = ClearDriveView::LoadState;
            assert(load.asks_for(world(load)));
            if world(load)->State_0 is Ok {
                let state = world(load)->State_0->Ok_0;
                let ask = load.next(world(load));
                assert(ask.asks_for(world(ask)));
                let rest = (count - 4) as nat;
                match world(ask)->Optional_0 {
                    Some(user_id) => {
                        lemma_document_steps(state, user_id, 0, world, rest);
                    },
                    None => {
                        lemma_save_steps(cleared(state), world, rest);
                    },
                }
            }
        }
    }
}

/// Which Drive folder goes with a removed game: the one that the game itself names, in the
/// first game of the state that has the identifier, whatever its save folders name. Once the
/// game is removed, that folder is deleted and the games are shown, whatever becomes of the
/// deletion. Without such a game, without a folder or without a state, the games are shown at
/// once. A game that cannot be removed keeps its folder, and the error is the answer.
pub proof fn law_removed_game_takes_its_folder_along(
    game_id: Seq<char>,
    state: StateView,
    place: int,
    message: Seq<char>,
    done: Result<(), Seq<char>>,
)
    requires
        0 <= place <= state.games.len(),
        forall|i: int| 0 <= i < place ==> (#[trigger] state.games[i]).id != game_id,
        place < state.games.len() ==> state.games[place].id == game_id,
    ensures
        ({
            let start = RemoveGameView::ReadOld { game_id };
            let remove = start.next(ReplyView::State(Ok(state)));
            let blind = start.next(ReplyView::State(Err(message)));
            let removed = remove.next(ReplyView::Done(Ok(())));
            let show = RemoveGameView::Show(RefreshView::LoadState);
            let failed = RemoveGameView::Show(RefreshView::Finished(Err(message)));
            let has_folder = place < state.games.len() && state.games[place].gdrive_folder_id
                is Some;
            &&& remove is Remove && remove->Remove_game_id == game_id
            &&& blind is Remove && blind->Remove_game_id == game_id
            &&& has_folder ==> removed == (RemoveGameView::StartFolderDeletion {
                folder_id: state.games[place].gdrive_folder_id->0,
            })
            &&& has_folder ==> removed.next(ReplyView::Done(done)) == show
            &&& !has_folder ==> removed == show
            &&& blind.next(ReplyView::Done(Ok(()))) == show
            &&& remove.next(ReplyView::Done(Err(message))) == failed
            &&& blind.next(ReplyView::Done(Err(message))) == failed
        }),
{
    crate::model::law_first_game_is_found(state.games, game_id, place);
}

/// What a step of the removal holds is what the next one acts on. A step waits for its own kind
/// of reply. From showing on, the removal is a refresh.
pub proof fn law_removal_waits(
    step: RemoveGameView,
    refresh: RefreshView,
    game_id: Seq<char>,
    folder: Option<Seq<char>>,
    reply: ReplyView,
)
    ensures
        (RemoveGameView::Remove { game_id, folder }).next(ReplyView::Done(Ok(()))) == match folder {
            Some(folder_id) => RemoveGameView::StartFolderDeletion { folder_id },
            None => RemoveGameView::Show(RefreshView::LoadState),
        },
        RemoveGameView::Show(refresh).next(reply) == RemoveGameView::Show(refresh.next(reply)),
        step is ReadOld && reply !is State ==> step.next(reply) == step,
        step is Remove && reply !is Done ==> step.next(reply) == step,
        step is StartFolderDeletion && reply !is Done ==> step.next(reply) == step,
        step.finished() <==> step is Show && step->Show_0 is Finished,
{
}

/// Clearing touches the state itself in one field, with or without games in it.
pub proof fn law_clearing_keeps_the_state(state: StateView)
    ensures
        cleared(state).last_cloud_library_modified is None,
        cleared(state).games.len() == state.games.len(),
        cleared(state).settings == state.settings,
        cleared(state).other == state.other,
{
}

/// What is deleted on Drive: the root folder that was found. Only after that is the state read,
/// and the user asked for. Each failure is the end, with its error.
pub proof fn law_root_is_deleted_first(
    root: Result<Seq<char>, Seq<char>>,
    folder_id: Seq<char>,
    message: Seq<char>,
    loaded: Result<StateView, Seq<char>>,
)
    ensures
        ClearDriveView::EnsureRoot.next(ReplyView::Fallible(root)) == match root {
            Ok(found) => ClearDriveView::DeleteRoot { folder_id: found },
            Err(reason) => ClearDriveView::Show(RefreshView::Finished(Err(reason))),
        },
        (ClearDriveView::DeleteRoot { folder_id }).next(ReplyView::Done(Ok(())))
            == ClearDriveView::LoadState,
        (ClearDriveView::DeleteRoot { folder_id }).next(ReplyView::Done(Err(message)))
            == ClearDriveView::Show(RefreshView::Finished(Err(message))),
        ClearDriveView::LoadState.next(ReplyView::State(loaded)) == match loaded {
            Ok(state) => ClearDriveView::AskUser { state },
            Err(reason) => ClearDriveView::Show(RefreshView::Finished(Err(reason))),
        },
{
}

/// Which documents are deleted: with somebody signed in, those of all games of the state, one
/// after the other, under that user, whatever became of the one before. After the last of
/// them, or at once where nobody is signed in or there is no game, the cleared state is stored.
pub proof fn law_every_document_is_deleted(
    state: StateView,
    user_id: Seq<char>,
    index: int,
    done: Result<(), Seq<char>>,
)
    ensures
        ({
            let ask = ClearDriveView::AskUser { state };
            let save = ClearDriveView::Save { state: cleared(state) };
            &&& ask.next(ReplyView::Optional(None)) == save
            &&& ask.next(ReplyView::Optional(Some(user_id))) == if state.games.len() > 0 {
                ClearDriveView::DeleteDocument { state, user_id, index: 0 }
            } else {
                save
            }
            &&& 0 <= index < state.games.len() ==> {
                let delete = ClearDriveView::DeleteDocument { state, user_id, index };
                &&& delete.names_document() == Some((user_id, state.games[index].id))
                &&& delete.next(ReplyView::Done(done)) == if index + 1 < state.games.len() {
                    ClearDriveView::DeleteDocument { state, user_id, index: index + 1 }
                } else {
                    save
                }
            }
        }),
{
}

/// What is stored is what is shown, once it could be stored. A step waits for its own kind of
/// reply. From showing on, the clearing is a refresh.
pub proof fn law_clearing_waits(
    step: ClearDriveView,
    state: StateView,
    message: Seq<char>,
    refresh: RefreshView,
    reply: ReplyView,
)
    ensures
        (ClearDriveView::Save { state }).next(ReplyView::Done(Ok(()))) == ClearDriveView::Show(
            RefreshView::ApplyOverrides { state },
        ),
        (ClearDriveView::Save { state }).next(ReplyView::Done(Err(message)))
            == ClearDriveView::Show(RefreshView::Finished(Err(message))),
        ClearDriveView::Show(refresh).next(reply) == ClearDriveView::Show(refresh.next(reply)),
        step is EnsureRoot && reply !is Fallible ==> step.next(reply) == step,
        step is DeleteRoot && reply !is Done ==> step.next(reply) == step,
        step is LoadState && reply !is State ==> step.next(reply) == step,
        step is AskUser && reply !is Optional ==> step.next(reply) == step,
        step is DeleteDocument && reply !is Done ==> step.next(reply) == step,
        step is Save && reply !is Done ==> step.next(reply) == step,
        step !is DeleteDocument ==> step.names_document() is None,
        step.finished() <==> step is Show && step->Show_0 is Finished,
{
}

/// The values of the steps tell what the steps hold.
pub proof fn law_removal_values(removal: RemoveGame, clearing: ClearDrive)
    ensures
        match removal {
            RemoveGame::ReadOld { game_id } => removal.deep_view() == (RemoveGameView::ReadOld {
                game_id: game_id@,
            }),
            RemoveGame::Remove { game_id, folder } => removal.deep_view() == (
            RemoveGameView::Remove { game_id: game_id@, folder: folder.deep_view() }),
            RemoveGame::StartFolderDeletion { folder_id } => removal.deep_view() == (
            RemoveGameView::StartFolderDeletion { folder_id: folder_id@ }),
            RemoveGame::Show(refresh) => removal.deep_view() == RemoveGameView::Show(
                refresh.deep_view(),
            ),
        },
        match clearing {
            ClearDrive::EnsureRoot => clearing.deep_view() == ClearDriveView::EnsureRoot,
            ClearDrive::DeleteRoot { folder_id } => clearing.deep_view() == (
            ClearDriveView::DeleteRoot { folder_id: folder_id@ }),
            ClearDrive::LoadState => clearing.deep_view() == ClearDriveView::LoadState,
            ClearDrive::AskUser { state } => clearing.deep_view() == (ClearDriveView::AskUser {
                state: state.deep_view(),
            }),
            ClearDrive::DeleteDocument { state, user_id, index } => clearing.deep_view() == (
            ClearDriveView::DeleteDocument {
                state: state.deep_view(),
                user_id: user_id@,
                index: index as int,
            }),
            ClearDrive::Save { state } => clearing.deep_view() == (ClearDriveView::Save {
                state: state.deep_view(),
            }),
            ClearDrive::Show(refresh) => clearing.deep_view() == ClearDriveView::Show(
                refresh.deep_view(),
            ),
        },
{
}

} // verus!
