//! Changing a game: what the change means for the watcher and for the files on Drive.

use vstd::prelude::*;

use crate::model::{position_of, Game, GameView, StateView};
use crate::protocol::{Protocol, Reply, ReplyView, World};
use crate::refresh::{Refresh, RefreshView};
use crate::text::{copy_text, copy_texts, same_texts};

verus! {

/// A Drive folder to clean: the files that the list does not cover are to be removed.
#[derive(Debug, PartialEq, Eq)]
pub struct CleanupTask {
    pub folder_id: String,
    pub includes: Vec<String>,
}

/// The value of a [`CleanupTask`].
pub struct CleanupTaskView {
    pub folder_id: Seq<char>,
    pub includes: Seq<Seq<char>>,
}

impl DeepView for CleanupTask {
    type V = CleanupTaskView;

    open spec fn deep_view(&self) -> CleanupTaskView {
        CleanupTaskView { folder_id: self.folder_id@, includes: self.includes.deep_view() }
    }
}

/// What a change of a game asks for once the game is stored.
#[derive(Debug, PartialEq, Eq)]
pub struct UpdatePlan {
    /// Whether the watcher has to be started or stopped, and which.
    pub watch: Option<bool>,
    /// The Drive folders to clean, in the order of the save folders.
    pub cleanup: Vec<CleanupTask>,
}

/// The value of an [`UpdatePlan`].
pub struct UpdatePlanView {
    pub watch: Option<bool>,
    pub cleanup: Seq<CleanupTaskView>,
}

impl DeepView for UpdatePlan {
    type V = UpdatePlanView;

    open spec fn deep_view(&self) -> UpdatePlanView {
        UpdatePlanView { watch: self.watch, cleanup: self.cleanup.deep_view() }
    }
}

/// Whether the game was watched; a game that was not there was not.
pub open spec fn was_watched(old: Option<GameView>) -> bool {
    match old {
        Some(game) => game.track_changes,
        None => false,
    }
}

/// The inclusion list that the save folder at `place` had; empty where there was none.
pub open spec fn old_includes(old: Option<GameView>, place: int) -> Seq<Seq<char>> {
    match old {
        Some(game) if 0 <= place < game.save_paths.len() => game.save_paths[place].sync_includes,
        _ => Seq::empty(),
    }
}

/// The Drive folder of the save folder at `place`: the game's own for the first one.
pub open spec fn drive_folder(game: GameView, place: int) -> Option<Seq<char>> {
    if place == 0 {
        game.gdrive_folder_id
    } else {
        game.save_paths[place].gdrive_folder_id
    }
}

/// What the save folder at `place` asks for: a cleanup where its inclusion list changed and its
/// Drive folder exists.
pub open spec fn cleanup_at(
    old: Option<GameView>,
    game: GameView,
    place: int,
) -> Option<CleanupTaskView> {
    let includes = game.save_paths[place].sync_includes;
    if includes == old_includes(old, place) {
        None
    } else {
        match drive_folder(game, place) {
            Some(folder_id) => Some(CleanupTaskView { folder_id, includes }),
            None => None,
        }
    }
}

/// What the first `count` save folders ask for, in their order.
pub open spec fn cleanup_tasks(
    old: Option<GameView>,
    game: GameView,
    count: int,
) -> Seq<CleanupTaskView>
    decreases count,
{
    if count <= 0 {
        Seq::empty()
    } else {
        let before = cleanup_tasks(old, game, count - 1);
        match cleanup_at(old, game, count - 1) {
            Some(task) => before.push(task),
            None => before,
        }
    }
}

/// What the change from `old` to `game` asks for.
pub open spec fn plan(old: Option<GameView>, game: GameView) -> UpdatePlanView {
    UpdatePlanView {
        watch: if game.track_changes != was_watched(old) {
            Some(game.track_changes)
        } else {
            None
        },
        cleanup: cleanup_tasks(old, game, game.save_paths.len() as int),
    }
}

/// The game with this identifier in a state that could perhaps not be read.
pub open spec fn old_game(
    state: Result<StateView, Seq<char>>,
    id: Seq<char>,
) -> Option<GameView> {
    match state {
        Ok(state) => crate::model::find_game(state.games, id),
        Err(_) => None,
    }
}

/// Works out what a change of a game asks for.
pub fn plan_update(old: Option<&Game>, game: &Game) -> (result: UpdatePlan)
    ensures
        result.deep_view() == plan(old.deep_view(), game.deep_view()),
{
    let watched = match old {
        Some(o) => o.track_changes,
        None => false,
    };
    let watch = if game.track_changes != watched {
        Some(game.track_changes)
    } else {
        None
    };
    let none: Vec<String> = Vec::new();
    let mut cleanup: Vec<CleanupTask> = Vec::new();
    let ghost before = old.deep_view();
    let ghost after = game.deep_view();
    assert(cleanup.deep_view() =~= cleanup_tasks(before, after, 0));
    let mut i: usize = 0;
    while i < game.save_paths.len()
        invariant
            i <= game.save_paths@.len(),
            before == old.deep_view(),
            after == game.deep_view(),
            none@.len() == 0,
            cleanup.deep_view() == cleanup_tasks(before, after, i as int),
        decreases game.save_paths@.len() - i,
    {
        let entry = &game.save_paths[i];
        let includes = match old {
            Some(o) => if i < o.save_paths.len() {
                &o.save_paths[i].sync_includes
            } else {
                &none
            },
            None => &none,
        };
        assert(includes.deep_view() =~= old_includes(before, i as int));
        assert(after.save_paths[i as int] == entry.deep_view());
        let ghost done = cleanup.deep_view();
        if !same_texts(&entry.sync_includes, includes) {
            let folder = if i == 0 {
                copy_text(&game.gdrive_folder_id)
            } else {
                copy_text(&entry.gdrive_folder_id)
            };
            if let Some(folder_id) = folder {
                let task = CleanupTask { folder_id, includes: copy_texts(&entry.sync_includes) };
                let ghost value = task.deep_view();
                cleanup.push(task);
                assert(cleanup.deep_view() =~= done.push(value));
            }
        }
        i = i + 1;
    }
    UpdatePlan { watch, cleanup }
}

/// A step of changing a game.
#[derive(Debug, PartialEq, Eq)]
pub enum UpdateGame {
    /// Read the state as it is before the change.
    ReadOld { game: Game },
    /// Store the game.
    Store { game: Game, plan: UpdatePlan },
    /// Start or stop the watcher of the game.
    Watch { game_id: String, enabled: bool, cleanup: Vec<CleanupTask> },
    /// Have the folders cleaned in the background, one after the other.
    StartCleanup { game_id: String, cleanup: Vec<CleanupTask> },
    /// Show the games.
    Show(Refresh),
}

/// The value of an [`UpdateGame`].
pub enum UpdateGameView {
    ReadOld { game: GameView },
    Store { game: GameView, plan: UpdatePlanView },
    Watch { game_id: Seq<char>, enabled: bool, cleanup: Seq<CleanupTaskView> },
    StartCleanup { game_id: Seq<char>, cleanup: Seq<CleanupTaskView> },
    Show(RefreshView),
}

impl DeepView for UpdateGame {
    type V = UpdateGameView;

    open spec fn deep_view(&self) -> UpdateGameView {
        match *self {
            UpdateGame::ReadOld { game } => UpdateGameView::ReadOld { game: game.deep_view() },
            UpdateGame::Store { game, plan } => UpdateGameView::Store {
                game: game.deep_view(),
                plan: plan.deep_view(),
            },
            UpdateGame::Watch { game_id, enabled, cleanup } => UpdateGameView::Watch {
                game_id: game_id@,
                enabled,
                cleanup: cleanup.deep_view(),
            },
            UpdateGame::StartCleanup { game_id, cleanup } => UpdateGameView::StartCleanup {
                game_id: game_id@,
                cleanup: cleanup.deep_view(),
            },
            UpdateGame::Show(refresh) => UpdateGameView::Show(refresh.deep_view()),
        }
    }
}

/// The step that sees to the cleanup, where there is one to do.
pub open spec fn at_cleanup(
    game_id: Seq<char>,
    cleanup: Seq<CleanupTaskView>,
) -> UpdateGameView {
    if cleanup.len() > 0 {
        UpdateGameView::StartCleanup { game_id, cleanup }
    } else {
        UpdateGameView::Show(RefreshView::LoadState)
    }
}

impl Protocol for UpdateGameView {
    open spec fn asks_for(self, reply: ReplyView) -> bool {
        match self {
            UpdateGameView::ReadOld { .. } => reply is State,
            UpdateGameView::Store { .. } => reply is Done,
            UpdateGameView::Watch { .. } => reply is Done,
            UpdateGameView::StartCleanup { .. } => reply is Done,
            UpdateGameView::Show(refresh) => refresh.asks_for(reply),
        }
    }

    open spec fn next(self, reply: ReplyView) -> UpdateGameView {
        match (self, reply) {
            (UpdateGameView::ReadOld { game }, ReplyView::State(state)) => UpdateGameView::Store {
                game,
                plan: plan(old_game(state, game.id), game),
            },
            (UpdateGameView::Store { .. }, ReplyView::Done(Err(message))) => {
                UpdateGameView::Show(RefreshView::Finished(Err(message)))
            },
            (UpdateGameView::Store { game, plan }, ReplyView::Done(Ok(_))) => match plan.watch {
                Some(enabled) => UpdateGameView::Watch {
                    game_id: game.id,
                    enabled,
                    cleanup: plan.cleanup,
                },
                None => at_cleanup(game.id, plan.cleanup),
            },
            (UpdateGameView::Watch { game_id, cleanup, .. }, ReplyView::Done(_)) => {
                at_cleanup(game_id, cleanup)
            },
            (UpdateGameView::StartCleanup { .. }, ReplyView::Done(_)) => {
                UpdateGameView::Show(RefreshView::LoadState)
            },
            (UpdateGameView::Show(refresh), _) => UpdateGameView::Show(refresh.next(reply)),
            _ => self,
        }
    }

    open spec fn finished(self) -> bool {
        self matches UpdateGameView::Show(refresh) && refresh.finished()
    }

    proof fn law_other_replies_change_nothing(self, reply: ReplyView) {
    }

    proof fn law_finished_stays(self, reply: ReplyView) {
    }
}

/// Sees to the cleanup, where there is one to do.
fn begin_cleanup(game_id: String, cleanup: Vec<CleanupTask>) -> (step: UpdateGame)
    ensures
        step.deep_view() == at_cleanup(game_id@, cleanup.deep_view()),
{
    if cleanup.len() > 0 {
        UpdateGame::StartCleanup { game_id, cleanup }
    } else {
        UpdateGame::Show(Refresh::LoadState)
    }
}

impl UpdateGame {
    /// The first step of changing a game.
    pub fn update_game(game: Game) -> (step: Self)
        ensures
            step.deep_view() == (UpdateGameView::ReadOld { game: game.deep_view() }),
    {
        UpdateGame::ReadOld { game }
    }

    /// The step after this one.
    pub fn advance(self, reply: Reply) -> (step: Self)
        ensures
            step.deep_view() == self.deep_view().next(reply.deep_view()),
    {
        match self {
            UpdateGame::ReadOld { game } => match reply {
                Reply::State(Ok(state)) => {
                    let place = position_of(&state.games, &game.id);
                    let old = if place < state.games.len() {
                        Some(&state.games[place])
                    } else {
                        None
                    };
                    let plan = plan_update(old, &game);
                    UpdateGame::Store { game, plan }
                },
                Reply::State(Err(_)) => {
                    let plan = plan_update(None, &game);
                    UpdateGame::Store { game, plan }
                },
                _ => UpdateGame::ReadOld { game },
            },
            UpdateGame::Store { game, plan } => match reply {
                Reply::Done(Err(message)) => UpdateGame::Show(Refresh::Finished(Err(message))),
                Reply::Done(Ok(())) => match plan.watch {
                    Some(enabled) => UpdateGame::Watch {
                        game_id: game.id,
                        enabled,
                        cleanup: plan.cleanup,
                    },
                    None => begin_cleanup(game.id, plan.cleanup),
                },
                _ => UpdateGame::Store { game, plan },
            },
            UpdateGame::Watch { game_id, enabled, cleanup } => match reply {
                Reply::Done(_) => begin_cleanup(game_id, cleanup),
                _ => UpdateGame::Watch { game_id, enabled, cleanup },
            },
            UpdateGame::StartCleanup { game_id, cleanup } => match reply {
                Reply::Done(_) => UpdateGame::Show(Refresh::LoadState),
                _ => UpdateGame::StartCleanup { game_id, cleanup },
            },
            UpdateGame::Show(refresh) => UpdateGame::Show(refresh.advance(reply)),
        }
    }
}

proof fn lemma_cleanup_members(old: Option<GameView>, game: GameView, count: int)
    requires
        0 <= count,
    ensures
        forall|task: CleanupTaskView|
            cleanup_tasks(old, game, count).contains(task) <==> exists|place: int|
                0 <= place < count && #[trigger] cleanup_at(old, game, place) == Some(task),
        cleanup_tasks(old, game, count).len() <= count,
    decreases count,
{
    if count > 0 {
        lemma_cleanup_members(old, game, count - 1);
        let before = cleanup_tasks(old, game, count - 1);
        let after = cleanup_tasks(old, game, count);
        assert forall|task: CleanupTaskView|
            after.contains(task) <==> exists|place: int|
                0 <= place < count && #[trigger] cleanup_at(old, game, place) == Some(task) by {
            if after.contains(task) {
                let k = choose|k: int| 0 <= k < after.len() && after[k] == task;
                if k < before.len() {
                    assert(before[k] == task);
                    assert(before.contains(task));
                } else {
                    assert(cleanup_at(old, game, count - 1) == Some(task));
                }
            }
            if exists|place: int|
                0 <= place < count && #[trigger] cleanup_at(old, game, place) == Some(task) {
                let place = choose|place: int|
                    0 <= place < count && #[trigger] cleanup_at(old, game, place) == Some(task);
                if place < count - 1 {
                    assert(before.contains(task));
                    let k = choose|k: int| 0 <= k < before.len() && before[k] == task;
                    assert(after[k] == task);
                } else {
                    assert(after[after.len() - 1] == task);
                }
            }
        }
    }
}

/// A folder is cleaned exactly where the inclusion list of a save folder changed and its Drive
/// folder exists; it is cleaned with the new list.
pub proof fn law_cleanup_follows_changes(
    old: Option<GameView>,
    game: GameView,
    task: CleanupTaskView,
)
    ensures
        plan(old, game).cleanup.contains(task) <==> exists|place: int|
            {
                &&& 0 <= place < game.save_paths.len()
                &&& #[trigger] game.save_paths[place].sync_includes == task.includes
                &&& task.includes != old_includes(old, place)
                &&& drive_folder(game, place) == Some(task.folder_id)
            },
{
    lemma_cleanup_members(old, game, game.save_paths.len() as int);
    let tasks = plan(old, game).cleanup;
    if tasks.contains(task) {
        let place = choose|place: int|
            0 <= place < game.save_paths.len() && #[trigger] cleanup_at(old, game, place) == Some(
                task,
            );
        assert(game.save_paths[place].sync_includes == task.includes);
    }
    if exists|place: int|
        {
            &&& 0 <= place < game.save_paths.len()
            &&& #[trigger] game.save_paths[place].sync_includes == task.includes
            &&& task.includes != old_includes(old, place)
            &&& drive_folder(game, place) == Some(task.folder_id)
        } {
        let place = choose|place: int|
            {
                &&& 0 <= place < game.save_paths.len()
                &&& #[trigger] game.save_paths[place].sync_includes == task.includes
                &&& task.includes != old_includes(old, place)
                &&& drive_folder(game, place) == Some(task.folder_id)
            };
        assert(cleanup_at(old, game, place) == Some(task));
    }
}

/// Storing a game with its watching and its inclusion lists unchanged asks for nothing.
pub proof fn law_unchanged_game_asks_nothing(old: GameView, game: GameView)
    requires
        old.track_changes == game.track_changes,
        forall|place: int|
            0 <= place < game.save_paths.len() ==> #[trigger] game.save_paths[place].sync_includes
                == old_includes(Some(old), place),
    ensures
        plan(Some(old), game) == (UpdatePlanView { watch: None, cleanup: Seq::empty() }),
{
    let tasks = plan(Some(old), game).cleanup;
    if tasks.len() > 0 {
        let task = tasks[0];
        assert(tasks.contains(task));
        law_cleanup_follows_changes(Some(old), game, task);
    }
    assert(tasks =~= Seq::empty());
}

/// The watcher is switched exactly where the watching of the game changes, and to what it
/// becomes.
pub proof fn law_watch_follows_change(old: Option<GameView>, game: GameView)
    ensures
        plan(old, game).watch is Some <==> was_watched(old) != game.track_changes,
        plan(old, game).watch is Some ==> plan(old, game).watch == Some(game.track_changes),
{
}

/// The steps of a whole change, in order. The old state is read before the game is stored. A
/// game that cannot be stored ends the change there: the watcher and Drive are left alone, and
/// the caller gets the error. Otherwise the plan is carried out, the watcher before the
/// cleanup, and the games are shown, whether or not the watcher could be switched.
pub proof fn law_update_steps(game: GameView, world: World<UpdateGameView>, count: nat)
    requires
        crate::protocol::cooperative(world),
        count >= 6,
    ensures
        ({
            let start = UpdateGameView::ReadOld { game };
            let plan = plan(old_game(world(start)->State_0, game.id), game);
            let store = UpdateGameView::Store { game, plan };
            let loaded = world(UpdateGameView::Show(RefreshView::LoadState))->State_0;
            let games = world(
                UpdateGameView::Show(RefreshView::ApplyOverrides { state: loaded->Ok_0 }),
            )->Games_0;
            crate::protocol::trace(start, world, count) == match world(store)->Done_0 {
                Err(message) => seq![
                    start,
                    store,
                    UpdateGameView::Show(RefreshView::Finished(Err(message))),
                ],
                Ok(_) => seq![start, store] + (match plan.watch {
                    Some(enabled) => seq![
                        UpdateGameView::Watch { game_id: game.id, enabled, cleanup: plan.cleanup },
                    ],
                    None => Seq::empty(),
                }) + (if plan.cleanup.len() > 0 {
                    seq![
                        UpdateGameView::StartCleanup { game_id: game.id, cleanup: plan.cleanup },
                    ]
                } else {
                    Seq::empty()
                }) + crate::refresh::refresh_steps(loaded, games).map_values(
                    |step: RefreshView| UpdateGameView::Show(step),
                ),
            }
        }),
{
    reveal_with_fuel(crate::protocol::trace, 8);
    let start = UpdateGameView::ReadOld { game };
    assert(start.asks_for(world(start)));
    let store = start.next(world(start));
    assert(store.asks_for(world(store)));
    let third = store.next(world(store));
    assert(third.asks_for(world(third)));
    let fourth = third.next(world(third));
    assert(fourth.asks_for(world(fourth)));
    let fifth = fourth.next(world(fourth));
    assert(fifth.asks_for(world(fifth)));
    let sixth = fifth.next(world(fifth));
    assert(sixth.asks_for(world(sixth)));
}

/// A step of cleaning Drive folders in the background.
#[derive(Debug, PartialEq, Eq)]
pub enum Cleanup {
    /// Clean the folder at `index` (see [`Cleanup::task`]).
    Clean { game_id: String, tasks: Vec<CleanupTask>, index: usize },
    /// Nothing is left to do.
    Finished,
}

/// The value of a [`Cleanup`].
pub enum CleanupView {
    Clean { game_id: Seq<char>, tasks: Seq<CleanupTaskView>, index: int },
    Finished,
}

impl DeepView for Cleanup {
    type V = CleanupView;

    open spec fn deep_view(&self) -> CleanupView {
        match *self {
            Cleanup::Clean { game_id, tasks, index } => CleanupView::Clean {
                game_id: game_id@,
                tasks: tasks.deep_view(),
                index: index as int,
            },
            Cleanup::Finished => CleanupView::Finished,
        }
    }
}

/// The step that cleans the folder at `index`; past the last one, the end.
pub open spec fn at_task(
    game_id: Seq<char>,
    tasks: Seq<CleanupTaskView>,
    index: int,
) -> CleanupView {
    if 0 <= index < tasks.len() {
        CleanupView::Clean { game_id, tasks, index }
    } else {
        CleanupView::Finished
    }
}

impl Protocol for CleanupView {
    open spec fn asks_for(self, reply: ReplyView) -> bool {
        match self {
            CleanupView::Clean { .. } => reply is Done,
            CleanupView::Finished => true,
        }
    }

    open spec fn next(self, reply: ReplyView) -> CleanupView {
        match (self, reply) {
            (CleanupView::Clean { game_id, tasks, index }, ReplyView::Done(_)) => {
                at_task(game_id, tasks, index + 1)
            },
            _ => self,
        }
    }

    open spec fn finished(self) -> bool {
        self is Finished
    }

    proof fn law_other_replies_change_nothing(self, reply: ReplyView) {
    }

    proof fn law_finished_stays(self, reply: ReplyView) {
    }
}

impl CleanupView {
    /// The folder that this step cleans.
    pub open spec fn names_task(self) -> Option<CleanupTaskView> {
        match self {
            CleanupView::Clean { tasks, index, .. } if 0 <= index < tasks.len() => Some(
                tasks[index],
            ),
            _ => None,
        }
    }
}

impl Cleanup {
    /// The first step of cleaning the folders of a game.
    pub fn begin(game_id: String, tasks: Vec<CleanupTask>) -> (step: Self)
        ensures
            step.deep_view() == at_task(game_id@, tasks.deep_view(), 0),
    {
        if tasks.len() > 0 {
            Cleanup::Clean { game_id, tasks, index: 0 }
        } else {
            Cleanup::Finished
        }
    }

    /// The folder that this step cleans, for a step that cleans one.
    pub fn task(&self) -> (task: Option<&CleanupTask>)
        ensures
            task.deep_view() == self.deep_view().names_task(),
    {
        match self {
            Cleanup::Clean { tasks, index, .. } => if *index < tasks.len() {
                Some(&tasks[*index])
            } else {
                None
            },
            Cleanup::Finished => None,
        }
    }

    /// The step after this one.
    pub fn advance(self, reply: Reply) -> (step: Self)
        ensures
            step.deep_view() == self.deep_view().next(reply.deep_view()),
    {
        match self {
            Cleanup::Clean { game_id, tasks, index } => match reply {
                Reply::Done(_) => if index < tasks.len() && index + 1 < tasks.len() {
                    Cleanup::Clean { game_id, tasks, index: index + 1 }
                } else {
                    Cleanup::Finished
                },
                _ => Cleanup::Clean { game_id, tasks, index },
            },
            Cleanup::Finished => Cleanup::Finished,
        }
    }
}

/// Every cleaning that a run reaches names one of the folders.
pub proof fn law_task_is_named(
    game_id: Seq<char>,
    tasks: Seq<CleanupTaskView>,
    world: World<CleanupView>,
    count: nat,
)
    ensures
        ({
            let step = crate::protocol::run(at_task(game_id, tasks, 0), world, count);
            step is Clean ==> step.names_task() is Some
        }),
    decreases count,
{
    if count > 0 {
        let first = at_task(game_id, tasks, 0);
        crate::protocol::law_run_continues(first, world, (count - 1) as nat, 1);
        law_task_is_named(game_id, tasks, world, (count - 1) as nat);
        reveal_with_fuel(crate::protocol::run, 2);
    }
}

/// Every folder is cleaned once, in the order of the tasks, whether or not the others could be.
pub proof fn law_cleanup_steps(
    game_id: Seq<char>,
    tasks: Seq<CleanupTaskView>,
    from: int,
    world: World<CleanupView>,
    count: nat,
)
    requires
        crate::protocol::cooperative(world),
        0 <= from <= tasks.len(),
        count >= tasks.len() - from,
    ensures
        crate::protocol::trace(at_task(game_id, tasks, from), world, count) == Seq::new(
            (tasks.len() - from) as nat,
            |i: int| CleanupView::Clean { game_id, tasks, index: from + i },
        ).push(CleanupView::Finished),
    decreases tasks.len() - from,
{
    let step = at_task(game_id, tasks, from);
    let goal = Seq::new(
        (tasks.len() - from) as nat,
        |i: int| CleanupView::Clean { game_id, tasks, index: from + i },
    ).push(CleanupView::Finished);
    if from < tasks.len() {
        assert(step.asks_for(world(step)));
        law_cleanup_steps(game_id, tasks, from + 1, world, (count - 1) as nat);
        assert(crate::protocol::trace(step, world, count) =~= goal);
    } else {
        assert(crate::protocol::trace(step, world, count) =~= goal);
    }
}

proof fn lemma_cleanup_places(old: Option<GameView>, game: GameView, count: int) -> (places: Seq<
    int,
>)
    requires
        0 <= count <= game.save_paths.len(),
    ensures
        places.len() == cleanup_tasks(old, game, count).len(),
        forall|k: int| 0 <= k < places.len() ==> 0 <= #[trigger] places[k] < count,
        forall|k: int, l: int| 0 <= k < l < places.len() ==> places[k] < places[l],
        forall|k: int|
            0 <= k < places.len() ==> cleanup_at(old, game, #[trigger] places[k]) == Some(
                cleanup_tasks(old, game, count)[k],
            ),
        forall|place: int|
            0 <= place < count ==> (#[trigger] places.contains(place) <==> cleanup_at(
                old,
                game,
                place,
            ) is Some),
    decreases count,
{
    if count == 0 {
        Seq::empty()
    } else {
        let before = lemma_cleanup_places(old, game, count - 1);
        if cleanup_at(old, game, count - 1) is Some {
            let places = before.push(count - 1);
            assert forall|place: int| 0 <= place < count implies (#[trigger] places.contains(place)
                <==> cleanup_at(old, game, place) is Some) by {
                if place == count - 1 {
                    assert(places[before.len() as int] == place);
                } else {
                    if before.contains(place) {
                        let k = choose|k: int| 0 <= k < before.len() && before[k] == place;
                        assert(places[k] == place);
                    }
                    if places.contains(place) {
                        let k = choose|k: int| 0 <= k < places.len() && places[k] == place;
                        assert(before[k] == place);
                    }
                }
            }
            places
        } else {
            assert(!before.contains(count - 1));
            before
        }
    }
}

/// Which Drive folders a change has cleaned, with what, and in which order. `places` are the
/// save folders that a cleanup is for, in their order. They are exactly those whose inclusion
/// list is another than before, where a save folder that was not there had an empty list, and
/// whose Drive folder exists. The Drive folder of the first save folder is that of the game,
/// and of any other save folder its own. Each is cleaned once, with the new list of its save
/// folder. No other field of either game plays a part.
pub proof fn law_cleanup_names_the_folders(old: Option<GameView>, game: GameView) -> (places: Seq<
    int,
>)
    ensures
        plan(old, game).cleanup.len() == places.len(),
        forall|k: int|
            0 <= k < places.len() ==> 0 <= #[trigger] places[k] < game.save_paths.len(),
        forall|k: int, l: int| 0 <= k < l < places.len() ==> places[k] < places[l],
        forall|k: int|
            0 <= k < places.len() ==> {
                let task = #[trigger] plan(old, game).cleanup[k];
                &&& task.includes == game.save_paths[places[k]].sync_includes
                &&& places[k] == 0 ==> game.gdrive_folder_id == Some(task.folder_id)
                &&& places[k] > 0 ==> game.save_paths[places[k]].gdrive_folder_id == Some(
                    task.folder_id,
                )
            },
        forall|place: int|
            0 <= place < game.save_paths.len() ==> (#[trigger] places.contains(place) <==> {
                &&& game.save_paths[place].sync_includes != (match old {
                    Some(stored) if place < stored.save_paths.len() => {
                        stored.save_paths[place].sync_includes
                    },
                    _ => Seq::empty(),
                })
                &&& place == 0 ==> game.gdrive_folder_id is Some
                &&& place > 0 ==> game.save_paths[place].gdrive_folder_id is Some
            }),
{
    lemma_cleanup_places(old, game, game.save_paths.len() as int)
}

/// The watcher is started where the game is watched now and was not before, stopped where it
/// was and is not any more, and left alone otherwise. A game that was not stored was not
/// watched.
pub proof fn law_watcher_follows_the_game(old: Option<GameView>, game: GameView)
    ensures
        plan(old, game).watch == Some(true) <==> game.track_changes && !(old is Some
            && old->0.track_changes),
        plan(old, game).watch == Some(false) <==> !game.track_changes && old is Some
            && old->0.track_changes,
{
}

/// A change is worked out against the stored game: the first one in the state that has the
/// identifier of the changed game. Where there is none, or the state cannot be read, it is
/// worked out as for a new game. The game itself is stored as it was given.
pub proof fn law_change_is_against_the_stored_game(
    game: GameView,
    state: StateView,
    place: int,
    message: Seq<char>,
)
    requires
        0 <= place <= state.games.len(),
        forall|i: int| 0 <= i < place ==> (#[trigger] state.games[i]).id != game.id,
        place < state.games.len() ==> state.games[place].id == game.id,
    ensures
        (UpdateGameView::ReadOld { game }).next(ReplyView::State(Ok(state))) == (
        UpdateGameView::Store {
            game,
            plan: plan(
                if place < state.games.len() {
                    Some(state.games[place])
                } else {
                    None
                },
                game,
            ),
        }),
        (UpdateGameView::ReadOld { game }).next(ReplyView::State(Err(message))) == (
        UpdateGameView::Store { game, plan: plan(None, game) }),
{
    crate::model::law_first_game_is_found(state.games, game.id, place);
}

/// How a plan is carried out once the game is stored: the watcher of that game first, where the
/// plan has one to switch, then the cleanup, where there is one, then the games are shown. A
/// watcher that cannot be switched stops nothing; a game that cannot be stored stops all.
pub proof fn law_plan_is_carried_out(
    game: GameView,
    plan: UpdatePlanView,
    message: Seq<char>,
    enabled: bool,
    done: Result<(), Seq<char>>,
)
    ensures
        ({
            let store = UpdateGameView::Store { game, plan };
            let stored = store.next(ReplyView::Done(Ok(())));
            let watch = UpdateGameView::Watch { game_id: game.id, enabled, cleanup: plan.cleanup };
            let start = UpdateGameView::StartCleanup { game_id: game.id, cleanup: plan.cleanup };
            let show = UpdateGameView::Show(RefreshView::LoadState);
            &&& store.next(ReplyView::Done(Err(message))) == UpdateGameView::Show(
                RefreshView::Finished(Err(message)),
            )
            &&& plan.watch == Some(enabled) ==> stored == watch
            &&& plan.watch is None && plan.cleanup.len() > 0 ==> stored == start
            &&& plan.watch is None && plan.cleanup.len() == 0 ==> stored == show
            &&& plan.cleanup.len() > 0 ==> watch.next(ReplyView::Done(done)) == start
            &&& plan.cleanup.len() == 0 ==> watch.next(ReplyView::Done(done)) == show
            &&& start.next(ReplyView::Done(done)) == show
        }),
{
}

/// A step waits for its own kind of reply. From showing on, the change is a refresh.
pub proof fn law_update_waits(step: UpdateGameView, refresh: RefreshView, reply: ReplyView)
    ensures
        UpdateGameView::Show(refresh).next(reply) == UpdateGameView::Show(refresh.next(reply)),
        step is ReadOld && reply !is State ==> step.next(reply) == step,
        step is Store && reply !is Done ==> step.next(reply) == step,
        step is Watch && reply !is Done ==> step.next(reply) == step,
        step is StartCleanup && reply !is Done ==> step.next(reply) == step,
        step.finished() <==> step is Show && step->Show_0 is Finished,
{
}

/// A cleanup begins with its first folder, takes them one by one whatever became of the last,
/// and names the folder that it is at; without a folder there is nothing to do.
pub proof fn law_cleanup_goes_folder_by_folder(
    game_id: Seq<char>,
    tasks: Seq<CleanupTaskView>,
    index: int,
    done: Result<(), Seq<char>>,
    reply: ReplyView,
)
    requires
        0 <= index < tasks.len(),
    ensures
        at_task(game_id, Seq::empty(), 0) == CleanupView::Finished,
        at_task(game_id, tasks, 0) == (CleanupView::Clean { game_id, tasks, index: 0 }),
        ({
            let step = CleanupView::Clean { game_id, tasks, index };
            &&& step.names_task() == Some(tasks[index])
            &&& step.next(ReplyView::Done(done)) == if index + 1 < tasks.len() {
                CleanupView::Clean { game_id, tasks, index: index + 1 }
            } else {
                CleanupView::Finished
            }
            &&& reply !is Done ==> step.next(reply) == step
            &&& !step.finished()
        }),
        CleanupView::Finished.next(reply) == CleanupView::Finished,
        CleanupView::Finished.finished(),
        CleanupView::Finished.names_task() is None,
{
}

/// The values of a cleanup task, of a plan and of the steps tell what each of them holds.
pub proof fn law_update_values(
    task: CleanupTask,
    plan: UpdatePlan,
    step: UpdateGame,
    cleanup: Cleanup,
)
    ensures
        task.deep_view().folder_id == task.folder_id@,
        task.deep_view().includes == task.includes.deep_view(),
        plan.deep_view().watch == plan.watch,
        plan.deep_view().cleanup == plan.cleanup.deep_view(),
        match step {
            UpdateGame::ReadOld { game } => step.deep_view() == (UpdateGameView::ReadOld {
                game: game.deep_view(),
            }),
            UpdateGame::Store { game, plan: held } => step.deep_view() == (UpdateGameView::Store {
                game: game.deep_view(),
                plan: held.deep_view(),
            }),
            UpdateGame::Watch { game_id, enabled, cleanup: tasks } => step.deep_view() == (
            UpdateGameView::Watch { game_id: game_id@, enabled, cleanup: tasks.deep_view() }),
            UpdateGame::StartCleanup { game_id, cleanup: tasks } => step.deep_view() == (
            UpdateGameView::StartCleanup { game_id: game_id@, cleanup: tasks.deep_view() }),
            UpdateGame::Show(refresh) => step.deep_view() == UpdateGameView::Show(
                refresh.deep_view(),
            ),
        },
        match cleanup {
            Cleanup::Clean { game_id, tasks, index } => cleanup.deep_view() == (
            CleanupView::Clean {
                game_id: game_id@,
                tasks: tasks.deep_view(),
                index: index as int,
            }),
            Cleanup::Finished => cleanup.deep_view() == CleanupView::Finished,
        },
{
}

} // verus!
