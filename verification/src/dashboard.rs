//! Loading the dashboard: the cloud is consulted, the state is read, and every game is stamped
//! with the newest change in its save folders on this device.

use vstd::prelude::*;

use crate::model::{
    AppSettings, AppState, DashboardData, DashboardView, Game, GameView, SettingsView, StateView,
};
use crate::protocol::{Protocol, Reply, ReplyView, World};
use crate::text::comes_before;

verus! {

/// The later of the newest time so far and one more; with equal times, the one so far.
pub open spec fn newer_of(
    newest: Option<Seq<char>>,
    time: Option<Seq<char>>,
) -> Option<Seq<char>> {
    match (newest, time) {
        (_, None) => newest,
        (None, Some(_)) => time,
        (Some(n), Some(t)) => if crate::text::text_before(n, t) {
            time
        } else {
            newest
        },
    }
}

/// The newest of `newest` and the times from `place` on.
pub open spec fn newest_from(
    newest: Option<Seq<char>>,
    times: Seq<Option<Seq<char>>>,
    place: int,
) -> Option<Seq<char>>
    decreases times.len() - place,
{
    if 0 <= place < times.len() {
        newest_from(newer_of(newest, times[place]), times, place + 1)
    } else {
        newest
    }
}

/// The newest of some times, each of which may be unknown.
pub open spec fn newest(times: Seq<Option<Seq<char>>>) -> Option<Seq<char>> {
    newest_from(None, times, 0)
}

/// Whether `time` is a known time of the list that no other comes after; `None` where no time
/// is known.
pub open spec fn is_newest(time: Option<Seq<char>>, times: Seq<Option<Seq<char>>>) -> bool {
    match time {
        None => forall|i: int| 0 <= i < times.len() ==> times[i] is None,
        Some(t) => {
            &&& times.contains(time)
            &&& forall|i: int|
                0 <= i < times.len() ==> (#[trigger] times[i] matches Some(u)
                    ==> !crate::text::text_before(t, u))
        },
    }
}

proof fn lemma_newest_from(
    start: Option<Seq<char>>,
    times: Seq<Option<Seq<char>>>,
    place: int,
)
    requires
        0 <= place <= times.len(),
        is_newest(start, times.take(place)),
    ensures
        is_newest(newest_from(start, times, place), times),
    decreases times.len() - place,
{
    if place < times.len() {
        let time = times[place];
        let next = newer_of(start, time);
        let seen = times.take(place + 1);
        assert(seen =~= times.take(place).push(time));
        assert(is_newest(next, seen)) by {
            if next is Some {
                if next == time {
                    assert(seen[place] == next);
                } else {
                    let i = choose|i: int| 0 <= i < place && times.take(place)[i] == next;
                    assert(seen[i] == next);
                }
                assert forall|i: int| 0 <= i < seen.len() implies (#[trigger] seen[i] matches Some(u)
                    ==> !crate::text::text_before(next->0, u)) by {
                    if seen[i] is Some {
                        let u = seen[i]->0;
                        crate::text::law_text_order(next->0, u, u);
                        if i < place {
                            assert(times.take(place)[i] == seen[i]);
                            if start is Some {
                                crate::text::law_text_order(start->0, next->0, u);
                            }
                        }
                    }
                }
            } else {
                assert forall|i: int| 0 <= i < seen.len() implies seen[i] is None by {
                    if i < place {
                        assert(times.take(place)[i] == seen[i]);
                    }
                }
            }
        }
        lemma_newest_from(next, times, place + 1);
    } else {
        assert(times.take(place) =~= times);
    }
}

/// The newest time is one of the times, and none of them comes after it; there is none only
/// where no time is known.
pub proof fn law_newest_is_greatest(times: Seq<Option<Seq<char>>>)
    ensures
        is_newest(newest(times), times),
{
    lemma_newest_from(None, times, 0);
}

/// The newest time depends on which times there are, not on their order or on how often each
/// occurs.
pub proof fn law_newest_ignores_order(a: Seq<Option<Seq<char>>>, b: Seq<Option<Seq<char>>>)
    requires
        forall|time: Option<Seq<char>>| a.contains(time) <==> b.contains(time),
    ensures
        newest(a) == newest(b),
{
    law_newest_is_greatest(a);
    law_newest_is_greatest(b);
    let (x, y) = (newest(a), newest(b));
    if x is Some {
        assert(b.contains(x));
    }
    if y is Some {
        assert(a.contains(y));
    }
    if x is Some && y is Some {
        crate::text::law_text_order(x->0, y->0, y->0);
    }
}

/// A game with the time of its newest local change.
pub open spec fn stamped(game: GameView, time: Option<Seq<char>>) -> GameView {
    GameView { last_local_modified: time, ..game }
}

/// The search for the newest change of one game.
#[derive(Debug, PartialEq, Eq)]
pub struct Scan {
    pub games: Vec<Game>,
    pub settings: AppSettings,
    /// The game that is looked at.
    pub index: usize,
    /// Its save folders on this device.
    pub paths: Vec<Option<String>>,
    /// The save folder that is looked at.
    pub place: usize,
    /// The newest change so far.
    pub newest: Option<String>,
}

/// The value of a [`Scan`].
pub struct ScanView {
    pub games: Seq<GameView>,
    pub settings: SettingsView,
    pub index: int,
    pub paths: Seq<Option<Seq<char>>>,
    pub place: int,
    pub newest: Option<Seq<char>>,
}

impl DeepView for Scan {
    type V = ScanView;

    open spec fn deep_view(&self) -> ScanView {
        ScanView {
            games: self.games.deep_view(),
            settings: self.settings.deep_view(),
            index: self.index as int,
            paths: self.paths.deep_view(),
            place: self.place as int,
            newest: self.newest.deep_view(),
        }
    }
}

/// A step of loading the dashboard.
#[derive(Debug, PartialEq, Eq)]
pub enum Dashboard {
    /// Bring the play time on this device and in the cloud together.
    ReconcilePlaytime,
    /// Fetch the library and the settings from the cloud.
    FetchLibrary,
    /// Read the state kept on this device.
    LoadState,
    /// Apply the path overrides in the settings to the games.
    ApplyOverrides { state: AppState },
    /// Find the save folders on this device of the game at `index` (see
    /// [`Dashboard::listed`]).
    ListPaths { games: Vec<Game>, settings: AppSettings, index: usize },
    /// Expand the environment variables in the save folder at `scan.place` (see
    /// [`Dashboard::path`]).
    ExpandPath { scan: Scan },
    /// Find the newest change in `folder`.
    ScanFolder { scan: Scan, folder: String },
    /// Give this to the caller.
    Finished(Result<DashboardData, String>),
}

/// The value of a [`Dashboard`].
pub enum DashboardStepView {
    ReconcilePlaytime,
    FetchLibrary,
    LoadState,
    ApplyOverrides { state: StateView },
    ListPaths { games: Seq<GameView>, settings: SettingsView, index: int },
    ExpandPath { scan: ScanView },
    ScanFolder { scan: ScanView, folder: Seq<char> },
    Finished(Result<DashboardView, Seq<char>>),
}

impl DeepView for Dashboard {
    type V = DashboardStepView;

    open spec fn deep_view(&self) -> DashboardStepView {
        match *self {
            Dashboard::ReconcilePlaytime => DashboardStepView::ReconcilePlaytime,
            Dashboard::FetchLibrary => DashboardStepView::FetchLibrary,
            Dashboard::LoadState => DashboardStepView::LoadState,
            Dashboard::ApplyOverrides { state } => DashboardStepView::ApplyOverrides {
                state: state.deep_view(),
            },
            Dashboard::ListPaths { games, settings, index } => DashboardStepView::ListPaths {
                games: games.deep_view(),
                settings: settings.deep_view(),
                index: index as int,
            },
            Dashboard::ExpandPath { scan } => DashboardStepView::ExpandPath {
                scan: scan.deep_view(),
            },
            Dashboard::ScanFolder { scan, folder } => DashboardStepView::ScanFolder {
                scan: scan.deep_view(),
                folder: folder@,
            },
            Dashboard::Finished(result) => DashboardStepView::Finished(
                crate::model::outcome(result),
            ),
        }
    }
}

/// The step that begins with the game at `index`; past the last game, the end.
pub open spec fn at_game(
    games: Seq<GameView>,
    settings: SettingsView,
    index: int,
) -> DashboardStepView {
    if 0 <= index < games.len() {
        DashboardStepView::ListPaths { games, settings, index }
    } else {
        DashboardStepView::Finished(Ok(DashboardView { games }))
    }
}

/// The step that goes on with the first save folder from `scan.place` on; past the last one,
/// the game is stamped and the next game begins.
pub open spec fn at_path(scan: ScanView) -> DashboardStepView
    decreases scan.paths.len() - scan.place,
{
    if 0 <= scan.place < scan.paths.len() {
        if scan.paths[scan.place] is Some {
            DashboardStepView::ExpandPath { scan }
        } else {
            at_path(ScanView { place: scan.place + 1, ..scan })
        }
    } else if 0 <= scan.index < scan.games.len() {
        at_game(
            scan.games.update(scan.index, stamped(scan.games[scan.index], scan.newest)),
            scan.settings,
            scan.index + 1,
        )
    } else {
        DashboardStepView::Finished(Ok(DashboardView { games: scan.games }))
    }
}

impl Protocol for DashboardStepView {
    open spec fn asks_for(self, reply: ReplyView) -> bool {
        match self {
            DashboardStepView::ReconcilePlaytime => reply is Done,
            DashboardStepView::FetchLibrary => reply is Answer,
            DashboardStepView::LoadState => reply is State,
            DashboardStepView::ApplyOverrides { .. } => reply is Games,
            DashboardStepView::ListPaths { .. } => reply is Paths,
            DashboardStepView::ExpandPath { .. } => reply is Text,
            DashboardStepView::ScanFolder { .. } => reply is Optional,
            DashboardStepView::Finished(_) => true,
        }
    }

    open spec fn next(self, reply: ReplyView) -> DashboardStepView {
        match (self, reply) {
            (DashboardStepView::ReconcilePlaytime, ReplyView::Done(_)) => {
                DashboardStepView::FetchLibrary
            },
            (DashboardStepView::FetchLibrary, ReplyView::Answer(_)) => {
                DashboardStepView::LoadState
            },
            (DashboardStepView::LoadState, ReplyView::State(Ok(state))) => {
                DashboardStepView::ApplyOverrides { state }
            },
            (DashboardStepView::LoadState, ReplyView::State(Err(message))) => {
                DashboardStepView::Finished(Err(message))
            },
            (DashboardStepView::ApplyOverrides { state }, ReplyView::Games(games)) => {
                at_game(games, state.settings, 0)
            },
            (DashboardStepView::ListPaths { games, settings, index }, ReplyView::Paths(paths)) => {
                at_path(ScanView { games, settings, index, paths, place: 0, newest: None })
            },
            (DashboardStepView::ExpandPath { scan }, ReplyView::Text(folder)) => {
                DashboardStepView::ScanFolder { scan, folder }
            },
            (DashboardStepView::ScanFolder { scan, .. }, ReplyView::Optional(time)) => {
                at_path(
                    ScanView {
                        place: scan.place + 1,
                        newest: newer_of(scan.newest, time),
                        ..scan
                    },
                )
            },
            _ => self,
        }
    }

    open spec fn finished(self) -> bool {
        self is Finished
    }

    proof fn law_other_replies_change_nothing(self, reply: ReplyView) {
    }

    proof fn law_finished_stays(self, reply: ReplyView) {
    }
}

/// The later of the newest time so far and one more.
fn keep_newer(newest: Option<String>, time: Option<String>) -> (kept: Option<String>)
    ensures
        kept.deep_view() == newer_of(newest.deep_view(), time.deep_view()),
{
    match time {
        None => newest,
        Some(t) => match newest {
            None => Some(t),
            Some(n) => if comes_before(n.as_str(), t.as_str()) {
                Some(t)
            } else {
                Some(n)
            },
        },
    }
}

/// Begins with the game at `index`, or ends past the last game.
fn begin_game(games: Vec<Game>, settings: AppSettings, index: usize) -> (step: Dashboard)
    ensures
        step.deep_view() == at_game(games.deep_view(), settings.deep_view(), index as int),
{
    if index < games.len() {
        Dashboard::ListPaths { games, settings, index }
    } else {
        Dashboard::Finished(Ok(DashboardData { games }))
    }
}

/// Goes on with the first save folder from `scan.place` on, or ends the game.
fn begin_path(scan: Scan) -> (step: Dashboard)
    ensures
        step.deep_view() == at_path(scan.deep_view()),
{
    let ghost goal = at_path(scan.deep_view());
    let mut rest = scan;
    while rest.place < rest.paths.len()
        invariant
            at_path(rest.deep_view()) == goal,
            goal == at_path(scan.deep_view()),
        decreases rest.paths@.len() - rest.place,
    {
        let ghost before = rest.deep_view();
        assert(before.paths[before.place] == rest.paths@[rest.place as int].deep_view());
        if rest.paths[rest.place].is_some() {
            return Dashboard::ExpandPath { scan: rest };
        }
        rest.place = rest.place + 1;
        assert(rest.deep_view() == ScanView { place: before.place + 1, ..before });
    }
    let ghost last = rest.deep_view();
    let mut games = rest.games;
    let index: usize = rest.index;
    if index < games.len() {
        games[index].last_local_modified = rest.newest;
        assert(games.deep_view() =~= last.games.update(
            index as int,
            stamped(last.games[index as int], last.newest),
        ));
        begin_game(games, rest.settings, index + 1)
    } else {
        Dashboard::Finished(Ok(DashboardData { games }))
    }
}

impl Dashboard {
    /// The first step of loading the dashboard.
    pub fn load_dashboard() -> (step: Self)
        ensures
            step.deep_view() == DashboardStepView::ReconcilePlaytime,
    {
        Dashboard::ReconcilePlaytime
    }

    /// The game, and the settings, whose save folders this step asks for, for a step that asks
    /// for some.
    pub fn listed(&self) -> (named: Option<(&Game, &AppSettings)>)
        ensures
            named.deep_view() == self.deep_view().names_game(),
    {
        match self {
            Dashboard::ListPaths { games, settings, index } => if *index < games.len() {
                Some((&games[*index], settings))
            } else {
                None
            },
            _ => None,
        }
    }

    /// The save folder that this step expands, for a step that expands one.
    pub fn path(&self) -> (named: Option<&String>)
        ensures
            named.deep_view() == self.deep_view().names_path(),
    {
        match self {
            Dashboard::ExpandPath { scan } => if scan.place < scan.paths.len() {
                scan.paths[scan.place].as_ref()
            } else {
                None
            },
            _ => None,
        }
    }

    /// The step after this one.
    pub fn advance(self, reply: Reply) -> (step: Self)
        ensures
            step.deep_view() == self.deep_view().next(reply.deep_view()),
    {
        match self {
            Dashboard::ReconcilePlaytime => match reply {
                Reply::Done(_) => Dashboard::FetchLibrary,
                _ => Dashboard::ReconcilePlaytime,
            },
            Dashboard::FetchLibrary => match reply {
                Reply::Answer(_) => Dashboard::LoadState,
                _ => Dashboard::FetchLibrary,
            },
            Dashboard::LoadState => match reply {
                Reply::State(Ok(state)) => Dashboard::ApplyOverrides { state },
                Reply::State(Err(message)) => Dashboard::Finished(Err(message)),
                _ => Dashboard::LoadState,
            },
            Dashboard::ApplyOverrides { state } => match reply {
                Reply::Games(games) => begin_game(games, state.settings, 0),
                _ => Dashboard::ApplyOverrides { state },
            },
            Dashboard::ListPaths { games, settings, index } => match reply {
                Reply::Paths(paths) => begin_path(
                    Scan { games, settings, index, paths, place: 0, newest: None },
                ),
                _ => Dashboard::ListPaths { games, settings, index },
            },
            Dashboard::ExpandPath { scan } => match reply {
                Reply::Text(folder) => Dashboard::ScanFolder { scan, folder },
                _ => Dashboard::ExpandPath { scan },
            },
            Dashboard::ScanFolder { scan, folder } => match reply {
                Reply::Optional(time) => {
                    let ghost goal = ScanView {
                        place: scan.place + 1,
                        newest: newer_of(scan.newest.deep_view(), time.deep_view()),
                        ..scan.deep_view()
                    };
                    let mut scan = scan;
                    scan.newest = keep_newer(scan.newest, time);
                    if scan.place < scan.paths.len() {
                        scan.place = scan.place + 1;
                    }
                    assert(at_path(scan.deep_view()) == at_path(goal));
                    begin_path(scan)
                },
                _ => Dashboard::ScanFolder { scan, folder },
            },
            Dashboard::Finished(result) => Dashboard::Finished(result),
        }
    }
}

impl DashboardStepView {
    /// The game, and the settings, whose save folders this step asks for.
    pub open spec fn names_game(self) -> Option<(GameView, SettingsView)> {
        match self {
            DashboardStepView::ListPaths { games, settings, index } if 0 <= index < games.len() => {
                Some((games[index], settings))
            },
            _ => None,
        }
    }

    /// The save folder that this step expands.
    pub open spec fn names_path(self) -> Option<Seq<char>> {
        match self {
            DashboardStepView::ExpandPath { scan } if 0 <= scan.place < scan.paths.len() => {
                scan.paths[scan.place]
            },
            _ => None,
        }
    }

    /// Whether what this step points at is there.
    pub open spec fn in_range(self) -> bool {
        match self {
            DashboardStepView::ListPaths { .. } => self.names_game() is Some,
            DashboardStepView::ExpandPath { scan } => {
                &&& 0 <= scan.index < scan.games.len()
                &&& self.names_path() is Some
            },
            DashboardStepView::ScanFolder { scan, .. } => {
                &&& 0 <= scan.index < scan.games.len()
                &&& 0 <= scan.place < scan.paths.len()
            },
            _ => true,
        }
    }
}

proof fn lemma_at_path_in_range(scan: ScanView)
    requires
        0 <= scan.index < scan.games.len(),
        0 <= scan.place,
    ensures
        at_path(scan).in_range(),
    decreases scan.paths.len() - scan.place,
{
    if scan.place < scan.paths.len() && scan.paths[scan.place] is None {
        lemma_at_path_in_range(ScanView { place: scan.place + 1, ..scan });
    }
}

/// Every step that a run reaches points at what is there: a game of the library, and a save
/// folder that the game has on this device.
pub proof fn law_dashboard_in_range(world: World<DashboardStepView>, count: nat)
    ensures
        crate::protocol::run(DashboardStepView::ReconcilePlaytime, world, count).in_range(),
    decreases count,
{
    if count > 0 {
        let first = DashboardStepView::ReconcilePlaytime;
        let step = crate::protocol::run(first, world, (count - 1) as nat);
        law_dashboard_in_range(world, (count - 1) as nat);
        crate::protocol::law_run_continues(first, world, (count - 1) as nat, 1);
        reveal_with_fuel(crate::protocol::run, 2);
        match (step, world(step)) {
            (DashboardStepView::ListPaths { games, settings, index }, ReplyView::Paths(paths)) => {
                lemma_at_path_in_range(
                    ScanView { games, settings, index, paths, place: 0, newest: None },
                );
            },
            (DashboardStepView::ScanFolder { scan, .. }, ReplyView::Optional(time)) => {
                lemma_at_path_in_range(
                    ScanView {
                        place: scan.place + 1,
                        newest: newer_of(scan.newest, time),
                        ..scan
                    },
                );
            },
            _ => {},
        }
    }
}

/// What this device shows while the dashboard is loaded. The numbers are the place of the game
/// and the place of its save folder: with them, a question asked at two moments may get two
/// answers.
pub struct Folders {
    /// The save folders of a game.
    pub paths: spec_fn(int, GameView, SettingsView) -> Seq<Option<Seq<char>>>,
    /// A save folder with its environment variables expanded.
    pub expand: spec_fn(int, int, Seq<char>) -> Seq<char>,
    /// The newest change in an expanded folder.
    pub modified: spec_fn(int, int, Seq<char>) -> Option<Seq<char>>,
}

impl Folders {
    /// The times of the game at `index`, one for each of its save folders: that of its
    /// expansion, for a folder that is on this device.
    pub open spec fn times(
        self,
        index: int,
        game: GameView,
        settings: SettingsView,
    ) -> Seq<Option<Seq<char>>> {
        let paths = (self.paths)(index, game, settings);
        Seq::new(
            paths.len(),
            |place: int|
                match paths[place] {
                    Some(path) => (self.modified)(
                        index,
                        place,
                        (self.expand)(index, place, path),
                    ),
                    None => None,
                },
        )
    }

    /// The games, each stamped with its newest change on this device.
    pub open spec fn stamp(self, games: Seq<GameView>, settings: SettingsView) -> Seq<GameView> {
        Seq::new(
            games.len(),
            |i: int| stamped(games[i], newest(self.times(i, games[i], settings))),
        )
    }

    /// Whether the world answers as this device shows itself.
    pub open spec fn shown_by(self, world: World<DashboardStepView>) -> bool {
        forall|step: DashboardStepView|
            match step {
                DashboardStepView::ListPaths { games, settings, index } => {
                    #[trigger] world(step) == ReplyView::Paths(
                        (self.paths)(index, games[index], settings),
                    )
                },
                DashboardStepView::ExpandPath { scan } => {
                    world(step) == ReplyView::Text(
                        (self.expand)(scan.index, scan.place, scan.paths[scan.place]->0),
                    )
                },
                DashboardStepView::ScanFolder { scan, folder } => {
                    world(step) == ReplyView::Optional(
                        (self.modified)(scan.index, scan.place, folder),
                    )
                },
                _ => true,
            }
    }
}

/// Stamping games again changes nothing where their save folders do not depend on their
/// stamps: no stamp depends on an older one.
pub proof fn law_stamping_twice(folders: Folders, games: Seq<GameView>, settings: SettingsView)
    requires
        forall|i: int, game: GameView, time: Option<Seq<char>>|
            #[trigger] (folders.paths)(i, stamped(game, time), settings) == (folders.paths)(
                i,
                game,
                settings,
            ),
    ensures
        folders.stamp(folders.stamp(games, settings), settings) == folders.stamp(games, settings),
{
    let once = folders.stamp(games, settings);
    assert forall|i: int| 0 <= i < games.len() implies folders.times(i, once[i], settings)
        == folders.times(i, games[i], settings) by {
        assert(once[i] == stamped(games[i], newest(folders.times(i, games[i], settings))));
    }
    assert(folders.stamp(once, settings) =~= once);
}

/// The games as they leave a scan: those before it as they are, the one that is looked at with
/// what is still to be found, and those after it stamped from the start.
spec fn scanned(scan: ScanView, folders: Folders) -> Seq<GameView> {
    Seq::new(
        scan.games.len(),
        |i: int|
            if i < scan.index {
                scan.games[i]
            } else if i == scan.index {
                stamped(
                    scan.games[i],
                    newest_from(
                        scan.newest,
                        folders.times(i, scan.games[i], scan.settings),
                        scan.place,
                    ),
                )
            } else {
                stamped(
                    scan.games[i],
                    newest(folders.times(i, scan.games[i], scan.settings)),
                )
            },
    )
}

/// The games as they leave the step that begins with the game at `index`.
spec fn scanned_after(
    games: Seq<GameView>,
    settings: SettingsView,
    index: int,
    folders: Folders,
) -> Seq<GameView> {
    Seq::new(
        games.len(),
        |i: int|
            if i < index {
                games[i]
            } else {
                stamped(games[i], newest(folders.times(i, games[i], settings)))
            },
    )
}

proof fn lemma_games(
    games: Seq<GameView>,
    settings: SettingsView,
    index: int,
    folders: Folders,
    world: World<DashboardStepView>,
)
    requires
        folders.shown_by(world),
        0 <= index <= games.len(),
    ensures
        crate::protocol::leads_to(
            at_game(games, settings, index),
            world,
            DashboardStepView::Finished(
                Ok(DashboardView { games: scanned_after(games, settings, index, folders) }),
            ),
        ),
    decreases games.len() - index, 1int, 0int,
{
    let step = at_game(games, settings, index);
    let goal = DashboardStepView::Finished(
        Ok(DashboardView { games: scanned_after(games, settings, index, folders) }),
    );
    if index < games.len() {
        let paths = (folders.paths)(index, games[index], settings);
        let scan = ScanView { games, settings, index, paths, place: 0, newest: None };
        assert(world(step) == ReplyView::Paths(paths));
        lemma_paths(scan, folders, world);
        assert(scanned(scan, folders) =~= scanned_after(games, settings, index, folders));
        crate::protocol::lemma_leads_back(step, world, goal);
    } else {
        assert(scanned_after(games, settings, index, folders) =~= games);
        assert(crate::protocol::run(step, world, 0) == goal);
    }
}

proof fn lemma_paths(scan: ScanView, folders: Folders, world: World<DashboardStepView>)
    requires
        folders.shown_by(world),
        0 <= scan.index < scan.games.len(),
        scan.paths == (folders.paths)(scan.index, scan.games[scan.index], scan.settings),
        0 <= scan.place <= scan.paths.len(),
    ensures
        crate::protocol::leads_to(
            at_path(scan),
            world,
            DashboardStepView::Finished(Ok(DashboardView { games: scanned(scan, folders) })),
        ),
    decreases scan.games.len() - scan.index, 0int, scan.paths.len() - scan.place,
{
    let goal = DashboardStepView::Finished(Ok(DashboardView { games: scanned(scan, folders) }));
    let times = folders.times(scan.index, scan.games[scan.index], scan.settings);
    if scan.place < scan.paths.len() {
        if scan.paths[scan.place] is Some {
            let path = scan.paths[scan.place]->0;
            let folder = (folders.expand)(scan.index, scan.place, path);
            let time = (folders.modified)(scan.index, scan.place, folder);
            let after = ScanView {
                place: scan.place + 1,
                newest: newer_of(scan.newest, time),
                ..scan
            };
            let expand = DashboardStepView::ExpandPath { scan };
            let look = DashboardStepView::ScanFolder { scan, folder };
            assert(world(expand) == ReplyView::Text(folder));
            assert(world(look) == ReplyView::Optional(time));
            assert(times[scan.place] == time);
            assert(scanned(after, folders) =~= scanned(scan, folders));
            lemma_paths(after, folders, world);
            crate::protocol::lemma_leads_back(look, world, goal);
            crate::protocol::lemma_leads_back(expand, world, goal);
        } else {
            let after = ScanView { place: scan.place + 1, ..scan };
            assert(times[scan.place] == None::<Seq<char>>);
            assert(scanned(after, folders) =~= scanned(scan, folders));
            lemma_paths(after, folders, world);
        }
    } else {
        let games = scan.games.update(
            scan.index,
            stamped(scan.games[scan.index], scan.newest),
        );
        lemma_games(games, scan.settings, scan.index + 1, folders, world);
        assert(scanned_after(games, scan.settings, scan.index + 1, folders) =~= scanned(
            scan,
            folders,
        ));
    }
}

/// What loading the dashboard gives. Where the state cannot be read, its error. Otherwise the
/// games with the path overrides applied, each stamped with the newest change that was found in
/// the expansions of its save folders, and with nothing else changed. Whether the cloud could
/// be reached plays no part.
pub proof fn law_dashboard_result(folders: Folders, world: World<DashboardStepView>)
    requires
        crate::protocol::cooperative(world),
        folders.shown_by(world),
    ensures
        crate::protocol::leads_to(
            DashboardStepView::ReconcilePlaytime,
            world,
            DashboardStepView::Finished(
                match world(DashboardStepView::LoadState)->State_0 {
                    Err(message) => Err(message),
                    Ok(state) => Ok(
                        DashboardView {
                            games: folders.stamp(
                                world(DashboardStepView::ApplyOverrides { state })->Games_0,
                                state.settings,
                            ),
                        },
                    ),
                },
            ),
        ),
{
    let first = DashboardStepView::ReconcilePlaytime;
    let second = DashboardStepView::FetchLibrary;
    let third = DashboardStepView::LoadState;
    assert(first.asks_for(world(first)));
    assert(second.asks_for(world(second)));
    assert(third.asks_for(world(third)));
    let goal = DashboardStepView::Finished(
        match world(third)->State_0 {
            Err(message) => Err(message),
            Ok(state) => Ok(
                DashboardView {
                    games: folders.stamp(
                        world(DashboardStepView::ApplyOverrides { state })->Games_0,
                        state.settings,
                    ),
                },
            ),
        },
    );
    match world(third)->State_0 {
        Err(_) => {
            assert(crate::protocol::run(third.next(world(third)), world, 0) == goal);
        },
        Ok(state) => {
            let fourth = DashboardStepView::ApplyOverrides { state };
            assert(fourth.asks_for(world(fourth)));
            let games = world(fourth)->Games_0;
            lemma_games(games, state.settings, 0, folders, world);
            assert(scanned_after(games, state.settings, 0, folders) =~= folders.stamp(
                games,
                state.settings,
            ));
            crate::protocol::lemma_leads_back(fourth, world, goal);
        },
    }
    crate::protocol::lemma_leads_back(third, world, goal);
    crate::protocol::lemma_leads_back(second, world, goal);
    crate::protocol::lemma_leads_back(first, world, goal);
}

/// A device on which nothing changes while the dashboard is loaded.
pub struct StillDevice {
    /// The save folders of a game, under the settings.
    pub paths: spec_fn(GameView, SettingsView) -> Seq<Option<Seq<char>>>,
    /// A save folder with its environment variables expanded.
    pub expand: spec_fn(Seq<char>) -> Seq<char>,
    /// The newest change in an expanded folder.
    pub modified: spec_fn(Seq<char>) -> Option<Seq<char>>,
}

impl StillDevice {
    /// The newest changes of some save folders, each found in its expansion.
    pub open spec fn times(self, paths: Seq<Option<Seq<char>>>) -> Seq<Option<Seq<char>>> {
        paths.map_values(
            |path: Option<Seq<char>>|
                match path {
                    Some(path) => (self.modified)((self.expand)(path)),
                    None => None,
                },
        )
    }

    /// Whether the world answers as this device is.
    pub open spec fn shown_by(self, world: World<DashboardStepView>) -> bool {
        forall|step: DashboardStepView|
            match step {
                DashboardStepView::ListPaths { games, settings, index } => {
                    #[trigger] world(step) == ReplyView::Paths(
                        (self.paths)(games[index], settings),
                    )
                },
                DashboardStepView::ExpandPath { scan } => {
                    world(step) == ReplyView::Text((self.expand)(scan.paths[scan.place]->0))
                },
                DashboardStepView::ScanFolder { folder, .. } => {
                    world(step) == ReplyView::Optional((self.modified)(folder))
                },
                _ => true,
            }
    }
}

/// What loading the dashboard gives on a device on which nothing changes meanwhile: every game
/// is stamped with the newest of the times that its save folders have once expanded.
pub proof fn law_dashboard_scans_expanded_folders(
    device: StillDevice,
    state: StateView,
    games: Seq<GameView>,
    world: World<DashboardStepView>,
)
    requires
        crate::protocol::cooperative(world),
        device.shown_by(world),
        world(DashboardStepView::LoadState) == ReplyView::State(Ok(state)),
        world(DashboardStepView::ApplyOverrides { state }) == ReplyView::Games(games),
    ensures
        crate::protocol::leads_to(
            DashboardStepView::ReconcilePlaytime,
            world,
            DashboardStepView::Finished(
                Ok(
                    DashboardView {
                        games: games.map_values(
                            |game: GameView|
                                stamped(
                                    game,
                                    newest(device.times((device.paths)(game, state.settings))),
                                ),
                        ),
                    },
                ),
            ),
        ),
{
    let folders = Folders {
        paths: |i: int, game: GameView, settings: SettingsView| (device.paths)(game, settings),
        expand: |i: int, j: int, path: Seq<char>| (device.expand)(path),
        modified: |i: int, j: int, folder: Seq<char>| (device.modified)(folder),
    };
    assert(folders.shown_by(world));
    law_dashboard_result(folders, world);
    let goal = games.map_values(
        |game: GameView|
            stamped(game, newest(device.times((device.paths)(game, state.settings)))),
    );
    assert forall|i: int| 0 <= i < games.len() implies #[trigger] folders.stamp(
        games,
        state.settings,
    )[i] == goal[i] by {
        assert(folders.times(i, games[i], state.settings) =~= device.times(
            (device.paths)(games[i], state.settings),
        ));
    }
    assert(folders.stamp(games, state.settings) =~= goal);
}

/// The newest of some times is missing exactly where all of them are. Otherwise it is one of
/// them, and none of them comes after it.
pub proof fn law_newest_is_one_of_the_times(times: Seq<Option<Seq<char>>>)
    ensures
        newest(times) is None <==> forall|i: int| 0 <= i < times.len() ==> times[i] is None,
        newest(times) is Some ==> exists|i: int|
            0 <= i < times.len() && #[trigger] times[i] == newest(times),
        forall|i: int|
            0 <= i < times.len() && (#[trigger] times[i]) is Some ==> {
                &&& newest(times) is Some
                &&& !crate::text::text_before(newest(times)->0, times[i]->0)
            },
{
    law_newest_is_greatest(times);
    if newest(times) is Some {
        assert(times.contains(newest(times)));
        let i = choose|i: int| 0 <= i < times.len() && times[i] == newest(times);
        assert(times[i] is Some);
    }
}

/// What the dashboard shows: all games that came back with the path overrides applied, in
/// their order, each as it came but for `last_local_modified`. That is the newest of the times
/// of its save folders, whatever the game held before, in this field or in another: for a save
/// folder on this device the time is that of its expansion, and for one that is not here there
/// is none. The three functions stand for this device; the numbers are the places of the game
/// and of its save folder.
pub proof fn law_every_game_is_stamped(
    paths: spec_fn(int, GameView, SettingsView) -> Seq<Option<Seq<char>>>,
    expand: spec_fn(int, int, Seq<char>) -> Seq<char>,
    modified: spec_fn(int, int, Seq<char>) -> Option<Seq<char>>,
    state: StateView,
    games: Seq<GameView>,
    world: World<DashboardStepView>,
) -> (shown: Seq<GameView>)
    requires
        world(DashboardStepView::ReconcilePlaytime) is Done,
        world(DashboardStepView::FetchLibrary) is Answer,
        world(DashboardStepView::LoadState) == ReplyView::State(Ok(state)),
        world(DashboardStepView::ApplyOverrides { state }) == ReplyView::Games(games),
        forall|all: Seq<GameView>, settings: SettingsView, index: int|
            #[trigger] world(DashboardStepView::ListPaths { games: all, settings, index })
                == ReplyView::Paths(paths(index, all[index], settings)),
        forall|scan: ScanView|
            #[trigger] world(DashboardStepView::ExpandPath { scan }) == ReplyView::Text(
                expand(scan.index, scan.place, scan.paths[scan.place]->0),
            ),
        forall|scan: ScanView, folder: Seq<char>|
            #[trigger] world(DashboardStepView::ScanFolder { scan, folder })
                == ReplyView::Optional(modified(scan.index, scan.place, folder)),
    ensures
        exists|count: nat|
            #[trigger] crate::protocol::run(DashboardStepView::ReconcilePlaytime, world, count)
                == DashboardStepView::Finished(Ok(DashboardView { games: shown })),
        shown.len() == games.len(),
        forall|i: int|
            0 <= i < games.len() ==> #[trigger] shown[i] == (GameView {
                last_local_modified: shown[i].last_local_modified,
                ..games[i]
            }),
        forall|i: int|
            0 <= i < games.len() ==> (#[trigger] shown[i]).last_local_modified == newest(
                Seq::new(
                    paths(i, games[i], state.settings).len(),
                    |place: int|
                        match paths(i, games[i], state.settings)[place] {
                            Some(path) => modified(i, place, expand(i, place, path)),
                            None => None,
                        },
                ),
            ),
{
    let folders = Folders { paths, expand, modified };
    let first = DashboardStepView::ReconcilePlaytime;
    let second = DashboardStepView::FetchLibrary;
    let third = DashboardStepView::LoadState;
    let fourth = DashboardStepView::ApplyOverrides { state };
    let shown = scanned_after(games, state.settings, 0, folders);
    let goal = DashboardStepView::Finished(Ok(DashboardView { games: shown }));
    assert(folders.shown_by(world));
    lemma_games(games, state.settings, 0, folders, world);
    crate::protocol::lemma_leads_back(fourth, world, goal);
    crate::protocol::lemma_leads_back(third, world, goal);
    crate::protocol::lemma_leads_back(second, world, goal);
    crate::protocol::lemma_leads_back(first, world, goal);
    assert forall|i: int| 0 <= i < games.len() implies (
    #[trigger] shown[i]).last_local_modified == newest(
        Seq::new(
            paths(i, games[i], state.settings).len(),
            |place: int|
                match paths(i, games[i], state.settings)[place] {
                    Some(path) => modified(i, place, expand(i, place, path)),
                    None => None,
                },
        ),
    ) by {
        assert(folders.times(i, games[i], state.settings) =~= Seq::new(
            paths(i, games[i], state.settings).len(),
            |place: int|
                match paths(i, games[i], state.settings)[place] {
                    Some(path) => modified(i, place, expand(i, place, path)),
                    None => None,
                },
        ));
    }
    shown
}

/// What comes before the scan. Neither answer of the cloud counts: the state is read after
/// them. A state that cannot be read is the end; one that is read has its overrides applied,
/// and the scan begins with the first game, under the settings of that state.
pub proof fn law_dashboard_reads_the_state(
    done: Result<(), Seq<char>>,
    answer: Result<bool, Seq<char>>,
    loaded: Result<StateView, Seq<char>>,
    state: StateView,
    games: Seq<GameView>,
)
    ensures
        DashboardStepView::ReconcilePlaytime.next(ReplyView::Done(done))
            == DashboardStepView::FetchLibrary,
        DashboardStepView::FetchLibrary.next(ReplyView::Answer(answer))
            == DashboardStepView::LoadState,
        DashboardStepView::LoadState.next(ReplyView::State(loaded)) == match loaded {
            Ok(read) => DashboardStepView::ApplyOverrides { state: read },
            Err(message) => DashboardStepView::Finished(Err(message)),
        },
        (DashboardStepView::ApplyOverrides { state }).next(ReplyView::Games(games)) == if games.len()
            > 0 {
            DashboardStepView::ListPaths { games, settings: state.settings, index: 0 }
        } else {
            DashboardStepView::Finished(Ok(DashboardView { games }))
        },
{
}

proof fn lemma_at_path_skips(scan: ScanView, place: int)
    requires
        0 <= scan.place <= place <= scan.paths.len(),
        forall|j: int| scan.place <= j < place ==> (#[trigger] scan.paths[j]) is None,
    ensures
        at_path(scan) == at_path(ScanView { place, ..scan }),
    decreases place - scan.place,
{
    if scan.place < place {
        assert(scan.paths[scan.place] is None);
        lemma_at_path_skips(ScanView { place: scan.place + 1, ..scan }, place);
    }
}

/// Listing the save folders of a game leads to the first of them that is on this device. With
/// none on this device the game is stamped with no time, and the next game follows, or the end
/// after the last one.
pub proof fn law_listing_leads_to_the_first_folder(
    games: Seq<GameView>,
    settings: SettingsView,
    index: int,
    paths: Seq<Option<Seq<char>>>,
    place: int,
)
    requires
        0 <= index < games.len(),
        0 <= place <= paths.len(),
        forall|j: int| 0 <= j < place ==> (#[trigger] paths[j]) is None,
        place < paths.len() ==> paths[place] is Some,
    ensures
        ({
            let stamped_games = games.update(
                index,
                GameView { last_local_modified: None, ..games[index] },
            );
            (DashboardStepView::ListPaths { games, settings, index }).next(ReplyView::Paths(paths))
                == if place < paths.len() {
                DashboardStepView::ExpandPath {
                    scan: ScanView { games, settings, index, paths, place, newest: None },
                }
            } else if index + 1 < games.len() {
                DashboardStepView::ListPaths { games: stamped_games, settings, index: index + 1 }
            } else {
                DashboardStepView::Finished(Ok(DashboardView { games: stamped_games }))
            }
        }),
{
    lemma_at_path_skips(
        ScanView { games, settings, index, paths, place: 0, newest: None },
        place,
    );
}

/// A save folder is expanded, and what is scanned is its expansion. The time that the scan
/// gives replaces the newest so far exactly where there was none or the time comes after it.
/// Then the next save folder on this device follows; after the last one the game is stamped
/// with the newest time, and the next game follows, or the end.
pub proof fn law_scanning_keeps_the_newest(
    scan: ScanView,
    folder: Seq<char>,
    time: Option<Seq<char>>,
    place: int,
)
    requires
        0 <= scan.index < scan.games.len(),
        0 <= scan.place < place <= scan.paths.len(),
        forall|j: int| scan.place < j < place ==> (#[trigger] scan.paths[j]) is None,
        place < scan.paths.len() ==> scan.paths[place] is Some,
    ensures
        (DashboardStepView::ExpandPath { scan }).next(ReplyView::Text(folder)) == (
        DashboardStepView::ScanFolder { scan, folder }),
        ({
            let newest = if time is Some && (scan.newest is None || crate::text::text_before(
                scan.newest->0,
                time->0,
            )) {
                time
            } else {
                scan.newest
            };
            let games = scan.games.update(
                scan.index,
                GameView { last_local_modified: newest, ..scan.games[scan.index] },
            );
            (DashboardStepView::ScanFolder { scan, folder }).next(ReplyView::Optional(time))
                == if place < scan.paths.len() {
                DashboardStepView::ExpandPath { scan: ScanView { place, newest, ..scan } }
            } else if scan.index + 1 < scan.games.len() {
                DashboardStepView::ListPaths {
                    games,
                    settings: scan.settings,
                    index: scan.index + 1,
                }
            } else {
                DashboardStepView::Finished(Ok(DashboardView { games }))
            }
        }),
{
    lemma_at_path_skips(
        ScanView { place: scan.place + 1, newest: newer_of(scan.newest, time), ..scan },
        place,
    );
}

/// A step waits for its own kind of reply, and the end is the end.
pub proof fn law_dashboard_waits(step: DashboardStepView, reply: ReplyView)
    ensures
        step.finished() <==> step is Finished,
        step is Finished ==> step.next(reply) == step,
        step is ReconcilePlaytime && reply !is Done ==> step.next(reply) == step,
        step is FetchLibrary && reply !is Answer ==> step.next(reply) == step,
        step is LoadState && reply !is State ==> step.next(reply) == step,
        step is ApplyOverrides && reply !is Games ==> step.next(reply) == step,
        step is ListPaths && reply !is Paths ==> step.next(reply) == step,
        step is ExpandPath && reply !is Text ==> step.next(reply) == step,
        step is ScanFolder && reply !is Optional ==> step.next(reply) == step,
{
}

/// A listing names the game at its place, with the settings; an expansion names the save folder
/// at its place. No other step names one.
pub proof fn law_dashboard_names_what_it_points_at(
    games: Seq<GameView>,
    settings: SettingsView,
    index: int,
    scan: ScanView,
    step: DashboardStepView,
)
    ensures
        step !is ListPaths ==> step.names_game() is None,
        step !is ExpandPath ==> step.names_path() is None,
        0 <= index < games.len() ==> (DashboardStepView::ListPaths {
            games,
            settings,
            index,
        }).names_game() == Some((games[index], settings)),
        0 <= scan.place < scan.paths.len() ==> (DashboardStepView::ExpandPath {
            scan,
        }).names_path() == scan.paths[scan.place],
{
}

/// The value of a step of loading the dashboard tells what the step holds.
pub proof fn law_dashboard_step_value(step: Dashboard, scan: Scan)
    ensures
        match step {
            Dashboard::ReconcilePlaytime => step.deep_view()
                == DashboardStepView::ReconcilePlaytime,
            Dashboard::FetchLibrary => step.deep_view() == DashboardStepView::FetchLibrary,
            Dashboard::LoadState => step.deep_view() == DashboardStepView::LoadState,
            Dashboard::ApplyOverrides { state } => step.deep_view() == (
            DashboardStepView::ApplyOverrides { state: state.deep_view() }),
            Dashboard::ListPaths { games, settings, index } => step.deep_view() == (
            DashboardStepView::ListPaths {
                games: games.deep_view(),
                settings: settings.deep_view(),
                index: index as int,
            }),
            Dashboard::ExpandPath { scan: held } => step.deep_view() == (
            DashboardStepView::ExpandPath { scan: held.deep_view() }),
            Dashboard::ScanFolder { scan: held, folder } => step.deep_view() == (
            DashboardStepView::ScanFolder { scan: held.deep_view(), folder: folder@ }),
            Dashboard::Finished(result) => step.deep_view() == DashboardStepView::Finished(
                crate::model::outcome(result),
            ),
        },
        scan.deep_view().games == scan.games.deep_view(),
        scan.deep_view().settings == scan.settings.deep_view(),
        scan.deep_view().index == scan.index,
        scan.deep_view().paths == scan.paths.deep_view(),
        scan.deep_view().place == scan.place,
        scan.deep_view().newest == scan.newest.deep_view(),
{
}

} // verus!
