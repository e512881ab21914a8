//! The end that most commands share: the state is read again, the path overrides of this
//! device are applied, and the games go to the dashboard.

use vstd::prelude::*;

use crate::model::{AppState, DashboardData, DashboardView, GameView, StateView};
use crate::protocol::{Protocol, Reply, ReplyView, World};

verus! {

/// A step of the refresh.
#[derive(Debug, PartialEq, Eq)]
pub enum Refresh {
    /// Read the state kept on this device.
    LoadState,
    /// Apply the path overrides in the settings to the games.
    ApplyOverrides { state: AppState },
    /// Give this to the caller.
    Finished(Result<DashboardData, String>),
}

/// The value of a [`Refresh`].
pub enum RefreshView {
    LoadState,
    ApplyOverrides { state: StateView },
    Finished(Result<DashboardView, Seq<char>>),
}

impl DeepView for Refresh {
    type V = RefreshView;

    open spec fn deep_view(&self) -> RefreshView {
        match *self {
            Refresh::LoadState => RefreshView::LoadState,
            Refresh::ApplyOverrides { state } => RefreshView::ApplyOverrides {
                state: state.deep_view(),
            },
            Refresh::Finished(result) => RefreshView::Finished(crate::model::outcome(result)),
        }
    }
}

impl Protocol for RefreshView {
    open spec fn asks_for(self, reply: ReplyView) -> bool {
        match self {
            RefreshView::LoadState => reply is State,
            RefreshView::ApplyOverrides { .. } => reply is Games,
            RefreshView::Finished(_) => true,
        }
    }

    open spec fn next(self, reply: ReplyView) -> RefreshView {
        match (self, reply) {
            (RefreshView::LoadState, ReplyView::State(Ok(state))) => {
                RefreshView::ApplyOverrides { state }
            },
            (RefreshView::LoadState, ReplyView::State(Err(message))) => {
                RefreshView::Finished(Err(message))
            },
            (RefreshView::ApplyOverrides { .. }, ReplyView::Games(games)) => {
                RefreshView::Finished(Ok(DashboardView { games }))
            },
            _ => self,
        }
    }

    open spec fn finished(self) -> bool {
        self is Finished
    }

    proof fn law_other_replies_change_nothing(self, reply: ReplyView) {
    }

    proof fn law_finished_stays(self, reply: ReplyView) {
    }
}

impl Refresh {
    /// Begins after a change that was made or that failed, such as adding a game or cleaning
    /// what is not to be synchronised: a failure is passed on, and nothing else is done.
    pub fn after(change: Result<(), String>) -> (step: Self)
        ensures
            step.deep_view() == match crate::model::outcome(change) {
                Ok(_) => RefreshView::LoadState,
                Err(message) => RefreshView::Finished(Err(message)),
            },
    {
        match change {
            Ok(()) => Refresh::LoadState,
            Err(message) => Refresh::Finished(Err(message)),
        }
    }

    /// The step after this one.
    pub fn advance(self, reply: Reply) -> (step: Self)
        ensures
            step.deep_view() == self.deep_view().next(reply.deep_view()),
    {
        match self {
            Refresh::LoadState => match reply {
                Reply::State(Ok(state)) => Refresh::ApplyOverrides { state },
                Reply::State(Err(message)) => Refresh::Finished(Err(message)),
                _ => Refresh::LoadState,
            },
            Refresh::ApplyOverrides { state } => match reply {
                Reply::Games(games) => Refresh::Finished(Ok(DashboardData { games })),
                _ => Refresh::ApplyOverrides { state },
            },
            Refresh::Finished(result) => Refresh::Finished(result),
        }
    }
}

/// The steps of a whole refresh, where `loaded` is what reading the state gave and `games` are
/// the games with the path overrides applied.
pub open spec fn refresh_steps(
    loaded: Result<StateView, Seq<char>>,
    games: Seq<GameView>,
) -> Seq<RefreshView> {
    match loaded {
        Err(message) => seq![RefreshView::LoadState, RefreshView::Finished(Err(message))],
        Ok(state) => seq![
            RefreshView::LoadState,
            RefreshView::ApplyOverrides { state },
            RefreshView::Finished(Ok(DashboardView { games })),
        ],
    }
}

/// A refresh reads the state once, and shows its games with the path overrides applied; where
/// the state cannot be read, the error is the answer and nothing is overridden.
pub proof fn law_refresh_steps(world: World<RefreshView>, count: nat)
    requires
        crate::protocol::cooperative(world),
        count >= 2,
    ensures
        ({
            let loaded = world(RefreshView::LoadState)->State_0;
            crate::protocol::trace(RefreshView::LoadState, world, count) == refresh_steps(
                loaded,
                world(RefreshView::ApplyOverrides { state: loaded->Ok_0 })->Games_0,
            )
        }),
{
    reveal_with_fuel(crate::protocol::trace, 4);
    let first = RefreshView::LoadState;
    assert(first.asks_for(world(first)));
    let second = first.next(world(first));
    assert(second.asks_for(world(second)));
}

/// What each reply makes of a refresh. A state that is read goes on whole to have its path
/// overrides applied, and the games that come back are what is shown; a state that cannot be
/// read ends the refresh with its error. No other reply counts.
pub proof fn law_refresh_follows_replies(
    loaded: Result<StateView, Seq<char>>,
    state: StateView,
    games: Seq<GameView>,
    result: Result<DashboardView, Seq<char>>,
    reply: ReplyView,
)
    ensures
        RefreshView::LoadState.next(ReplyView::State(loaded)) == match loaded {
            Ok(read) => RefreshView::ApplyOverrides { state: read },
            Err(message) => RefreshView::Finished(Err(message)),
        },
        (RefreshView::ApplyOverrides { state }).next(ReplyView::Games(games))
            == RefreshView::Finished(Ok(DashboardView { games })),
        RefreshView::Finished(result).next(reply) == RefreshView::Finished(result),
        reply !is State ==> RefreshView::LoadState.next(reply) == RefreshView::LoadState,
        reply !is Games ==> (RefreshView::ApplyOverrides { state }).next(reply)
            == (RefreshView::ApplyOverrides { state }),
        RefreshView::Finished(result).finished(),
        !RefreshView::LoadState.finished(),
        !(RefreshView::ApplyOverrides { state }).finished(),
{
}

/// The value of a step of the refresh tells what the step holds.
pub proof fn law_refresh_value(step: Refresh)
    ensures
        match step {
            Refresh::LoadState => step.deep_view() == RefreshView::LoadState,
            Refresh::ApplyOverrides { state } => step.deep_view() == (
            RefreshView::ApplyOverrides { state: state.deep_view() }),
            Refresh::Finished(result) => step.deep_view() == RefreshView::Finished(
                crate::model::outcome(result),
            ),
        },
{
}

} // verus!
