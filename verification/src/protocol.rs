//! How a command works with the world outside.
//!
//! A command is a sequence of steps. A step names the one thing that has to be done next: a
//! file to read, a request to send, a process to start. Whoever runs the command does that
//! thing and hands the [`Reply`] to `advance`, which gives the next step. The steps decide;
//! they do nothing themselves.

use vstd::prelude::*;

use crate::model::{AppSettings, AppState, Game, GameView, SettingsView, StateView};

verus! {

/// What came back from the thing that a step asked for.
#[derive(Debug, PartialEq, Eq)]
pub enum Reply {
    /// It was done, or it failed.
    Done(Result<(), String>),
    /// It was done, and says yes or no.
    Answer(Result<bool, String>),
    /// The state kept on this device.
    State(Result<AppState, String>),
    /// Games with the path overrides of this device applied.
    Games(Vec<Game>),
    /// One game of the library.
    Game(Result<Game, String>),
    /// The save folders of a game on this device; `None` for one that has none here.
    Paths(Vec<Option<String>>),
    /// A text.
    Text(String),
    /// A text, or nothing.
    Optional(Option<String>),
    /// A text, or the reason why there is none.
    Fallible(Result<String, String>),
    /// The settings of this device.
    Settings(Result<AppSettings, String>),
}

/// The value of a [`Reply`].
pub enum ReplyView {
    Done(Result<(), Seq<char>>),
    Answer(Result<bool, Seq<char>>),
    State(Result<StateView, Seq<char>>),
    Games(Seq<GameView>),
    Game(Result<GameView, Seq<char>>),
    Paths(Seq<Option<Seq<char>>>),
    Text(Seq<char>),
    Optional(Option<Seq<char>>),
    Fallible(Result<Seq<char>, Seq<char>>),
    Settings(Result<SettingsView, Seq<char>>),
}

impl DeepView for Reply {
    type V = ReplyView;

    open spec fn deep_view(&self) -> ReplyView {
        match *self {
            Reply::Done(result) => ReplyView::Done(crate::model::outcome(result)),
            Reply::Answer(result) => ReplyView::Answer(crate::model::outcome(result)),
            Reply::State(result) => ReplyView::State(crate::model::outcome(result)),
            Reply::Games(games) => ReplyView::Games(games.deep_view()),
            Reply::Game(result) => ReplyView::Game(crate::model::outcome(result)),
            Reply::Paths(paths) => ReplyView::Paths(paths.deep_view()),
            Reply::Text(text) => ReplyView::Text(text@),
            Reply::Optional(text) => ReplyView::Optional(text.deep_view()),
            Reply::Fallible(result) => ReplyView::Fallible(crate::model::outcome(result)),
            Reply::Settings(result) => ReplyView::Settings(crate::model::outcome(result)),
        }
    }
}

/// The steps of a command, as values.
pub trait Protocol: Sized {
    /// Whether `reply` is of the kind that this step asks for.
    spec fn asks_for(self, reply: ReplyView) -> bool;

    /// The step after this one.
    spec fn next(self, reply: ReplyView) -> Self;

    /// Whether the command is over.
    spec fn finished(self) -> bool;

    /// A reply of another kind than the one asked for changes nothing.
    proof fn law_other_replies_change_nothing(self, reply: ReplyView)
        requires
            !self.asks_for(reply),
        ensures
            self.next(reply) == self,
    ;

    /// A command that is over stays as it is.
    proof fn law_finished_stays(self, reply: ReplyView)
        requires
            self.finished(),
        ensures
            self.next(reply) == self,
    ;
}

/// The world outside, as one run of a command meets it: a reply for each step. A run that ends
/// goes through no step twice (see [`law_no_step_twice`]), so this leaves the world free to
/// answer a question differently at another time.
pub type World<S> = spec_fn(S) -> ReplyView;

/// Whether every step gets a reply of the kind that it asks for.
pub open spec fn cooperative<S: Protocol>(world: World<S>) -> bool {
    forall|step: S| #[trigger] step.asks_for(world(step))
}

/// Where a command stands after `count` replies.
pub open spec fn run<S: Protocol>(start: S, world: World<S>, count: nat) -> S
    decreases count,
{
    if count == 0 {
        start
    } else {
        run(start.next(world(start)), world, (count - 1) as nat)
    }
}

/// Whether a command that stands at `start` ends at `end`.
pub open spec fn leads_to<S: Protocol>(start: S, world: World<S>, end: S) -> bool {
    &&& end.finished()
    &&& exists|count: nat| #[trigger] run(start, world, count) == end
}

/// Where the next step leads, this step leads.
pub proof fn lemma_leads_back<S: Protocol>(start: S, world: World<S>, end: S)
    requires
        leads_to(start.next(world(start)), world, end),
    ensures
        leads_to(start, world, end),
{
    let count = choose|count: nat|
        #[trigger] run(start.next(world(start)), world, count) == end;
    assert(run(start, world, count + 1) == end);
}

/// A run of `a` replies followed by one of `b` replies is a run of `a + b` replies.
pub proof fn law_run_continues<S: Protocol>(start: S, world: World<S>, a: nat, b: nat)
    ensures
        run(run(start, world, a), world, b) == run(start, world, a + b),
    decreases a,
{
    if a > 0 {
        law_run_continues(start.next(world(start)), world, (a - 1) as nat, b);
    }
}

proof fn lemma_run_stays<S: Protocol>(end: S, world: World<S>, count: nat)
    requires
        end.finished(),
    ensures
        run(end, world, count) == end,
    decreases count,
{
    if count > 0 {
        end.law_finished_stays(world(end));
        lemma_run_stays(end, world, (count - 1) as nat);
    }
}

/// A command has at most one end.
pub proof fn law_end_is_unique<S: Protocol>(start: S, world: World<S>, a: S, b: S)
    requires
        leads_to(start, world, a),
        leads_to(start, world, b),
    ensures
        a == b,
{
    let m = choose|count: nat| #[trigger] run(start, world, count) == a;
    let n = choose|count: nat| #[trigger] run(start, world, count) == b;
    if m <= n {
        law_run_continues(start, world, m, (n - m) as nat);
        lemma_run_stays(a, world, (n - m) as nat);
    } else {
        law_run_continues(start, world, n, (m - n) as nat);
        lemma_run_stays(b, world, (m - n) as nat);
    }
}

proof fn lemma_cycle<S: Protocol>(step: S, world: World<S>, length: nat, bound: nat) -> (count:
    nat)
    requires
        length > 0,
        run(step, world, length) == step,
    ensures
        count >= bound,
        run(step, world, count) == step,
    decreases bound,
{
    if bound == 0 {
        0
    } else {
        let count = lemma_cycle(step, world, length, (bound - 1) as nat);
        law_run_continues(step, world, count, length);
        count + length
    }
}

/// A command that ends goes through no step twice.
pub proof fn law_no_step_twice<S: Protocol>(start: S, world: World<S>, end: S, a: nat, b: nat)
    requires
        leads_to(start, world, end),
        a < b,
        run(start, world, a) == run(start, world, b),
    ensures
        run(start, world, a) == end,
{
    let step = run(start, world, a);
    let last = choose|count: nat| #[trigger] run(start, world, count) == end;
    law_run_continues(start, world, a, (b - a) as nat);
    let count = lemma_cycle(step, world, (b - a) as nat, last);
    law_run_continues(start, world, a, count);
    law_run_continues(start, world, last, (a + count - last) as nat);
    lemma_run_stays(end, world, (a + count - last) as nat);
}

/// The steps that a command goes through, the last one included, in at most `count` replies.
pub open spec fn trace<S: Protocol>(start: S, world: World<S>, count: nat) -> Seq<S>
    decreases count,
{
    if count == 0 || start.finished() {
        seq![start]
    } else {
        seq![start] + trace(start.next(world(start)), world, (count - 1) as nat)
    }
}

/// The steps that a command goes through are those of its run, up to the first that ends it or
/// to the last of the replies.
pub proof fn law_trace_is_run<S: Protocol>(start: S, world: World<S>, count: nat)
    ensures
        ({
            let steps = trace(start, world, count);
            &&& 0 < steps.len() <= count + 1
            &&& steps.last().finished() || steps.len() == count + 1
            &&& forall|i: int| 0 <= i < steps.len() ==> #[trigger] steps[i] == run(
                start,
                world,
                i as nat,
            )
            &&& forall|i: int| 0 <= i < steps.len() - 1 ==> !(#[trigger] steps[i]).finished()
        }),
    decreases count,
{
    let steps = trace(start, world, count);
    if count > 0 && !start.finished() {
        let next = start.next(world(start));
        let rest = trace(next, world, (count - 1) as nat);
        law_trace_is_run(next, world, (count - 1) as nat);
        assert(steps == seq![start] + rest);
        assert forall|i: int| 0 <= i < steps.len() implies #[trigger] steps[i] == run(
            start,
            world,
            i as nat,
        ) by {
            if i > 0 {
                assert(steps[i] == rest[i - 1]);
            }
        }
        assert forall|i: int| 0 <= i < steps.len() - 1 implies !(#[trigger] steps[i]).finished() by {
            if i > 0 {
                assert(steps[i] == rest[i - 1]);
            }
        }
    }
}

/// A run stands at its start before the first reply, and every reply takes it one step on.
pub proof fn law_run_goes_step_by_step<S: Protocol>(start: S, world: World<S>, count: nat)
    ensures
        run(start, world, 0) == start,
        run(start, world, count + 1) == run(start, world, count).next(
            world(run(start, world, count)),
        ),
{
    law_run_continues(start, world, count, 1);
    reveal_with_fuel(run, 2);
}

/// The value of a reply tells what the reply carries.
pub proof fn law_reply_value(reply: Reply)
    ensures
        match reply {
            Reply::Done(result) => reply.deep_view() == ReplyView::Done(
                crate::model::outcome(result),
            ),
            Reply::Answer(result) => reply.deep_view() == ReplyView::Answer(
                crate::model::outcome(result),
            ),
            Reply::State(result) => reply.deep_view() == ReplyView::State(
                crate::model::outcome(result),
            ),
            Reply::Games(games) => reply.deep_view() == ReplyView::Games(games.deep_view()),
            Reply::Game(result) => reply.deep_view() == ReplyView::Game(
                crate::model::outcome(result),
            ),
            Reply::Paths(paths) => reply.deep_view() == ReplyView::Paths(paths.deep_view()),
            Reply::Text(text) => reply.deep_view() == ReplyView::Text(text@),
            Reply::Optional(text) => reply.deep_view() == ReplyView::Optional(text.deep_view()),
            Reply::Fallible(result) => reply.deep_view() == ReplyView::Fallible(
                crate::model::outcome(result),
            ),
            Reply::Settings(result) => reply.deep_view() == ReplyView::Settings(
                crate::model::outcome(result),
            ),
        },
{
}

} // verus!
