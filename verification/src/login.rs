//! Signing in, and what is done in the background after every sign-in.

use vstd::prelude::*;

use crate::protocol::{Protocol, Reply, ReplyView, World};

verus! {

/// What becomes of a sign-in.
#[derive(Debug, PartialEq, Eq)]
pub struct LoginDecision<A> {
    /// What the caller gets, at once.
    pub answer: Result<A, String>,
    /// Whether the work after a sign-in is started in the background.
    pub start_restore: bool,
}

/// Decides on a sign-in by whether its tokens could be stored. The answer is what storing them
/// gave; the work in the background is started exactly where they are stored.
pub fn save_auth_tokens<A>(saved: Result<A, String>) -> (decision: LoginDecision<A>)
    ensures
        decision.answer == saved,
        decision.start_restore == saved is Ok,
{
    let start_restore = saved.is_ok();
    LoginDecision { answer: saved, start_restore }
}

/// The credentials that the sign-in dialog needs.
#[derive(Debug, PartialEq, Eq)]
pub struct OAuthCredentials {
    pub client_id: String,
    pub client_secret: Option<String>,
}

/// Puts the credentials together; without a client identifier there are none.
pub fn get_oauth_credentials(
    client_id: Result<String, String>,
    client_secret: Option<String>,
) -> (credentials: Result<OAuthCredentials, String>)
    ensures
        credentials == match client_id {
            Ok(client_id) => Ok(OAuthCredentials { client_id, client_secret }),
            Err(message) => Err(message),
        },
{
    match client_id {
        Ok(client_id) => Ok(OAuthCredentials { client_id, client_secret }),
        Err(message) => Err(message),
    }
}

/// What the synchronisation of one game moved.
#[derive(Clone, Copy, Debug, PartialEq, Eq, Structural)]
pub struct SyncResult {
    pub downloaded: u32,
    pub uploaded: u32,
}

/// What the synchronisation of all games moved.
#[derive(Clone, Copy, Debug, PartialEq, Eq, Structural)]
pub struct SyncTotals {
    pub games: usize,
    pub downloaded: u32,
    pub uploaded: u32,
}

/// The files downloaded for some games.
pub open spec fn total_downloaded(results: Seq<SyncResult>) -> nat
    decreases results.len(),
{
    if results.len() == 0 {
        0
    } else {
        total_downloaded(results.drop_last()) + results.last().downloaded as nat
    }
}

/// The files uploaded for some games.
pub open spec fn total_uploaded(results: Seq<SyncResult>) -> nat
    decreases results.len(),
{
    if results.len() == 0 {
        0
    } else {
        total_uploaded(results.drop_last()) + results.last().uploaded as nat
    }
}

proof fn lemma_totals_grow(results: Seq<SyncResult>, count: int)
    requires
        0 <= count <= results.len(),
    ensures
        total_downloaded(results.take(count)) <= total_downloaded(results),
        total_uploaded(results.take(count)) <= total_uploaded(results),
    decreases results.len(),
{
    if count < results.len() {
        lemma_totals_grow(results.drop_last(), count);
        assert(results.drop_last().take(count) =~= results.take(count));
    } else {
        assert(results.take(count) =~= results);
    }
}

/// Adds up what a synchronisation moved. There is no sum where one of the two does not fit.
pub fn sync_totals(results: &Vec<SyncResult>) -> (totals: Option<SyncTotals>)
    ensures
        totals is Some <==> total_downloaded(results@) <= u32::MAX && total_uploaded(results@)
            <= u32::MAX,
        totals matches Some(t) ==> {
            &&& t.games == results@.len()
            &&& t.downloaded == total_downloaded(results@)
            &&& t.uploaded == total_uploaded(results@)
        },
{
    let mut downloaded: u32 = 0;
    let mut uploaded: u32 = 0;
    let mut i: usize = 0;
    while i < results.len()
        invariant
            i <= results@.len(),
            downloaded == total_downloaded(results@.take(i as int)),
            uploaded == total_uploaded(results@.take(i as int)),
        decreases results@.len() - i,
    {
        proof {
            lemma_totals_grow(results@, i + 1);
            assert(results@.take(i + 1).drop_last() =~= results@.take(i as int));
        }
        downloaded = match downloaded.checked_add(results[i].downloaded) {
            Some(sum) => sum,
            None => return None,
        };
        uploaded = match uploaded.checked_add(results[i].uploaded) {
            Some(sum) => sum,
            None => return None,
        };
        i = i + 1;
    }
    assert(results@.take(i as int) =~= results@);
    Some(SyncTotals { games: i, downloaded, uploaded })
}

/// An event for the user interface.
#[derive(Clone, Copy, Debug, PartialEq, Eq, Structural)]
pub enum Event {
    /// The library came back from the cloud.
    LibraryRestored,
    /// The synchronisation after a sign-in is over.
    PostLoginSyncCompleted,
}

impl Event {
    /// The name of an event.
    pub open spec fn text(self) -> Seq<char> {
        match self {
            Event::LibraryRestored => "library-restored"@,
            Event::PostLoginSyncCompleted => "post-login-sync-completed"@,
        }
    }

    /// The name under which the event is sent.
    pub fn name(self) -> (name: &'static str)
        ensures
            name@ == self.text(),
    {
        match self {
            Event::LibraryRestored => "library-restored",
            Event::PostLoginSyncCompleted => "post-login-sync-completed",
        }
    }
}

/// A step of the work after a sign-in.
#[derive(Clone, Copy, Debug, PartialEq, Eq, Structural)]
pub enum PostLogin {
    /// Fetch the library and the settings from the cloud; the answer says whether there were
    /// any.
    FetchLibrary,
    /// Send the event that the library came back.
    AnnounceRestored,
    /// Register this device.
    RegisterDevice,
    /// Bring the path overrides of this device and in the cloud together.
    MergePaths,
    /// Bring the executable overrides of this device and in the cloud together.
    MergeExePaths,
    /// Synchronise the saves of all games.
    SyncAllGames,
    /// Send the event that the synchronisation is over.
    AnnounceSynced,
    /// Nothing is left to do.
    Finished,
}

impl Protocol for PostLogin {
    open spec fn asks_for(self, reply: ReplyView) -> bool {
        match self {
            PostLogin::FetchLibrary => reply is Answer,
            PostLogin::Finished => true,
            _ => reply is Done,
        }
    }

    open spec fn next(self, reply: ReplyView) -> PostLogin {
        match (self, reply) {
            (PostLogin::FetchLibrary, ReplyView::Answer(Ok(true))) => PostLogin::AnnounceRestored,
            (PostLogin::FetchLibrary, ReplyView::Answer(_)) => PostLogin::RegisterDevice,
            (PostLogin::AnnounceRestored, ReplyView::Done(_)) => PostLogin::RegisterDevice,
            (PostLogin::RegisterDevice, ReplyView::Done(_)) => PostLogin::MergePaths,
            (PostLogin::MergePaths, ReplyView::Done(_)) => PostLogin::MergeExePaths,
            (PostLogin::MergeExePaths, ReplyView::Done(_)) => PostLogin::SyncAllGames,
            (PostLogin::SyncAllGames, ReplyView::Done(_)) => PostLogin::AnnounceSynced,
            (PostLogin::AnnounceSynced, ReplyView::Done(_)) => PostLogin::Finished,
            _ => self,
        }
    }

    open spec fn finished(self) -> bool {
        self is Finished
    }

    proof fn law_other_replies_change_nothing(self, reply: ReplyView) {
    }

    proof fn law_finished_stays(self, reply: ReplyView) {
    }
}

impl PostLogin {
    /// The first step of the work after a sign-in.
    pub fn begin() -> (step: Self)
        ensures
            step == PostLogin::FetchLibrary,
    {
        PostLogin::FetchLibrary
    }

    /// The event that this step sends.
    pub open spec fn sends(self) -> Option<Event> {
        match self {
            PostLogin::AnnounceRestored => Some(Event::LibraryRestored),
            PostLogin::AnnounceSynced => Some(Event::PostLoginSyncCompleted),
            _ => None,
        }
    }

    /// The event that this step sends, if it sends one.
    pub fn event(self) -> (event: Option<Event>)
        ensures
            event == self.sends(),
    {
        match self {
            PostLogin::AnnounceRestored => Some(Event::LibraryRestored),
            PostLogin::AnnounceSynced => Some(Event::PostLoginSyncCompleted),
            _ => None,
        }
    }

    /// The step after this one.
    pub fn advance(self, reply: Reply) -> (step: Self)
        ensures
            step == self.next(reply.deep_view()),
    {
        match self {
            PostLogin::FetchLibrary => match reply {
                Reply::Answer(Ok(true)) => PostLogin::AnnounceRestored,
                Reply::Answer(_) => PostLogin::RegisterDevice,
                _ => self,
            },
            PostLogin::Finished => self,
            _ => match reply {
                Reply::Done(_) => match self {
                    PostLogin::AnnounceRestored => PostLogin::RegisterDevice,
                    PostLogin::RegisterDevice => PostLogin::MergePaths,
                    PostLogin::MergePaths => PostLogin::MergeExePaths,
                    PostLogin::MergeExePaths => PostLogin::SyncAllGames,
                    PostLogin::SyncAllGames => PostLogin::AnnounceSynced,
                    _ => PostLogin::Finished,
                },
                _ => self,
            },
        }
    }
}

/// The steps of the work after a sign-in, in order. No failure cuts it short: the device is
/// always registered, the overrides always merged, the games always synchronised after that,
/// and the end of it always announced. That the library came back is announced exactly where
/// the cloud had one, and before anything else is done.
pub proof fn law_post_login_steps(world: World<PostLogin>, count: nat)
    requires
        crate::protocol::cooperative(world),
        count >= 7,
    ensures
        crate::protocol::trace(PostLogin::FetchLibrary, world, count) == seq![
            PostLogin::FetchLibrary,
        ] + (if world(PostLogin::FetchLibrary)->Answer_0 == Ok::<bool, Seq<char>>(true) {
            seq![PostLogin::AnnounceRestored]
        } else {
            Seq::empty()
        }) + seq![
            PostLogin::RegisterDevice,
            PostLogin::MergePaths,
            PostLogin::MergeExePaths,
            PostLogin::SyncAllGames,
            PostLogin::AnnounceSynced,
            PostLogin::Finished,
        ],
{
    reveal_with_fuel(crate::protocol::trace, 9);
    assert(PostLogin::FetchLibrary.asks_for(world(PostLogin::FetchLibrary)));
    assert(PostLogin::AnnounceRestored.asks_for(world(PostLogin::AnnounceRestored)));
    assert(PostLogin::RegisterDevice.asks_for(world(PostLogin::RegisterDevice)));
    assert(PostLogin::MergePaths.asks_for(world(PostLogin::MergePaths)));
    assert(PostLogin::MergeExePaths.asks_for(world(PostLogin::MergeExePaths)));
    assert(PostLogin::SyncAllGames.asks_for(world(PostLogin::SyncAllGames)));
    assert(PostLogin::AnnounceSynced.asks_for(world(PostLogin::AnnounceSynced)));
}

/// What is moved in two rounds of synchronisation adds up, each direction on its own; one game
/// counts for what it moved, and no game for nothing.
pub proof fn law_totals_add_up(a: Seq<SyncResult>, b: Seq<SyncResult>, one: SyncResult)
    ensures
        total_downloaded(Seq::empty()) == 0,
        total_uploaded(Seq::empty()) == 0,
        total_downloaded(seq![one]) == one.downloaded,
        total_uploaded(seq![one]) == one.uploaded,
        total_downloaded(a + b) == total_downloaded(a) + total_downloaded(b),
        total_uploaded(a + b) == total_uploaded(a) + total_uploaded(b),
    decreases b.len(),
{
    assert(seq![one].drop_last() =~= Seq::empty());
    reveal_with_fuel(total_downloaded, 2);
    reveal_with_fuel(total_uploaded, 2);
    if b.len() == 0 {
        assert(a + b =~= a);
    } else {
        assert((a + b).drop_last() =~= a + b.drop_last());
        law_totals_add_up(a, b.drop_last(), one);
    }
}

/// What follows what after a sign-in: each piece of work comes after the one before it has come
/// to an end, good or bad. The answer of the cloud counts for the announcement alone. A step
/// waits for its own kind of reply.
pub proof fn law_post_login_order(
    answer: Result<bool, Seq<char>>,
    done: Result<(), Seq<char>>,
    step: PostLogin,
    reply: ReplyView,
)
    ensures
        PostLogin::FetchLibrary.next(ReplyView::Answer(answer)) == if answer == Ok::<
            bool,
            Seq<char>,
        >(true) {
            PostLogin::AnnounceRestored
        } else {
            PostLogin::RegisterDevice
        },
        PostLogin::AnnounceRestored.next(ReplyView::Done(done)) == PostLogin::RegisterDevice,
        PostLogin::RegisterDevice.next(ReplyView::Done(done)) == PostLogin::MergePaths,
        PostLogin::MergePaths.next(ReplyView::Done(done)) == PostLogin::MergeExePaths,
        PostLogin::MergeExePaths.next(ReplyView::Done(done)) == PostLogin::SyncAllGames,
        PostLogin::SyncAllGames.next(ReplyView::Done(done)) == PostLogin::AnnounceSynced,
        PostLogin::AnnounceSynced.next(ReplyView::Done(done)) == PostLogin::Finished,
        step == PostLogin::Finished ==> step.next(reply) == step,
        step == PostLogin::FetchLibrary && reply !is Answer ==> step.next(reply) == step,
        step != PostLogin::FetchLibrary && reply !is Done ==> step.next(reply) == step,
        step.finished() <==> step == PostLogin::Finished,
{
}

/// Two steps send an event, each its own, under the name that the user interface listens for;
/// no other step sends one.
pub proof fn law_announcements(step: PostLogin)
    ensures
        step == PostLogin::AnnounceRestored <==> step.sends() == Some(Event::LibraryRestored),
        step == PostLogin::AnnounceSynced <==> step.sends() == Some(
            Event::PostLoginSyncCompleted,
        ),
        Event::LibraryRestored.text() == "library-restored"@,
        Event::PostLoginSyncCompleted.text() == "post-login-sync-completed"@,
{
}

} // verus!
