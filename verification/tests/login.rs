use game_sync::login::{
    get_oauth_credentials, save_auth_tokens, sync_totals, Event, OAuthCredentials, PostLogin,
    SyncResult, SyncTotals,
};
use game_sync::protocol::Reply;

fn text(value: &str) -> String {
    value.to_string()
}

#[test]
fn stored_tokens_start_the_restore() {
    let decision = save_auth_tokens(Ok(42));
    assert_eq!(decision.answer, Ok(42));
    assert!(decision.start_restore);
}

#[test]
fn refused_tokens_start_nothing() {
    let decision = save_auth_tokens::<u8>(Err(text("bad token")));
    assert_eq!(decision.answer, Err(text("bad token")));
    assert!(!decision.start_restore);
}

#[test]
fn credentials_need_a_client_identifier() {
    assert_eq!(
        get_oauth_credentials(Ok(text("id")), Some(text("s"))),
        Ok(OAuthCredentials { client_id: text("id"), client_secret: Some(text("s")) })
    );
    assert_eq!(
        get_oauth_credentials(Ok(text("id")), None),
        Ok(OAuthCredentials { client_id: text("id"), client_secret: None })
    );
    assert_eq!(get_oauth_credentials(Err(text("not set")), None), Err(text("not set")));
}

#[test]
fn totals_are_added_up() {
    let results = vec![
        SyncResult { downloaded: 1, uploaded: 20 },
        SyncResult { downloaded: 2, uploaded: 0 },
        SyncResult { downloaded: 4, uploaded: 1 },
    ];
    let totals = SyncTotals { games: 3, downloaded: 7, uploaded: 21 };
    assert_eq!(sync_totals(&results), Some(totals));
    let none = SyncTotals { games: 0, downloaded: 0, uploaded: 0 };
    assert_eq!(sync_totals(&vec![]), Some(none));
}

#[test]
fn totals_that_do_not_fit_are_none() {
    let most = SyncResult { downloaded: u32::MAX, uploaded: u32::MAX };
    let full = SyncTotals { games: 1, downloaded: u32::MAX, uploaded: u32::MAX };
    assert_eq!(sync_totals(&vec![most]), Some(full));
    let down = SyncResult { downloaded: 1, uploaded: 0 };
    assert_eq!(sync_totals(&vec![most, down]), None);
    let up = SyncResult { downloaded: 0, uploaded: 1 };
    assert_eq!(sync_totals(&vec![up, most]), None);
}

fn steps(fetched: Result<bool, String>, done: Result<(), String>) -> Vec<PostLogin> {
    let mut step = PostLogin::begin();
    let mut seen = vec![step];
    while step != PostLogin::Finished {
        let reply = match step {
            PostLogin::FetchLibrary => Reply::Answer(fetched.clone()),
            _ => Reply::Done(done.clone()),
        };
        step = step.advance(reply);
        seen.push(step);
    }
    seen
}

#[test]
fn restored_library_is_announced_first() {
    assert_eq!(
        steps(Ok(true), Ok(())),
        [
            PostLogin::FetchLibrary,
            PostLogin::AnnounceRestored,
            PostLogin::RegisterDevice,
            PostLogin::MergePaths,
            PostLogin::MergeExePaths,
            PostLogin::SyncAllGames,
            PostLogin::AnnounceSynced,
            PostLogin::Finished,
        ]
    );
}

#[test]
fn failures_do_not_cut_the_restore_short() {
    let all = [
        PostLogin::FetchLibrary,
        PostLogin::RegisterDevice,
        PostLogin::MergePaths,
        PostLogin::MergeExePaths,
        PostLogin::SyncAllGames,
        PostLogin::AnnounceSynced,
        PostLogin::Finished,
    ];
    assert_eq!(steps(Ok(false), Ok(())), all);
    assert_eq!(steps(Err(text("offline")), Err(text("offline"))), all);
}

#[test]
fn post_login_ignores_other_replies() {
    assert_eq!(PostLogin::FetchLibrary.advance(Reply::Done(Ok(()))), PostLogin::FetchLibrary);
    let step = PostLogin::MergePaths.advance(Reply::Answer(Ok(true)));
    assert_eq!(step, PostLogin::MergePaths);
    assert_eq!(PostLogin::Finished.advance(Reply::Done(Ok(()))), PostLogin::Finished);
}

#[test]
fn events_have_their_names() {
    assert_eq!(Event::LibraryRestored.name(), "library-restored");
    assert_eq!(Event::PostLoginSyncCompleted.name(), "post-login-sync-completed");
    assert_eq!(PostLogin::AnnounceRestored.event(), Some(Event::LibraryRestored));
    assert_eq!(PostLogin::AnnounceSynced.event(), Some(Event::PostLoginSyncCompleted));
    assert_eq!(PostLogin::SyncAllGames.event(), None);
}
