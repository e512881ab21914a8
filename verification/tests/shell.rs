use game_sync::model::AppSettings;
use game_sync::protocol::Reply;
use game_sync::shell::{on_window_event, Setup, WindowSignal};
use game_sync::task::{get_file_size, BackgroundTask};

fn text(value: &str) -> String {
    value.to_string()
}

fn at_settings() -> Setup {
    let step = Setup::run();
    assert_eq!(step, Setup::CreateWatchers);
    let step = step.advance(Reply::Done(Ok(())));
    assert_eq!(step, Setup::StartWatchers);
    let step = step.advance(Reply::Done(Ok(())));
    assert_eq!(step, Setup::RegisterDevice);
    let step = step.advance(Reply::Done(Ok(())));
    assert_eq!(step, Setup::BuildTray);
    step.advance(Reply::Done(Ok(())))
}

fn settings(start_minimised: bool) -> AppSettings {
    AppSettings { start_minimised, other: text("{}") }
}

#[test]
fn minimised_start_hides_the_window() {
    let step = at_settings().advance(Reply::Settings(Ok(settings(true))));
    assert_eq!(step, Setup::HideMainWindow);
    assert_eq!(step.advance(Reply::Done(Err(text("gone")))), Setup::Finished(Ok(())));
}

#[test]
fn ordinary_start_shows_the_window() {
    let step = at_settings().advance(Reply::Settings(Ok(settings(false))));
    assert_eq!(step, Setup::Finished(Ok(())));
    let step = at_settings().advance(Reply::Settings(Err(text("unreadable"))));
    assert_eq!(step, Setup::Finished(Ok(())));
}

#[test]
fn only_the_tray_can_stop_the_start() {
    let step = Setup::BuildTray.advance(Reply::Done(Err(text("no tray"))));
    assert_eq!(step, Setup::Finished(Err(text("no tray"))));
    let step = Setup::StartWatchers.advance(Reply::Done(Err(text("no watchers"))));
    assert_eq!(step, Setup::RegisterDevice);
    let step = Setup::ReadSettings.advance(Reply::Done(Ok(())));
    assert_eq!(step, Setup::ReadSettings);
}

#[test]
fn closing_a_window_hides_it() {
    let reaction = on_window_event(WindowSignal::CloseRequested);
    assert!(reaction.hide && reaction.prevent_close);
    let reaction = on_window_event(WindowSignal::Other);
    assert!(!reaction.hide && !reaction.prevent_close);
}

#[test]
fn answers_of_a_task_are_passed_on() {
    assert_eq!(BackgroundTask::SyncGame.answer(Ok(Ok(5))), Ok(5));
    let refused: Result<u8, String> = Err(text("no such game"));
    assert_eq!(BackgroundTask::SyncGame.answer(Ok(refused)), Err(text("no such game")));
}

#[test]
fn broken_tasks_say_which_they_were() {
    let cases = [
        (BackgroundTask::CheckAuthStatus, "boom"),
        (BackgroundTask::UploadGameLogo, "Logo upload task failed: boom"),
        (BackgroundTask::GetLogoDataUrl, "Logo fetch task failed: boom"),
        (BackgroundTask::ListGameDriveFilesFlat, "List flat drive files task failed: boom"),
        (BackgroundTask::ListGameDriveFiles, "List drive files task failed: boom"),
        (BackgroundTask::RenameGameDriveFile, "Rename task failed: boom"),
        (BackgroundTask::MoveGameDriveFile, "Move task failed: boom"),
        (BackgroundTask::DeleteGameDriveFile, "Delete task failed: boom"),
        (BackgroundTask::CreateVersionBackup, "Create backup task failed: boom"),
        (BackgroundTask::ListVersionBackups, "List backups task failed: boom"),
        (BackgroundTask::RestoreVersionBackup, "Restore backup task failed: boom"),
        (BackgroundTask::DeleteVersionBackup, "Delete backup task failed: boom"),
        (BackgroundTask::SyncGame, "Sync task failed: boom"),
        (BackgroundTask::SyncAllGames, "Sync all task failed: boom"),
        (BackgroundTask::CheckSyncStructureDiff, "Diff check task failed: boom"),
        (BackgroundTask::RestoreFromCloud, "Restore task failed: boom"),
        (BackgroundTask::PushToCloud, "Push task failed: boom"),
        (BackgroundTask::CleanExcludedDriveFiles, "Clean excluded task failed: boom"),
        (BackgroundTask::GetDevices, "boom"),
        (BackgroundTask::RenameDevice, "boom"),
        (BackgroundTask::RemoveDevice, "boom"),
    ];
    for (task, message) in cases {
        let joined: Result<Result<u8, String>, String> = Err(text("boom"));
        assert_eq!(task.answer(joined), Err(text(message)));
    }
}

#[test]
fn file_size_or_the_reason() {
    assert_eq!(get_file_size(Ok(12)), Ok(12));
    assert_eq!(
        get_file_size(Err(text("not found"))),
        Err(text("Could not read file metadata: not found"))
    );
}
