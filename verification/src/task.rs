//! Commands that run in the background, and how their failures are put into words.

use vstd::prelude::*;

use crate::text::join;

verus! {

/// A command that runs on a thread of its own.
#[derive(Clone, Copy, Debug, PartialEq, Eq, Structural)]
pub enum BackgroundTask {
    CheckAuthStatus,
    UploadGameLogo,
    GetLogoDataUrl,
    ListGameDriveFilesFlat,
    ListGameDriveFiles,
    RenameGameDriveFile,
    MoveGameDriveFile,
    DeleteGameDriveFile,
    CreateVersionBackup,
    ListVersionBackups,
    RestoreVersionBackup,
    DeleteVersionBackup,
    SyncGame,
    SyncAllGames,
    CheckSyncStructureDiff,
    RestoreFromCloud,
    PushToCloud,
    CleanExcludedDriveFiles,
    GetDevices,
    RenameDevice,
    RemoveDevice,
}

impl BackgroundTask {
    /// What stands before the reason where the task itself broke down.
    pub open spec fn label(self) -> Seq<char> {
        match self {
            BackgroundTask::CheckAuthStatus => ""@,
            BackgroundTask::UploadGameLogo => "Logo upload task failed: "@,
            BackgroundTask::GetLogoDataUrl => "Logo fetch task failed: "@,
            BackgroundTask::ListGameDriveFilesFlat => "List flat drive files task failed: "@,
            BackgroundTask::ListGameDriveFiles => "List drive files task failed: "@,
            BackgroundTask::RenameGameDriveFile => "Rename task failed: "@,
            BackgroundTask::MoveGameDriveFile => "Move task failed: "@,
            BackgroundTask::DeleteGameDriveFile => "Delete task failed: "@,
            BackgroundTask::CreateVersionBackup => "Create backup task failed: "@,
            BackgroundTask::ListVersionBackups => "List backups task failed: "@,
            BackgroundTask::RestoreVersionBackup => "Restore backup task failed: "@,
            BackgroundTask::DeleteVersionBackup => "Delete backup task failed: "@,
            BackgroundTask::SyncGame => "Sync task failed: "@,
            BackgroundTask::SyncAllGames => "Sync all task failed: "@,
            BackgroundTask::CheckSyncStructureDiff => "Diff check task failed: "@,
            BackgroundTask::RestoreFromCloud => "Restore task failed: "@,
            BackgroundTask::PushToCloud => "Push task failed: "@,
            BackgroundTask::CleanExcludedDriveFiles => "Clean excluded task failed: "@,
            BackgroundTask::GetDevices => ""@,
            BackgroundTask::RenameDevice => ""@,
            BackgroundTask::RemoveDevice => ""@,
        }
    }

    /// The words before the reason.
    fn words(self) -> (words: &'static str)
        ensures
            words@ == self.label(),
    {
        match self {
            BackgroundTask::CheckAuthStatus => "",
            BackgroundTask::UploadGameLogo => "Logo upload task failed: ",
            BackgroundTask::GetLogoDataUrl => "Logo fetch task failed: ",
            BackgroundTask::ListGameDriveFilesFlat => "List flat drive files task failed: ",
            BackgroundTask::ListGameDriveFiles => "List drive files task failed: ",
            BackgroundTask::RenameGameDriveFile => "Rename task failed: ",
            BackgroundTask::MoveGameDriveFile => "Move task failed: ",
            BackgroundTask::DeleteGameDriveFile => "Delete task failed: ",
            BackgroundTask::CreateVersionBackup => "Create backup task failed: ",
            BackgroundTask::ListVersionBackups => "List backups task failed: ",
            BackgroundTask::RestoreVersionBackup => "Restore backup task failed: ",
            BackgroundTask::DeleteVersionBackup => "Delete backup task failed: ",
            BackgroundTask::SyncGame => "Sync task failed: ",
            BackgroundTask::SyncAllGames => "Sync all task failed: ",
            BackgroundTask::CheckSyncStructureDiff => "Diff check task failed: ",
            BackgroundTask::RestoreFromCloud => "Restore task failed: ",
            BackgroundTask::PushToCloud => "Push task failed: ",
            BackgroundTask::CleanExcludedDriveFiles => "Clean excluded task failed: ",
            BackgroundTask::GetDevices => "",
            BackgroundTask::RenameDevice => "",
            BackgroundTask::RemoveDevice => "",
        }
    }

    /// The answer of the command. What the command itself answers, success or failure, is
    /// passed on as it is; only where its thread broke down (`Err` in `joined`) the task adds
    /// its own words to the reason.
    pub fn answer<T>(self, joined: Result<Result<T, String>, String>) -> (answer: Result<T, String>)
        ensures
            match joined {
                Ok(answered) => answer == answered,
                Err(reason) => answer matches Err(message) && message@ == self.label() + reason@,
            },
    {
        match joined {
            Ok(answered) => answered,
            Err(reason) => Err(join(self.words(), reason.as_str())),
        }
    }
}

/// The size of a file, by what reading its metadata gave.
pub fn get_file_size(length: Result<u64, String>) -> (size: Result<u64, String>)
    ensures
        match length {
            Ok(length) => size == Ok::<u64, String>(length),
            Err(reason) => size matches Err(message) && message@
                == "Could not read file metadata: "@ + reason@,
        },
{
    match length {
        Ok(length) => Ok(length),
        Err(reason) => Err(join("Could not read file metadata: ", reason.as_str())),
    }
}

/// The words that each command puts before the reason where its task broke down; four commands
/// give the reason alone.
pub proof fn law_words_before_the_reason()
    ensures
        BackgroundTask::CheckAuthStatus.label() == ""@,
        BackgroundTask::UploadGameLogo.label() == "Logo upload task failed: "@,
        BackgroundTask::GetLogoDataUrl.label() == "Logo fetch task failed: "@,
        BackgroundTask::ListGameDriveFilesFlat.label() == "List flat drive files task failed: "@,
        BackgroundTask::ListGameDriveFiles.label() == "List drive files task failed: "@,
        BackgroundTask::RenameGameDriveFile.label() == "Rename task failed: "@,
        BackgroundTask::MoveGameDriveFile.label() == "Move task failed: "@,
        BackgroundTask::DeleteGameDriveFile.label() == "Delete task failed: "@,
        BackgroundTask::CreateVersionBackup.label() == "Create backup task failed: "@,
        BackgroundTask::ListVersionBackups.label() == "List backups task failed: "@,
        BackgroundTask::RestoreVersionBackup.label() == "Restore backup task failed: "@,
        BackgroundTask::DeleteVersionBackup.label() == "Delete backup task failed: "@,
        BackgroundTask::SyncGame.label() == "Sync task failed: "@,
        BackgroundTask::SyncAllGames.label() == "Sync all task failed: "@,
        BackgroundTask::CheckSyncStructureDiff.label() == "Diff check task failed: "@,
        BackgroundTask::RestoreFromCloud.label() == "Restore task failed: "@,
        BackgroundTask::PushToCloud.label() == "Push task failed: "@,
        BackgroundTask::CleanExcludedDriveFiles.label() == "Clean excluded task failed: "@,
        BackgroundTask::GetDevices.label() == ""@,
        BackgroundTask::RenameDevice.label() == ""@,
        BackgroundTask::RemoveDevice.label() == ""@,
{
}

} // verus!
