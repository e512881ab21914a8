//! The application around the commands: how it starts, and what its window does.

use vstd::prelude::*;

use crate::model::SettingsView;
use crate::protocol::{Protocol, Reply, ReplyView, World};

verus! {

/// A step of starting the application.
#[derive(Debug, PartialEq, Eq)]
pub enum Setup {
    /// Make the watcher manager, for all commands to share.
    CreateWatchers,
    /// Start the watchers of the games that are watched.
    StartWatchers,
    /// Have this device registered in the background.
    RegisterDevice,
    /// Make the tray icon and its menu.
    BuildTray,
    /// Read the settings of this device.
    ReadSettings,
    /// Hide the main window.
    HideMainWindow,
    /// The application is up, or it cannot start.
    Finished(Result<(), String>),
}

/// The value of a [`Setup`].
pub enum SetupView {
    CreateWatchers,
    StartWatchers,
    RegisterDevice,
    BuildTray,
    ReadSettings,
    HideMainWindow,
    Finished(Result<(), Seq<char>>),
}

impl DeepView for Setup {
    type V = SetupView;

    open spec fn deep_view(&self) -> SetupView {
        match *self {
            Setup::CreateWatchers => SetupView::CreateWatchers,
            Setup::StartWatchers => SetupView::StartWatchers,
            Setup::RegisterDevice => SetupView::RegisterDevice,
            Setup::BuildTray => SetupView::BuildTray,
            Setup::ReadSettings => SetupView::ReadSettings,
            Setup::HideMainWindow => SetupView::HideMainWindow,
            Setup::Finished(result) => SetupView::Finished(crate::model::outcome(result)),
        }
    }
}

impl Protocol for SetupView {
    open spec fn asks_for(self, reply: ReplyView) -> bool {
        match self {
            SetupView::ReadSettings => reply is Settings,
            SetupView::Finished(_) => true,
            _ => reply is Done,
        }
    }

    open spec fn next(self, reply: ReplyView) -> SetupView {
        match (self, reply) {
            (SetupView::CreateWatchers, ReplyView::Done(_)) => SetupView::StartWatchers,
            (SetupView::StartWatchers, ReplyView::Done(_)) => SetupView::RegisterDevice,
            (SetupView::RegisterDevice, ReplyView::Done(_)) => SetupView::BuildTray,
            (SetupView::BuildTray, ReplyView::Done(Ok(_))) => SetupView::ReadSettings,
            (SetupView::BuildTray, ReplyView::Done(Err(message))) => {
                SetupView::Finished(Err(message))
            },
            (SetupView::ReadSettings, ReplyView::Settings(settings)) => match settings {
                Ok(settings) if settings.start_minimised => SetupView::HideMainWindow,
                _ => SetupView::Finished(Ok(())),
            },
            (SetupView::HideMainWindow, ReplyView::Done(_)) => SetupView::Finished(Ok(())),
            _ => self,
        }
    }

    open spec fn finished(self) -> bool {
        self is Finished
    }

    proof fn law_other_replies_change_nothing(self, reply: ReplyView) {
    }

    proof fn law_finished_stays(self, reply: ReplyView) {
    }
}

impl Setup {
    /// The first step of starting the application.
    pub fn run() -> (step: Self)
        ensures
            step.deep_view() == SetupView::CreateWatchers,
    {
        Setup::CreateWatchers
    }

    /// The step after this one.
    pub fn advance(self, reply: Reply) -> (step: Self)
        ensures
            step.deep_view() == self.deep_view().next(reply.deep_view()),
    {
        match self {
            Setup::ReadSettings => match reply {
                Reply::Settings(Ok(settings)) => if settings.start_minimised {
                    Setup::HideMainWindow
                } else {
                    Setup::Finished(Ok(()))
                },
                Reply::Settings(Err(_)) => Setup::Finished(Ok(())),
                _ => Setup::ReadSettings,
            },
            Setup::Finished(result) => Setup::Finished(result),
            step => match reply {
                Reply::Done(done) => match step {
                    Setup::CreateWatchers => Setup::StartWatchers,
                    Setup::StartWatchers => Setup::RegisterDevice,
                    Setup::RegisterDevice => Setup::BuildTray,
                    Setup::BuildTray => match done {
                        Ok(()) => Setup::ReadSettings,
                        Err(message) => Setup::Finished(Err(message)),
                    },
                    _ => Setup::Finished(Ok(())),
                },
                _ => step,
            },
        }
    }
}

/// The steps of starting the application, in order. Only a tray that cannot be made keeps it
/// from starting. The main window is hidden exactly where the settings can be read and say so.
pub proof fn law_setup_steps(world: World<SetupView>, count: nat)
    requires
        crate::protocol::cooperative(world),
        count >= 6,
    ensures
        crate::protocol::trace(SetupView::CreateWatchers, world, count) == seq![
            SetupView::CreateWatchers,
            SetupView::StartWatchers,
            SetupView::RegisterDevice,
            SetupView::BuildTray,
        ] + (match world(SetupView::BuildTray)->Done_0 {
            Err(message) => seq![SetupView::Finished(Err(message))],
            Ok(_) => match world(SetupView::ReadSettings)->Settings_0 {
                Ok(settings) if settings.start_minimised => seq![
                    SetupView::ReadSettings,
                    SetupView::HideMainWindow,
                    SetupView::Finished(Ok(())),
                ],
                _ => seq![SetupView::ReadSettings, SetupView::Finished(Ok(()))],
            },
        }),
{
    reveal_with_fuel(crate::protocol::trace, 8);
    assert(SetupView::CreateWatchers.asks_for(world(SetupView::CreateWatchers)));
    assert(SetupView::StartWatchers.asks_for(world(SetupView::StartWatchers)));
    assert(SetupView::RegisterDevice.asks_for(world(SetupView::RegisterDevice)));
    assert(SetupView::BuildTray.asks_for(world(SetupView::BuildTray)));
    assert(SetupView::ReadSettings.asks_for(world(SetupView::ReadSettings)));
    assert(SetupView::HideMainWindow.asks_for(world(SetupView::HideMainWindow)));
}

/// What happens to a window.
#[derive(Clone, Copy, Debug, PartialEq, Eq, Structural)]
pub enum WindowSignal {
    /// The user asks to close it.
    CloseRequested,
    /// Anything else.
    Other,
}

/// What is done about it.
#[derive(Clone, Copy, Debug, PartialEq, Eq, Structural)]
pub struct WindowReaction {
    pub hide: bool,
    pub prevent_close: bool,
}

/// Decides on what happens to a window. A window that is asked to close is hidden instead, so
/// that the application stays in the tray; nothing is done about anything else.
pub fn on_window_event(signal: WindowSignal) -> (reaction: WindowReaction)
    ensures
        reaction.hide == (signal == WindowSignal::CloseRequested),
        reaction.prevent_close == (signal == WindowSignal::CloseRequested),
{
    let closing = match signal {
        WindowSignal::CloseRequested => true,
        WindowSignal::Other => false,
    };
    WindowReaction { hide: closing, prevent_close: closing }
}

/// What each reply makes of the start. The watchers are made before they are started, the
/// device is registered after that, and the tray follows, whatever became of these. Only a tray
/// that cannot be made keeps the application from starting. The window is hidden exactly where
/// the settings can be read and ask for it. A step waits for its own kind of reply.
pub proof fn law_setup_follows_replies(
    done: Result<(), Seq<char>>,
    message: Seq<char>,
    settings: SettingsView,
    step: SetupView,
    reply: ReplyView,
)
    ensures
        SetupView::CreateWatchers.next(ReplyView::Done(done)) == SetupView::StartWatchers,
        SetupView::StartWatchers.next(ReplyView::Done(done)) == SetupView::RegisterDevice,
        SetupView::RegisterDevice.next(ReplyView::Done(done)) == SetupView::BuildTray,
        SetupView::BuildTray.next(ReplyView::Done(Ok(()))) == SetupView::ReadSettings,
        SetupView::BuildTray.next(ReplyView::Done(Err(message))) == SetupView::Finished(
            Err(message),
        ),
        SetupView::ReadSettings.next(ReplyView::Settings(Ok(settings)))
            == if settings.start_minimised {
            SetupView::HideMainWindow
        } else {
            SetupView::Finished(Ok(()))
        },
        SetupView::ReadSettings.next(ReplyView::Settings(Err(message))) == SetupView::Finished(
            Ok(()),
        ),
        SetupView::HideMainWindow.next(ReplyView::Done(done)) == SetupView::Finished(Ok(())),
        step is Finished ==> step.next(reply) == step,
        step is ReadSettings && reply !is Settings ==> step.next(reply) == step,
        step !is ReadSettings && reply !is Done ==> step.next(reply) == step,
        step.finished() <==> step is Finished,
{
}

/// The value of a step of the start tells what the step holds.
pub proof fn law_setup_value(step: Setup)
    ensures
        match step {
            Setup::CreateWatchers => step.deep_view() == SetupView::CreateWatchers,
            Setup::StartWatchers => step.deep_view() == SetupView::StartWatchers,
            Setup::RegisterDevice => step.deep_view() == SetupView::RegisterDevice,
            Setup::BuildTray => step.deep_view() == SetupView::BuildTray,
            Setup::ReadSettings => step.deep_view() == SetupView::ReadSettings,
            Setup::HideMainWindow => step.deep_view() == SetupView::HideMainWindow,
            Setup::Finished(result) => step.deep_view() == SetupView::Finished(
                crate::model::outcome(result),
            ),
        },
{
}

} // verus!
