//! Starting with the session: the steps of switching the autostart entry of
//! the platform on or off, and what is stored there.
//!
//! As with injection, the library names the next platform call and the
//! caller reports whether it went through.

use crate::text::{encode_utf16, utf16_of};
use vstd::prelude::*;

verus! {

/// Why autostart could not be switched.
#[derive(Clone, Copy, Debug, PartialEq, Eq, Structural)]
pub enum AutostartError {
    /// The platform has no autostart registry.
    PlatformUnsupported,
    /// The registry key of the session's programs could not be opened.
    RegistryOpen,
    /// The path of the running program could not be told.
    ProgramPath,
    /// The entry could not be written.
    RegistryWrite,
    /// The settings could not be read.
    SettingsRead,
    /// The settings could not be written.
    SettingsWrite,
}

/// Where a switch of autostart stands.
#[derive(Clone, Copy, Debug, PartialEq, Eq, Structural)]
pub enum AutostartStage {
    OpeningKey,
    LocatingProgram,
    WritingEntry,
    DeletingEntry,
    /// Closing the key; the flag says whether the entry was dealt with.
    ClosingKey(bool),
    LoadingSettings,
    SavingSettings,
    Succeeded,
    Failed(AutostartError),
}

/// What the caller has to do next.
#[derive(Clone, Copy, Debug, PartialEq, Eq)]
pub enum AutostartCommand {
    /// Open the registry key of the session's programs for writing.
    OpenKey,
    /// Find the path of the running program.
    LocateProgram,
    /// Store the program's path under the application's name.
    WriteEntry,
    /// Delete the entry under the application's name.
    DeleteEntry,
    /// Close the registry key.
    CloseKey,
    /// Read the settings.
    LoadSettings,
    /// Write the settings back with the autostart flag as given.
    SaveSettings(bool),
    /// Return this result; nothing is left to do.
    Finish(Result<(), AutostartError>),
}

/// Whether a platform call went through.
#[derive(Clone, Copy, Debug, PartialEq, Eq, Structural)]
pub enum Reply {
    Done,
    Refused,
}

/// The stage after a call that must go through.
pub open spec fn stage_after(
    reply: Reply,
    onward: AutostartStage,
    error: AutostartError,
) -> AutostartStage {
    match reply {
        Reply::Done => onward,
        Reply::Refused => AutostartStage::Failed(error),
    }
}

/// The stage after `reply`, when autostart is being switched to `enable`.
pub open spec fn autostart_next(
    enable: bool,
    stage: AutostartStage,
    reply: Reply,
) -> AutostartStage {
    match stage {
        AutostartStage::OpeningKey => stage_after(
            reply,
            if enable {
                AutostartStage::LocatingProgram
            } else {
                AutostartStage::DeletingEntry
            },
            AutostartError::RegistryOpen,
        ),
        AutostartStage::LocatingProgram => stage_after(
            reply,
            AutostartStage::WritingEntry,
            AutostartError::ProgramPath,
        ),
        AutostartStage::WritingEntry => AutostartStage::ClosingKey(reply == Reply::Done),
        AutostartStage::DeletingEntry => AutostartStage::ClosingKey(true),
        AutostartStage::ClosingKey(dealt) => if dealt {
            AutostartStage::LoadingSettings
        } else {
            AutostartStage::Failed(AutostartError::RegistryWrite)
        },
        AutostartStage::LoadingSettings => stage_after(
            reply,
            AutostartStage::SavingSettings,
            AutostartError::SettingsRead,
        ),
        AutostartStage::SavingSettings => stage_after(
            reply,
            AutostartStage::Succeeded,
            AutostartError::SettingsWrite,
        ),
        AutostartStage::Succeeded => stage,
        AutostartStage::Failed(_) => stage,
    }
}

/// The command that is pending at `stage`.
pub open spec fn autostart_pending(enable: bool, stage: AutostartStage) -> AutostartCommand {
    match stage {
        AutostartStage::OpeningKey => AutostartCommand::OpenKey,
        AutostartStage::LocatingProgram => AutostartCommand::LocateProgram,
        AutostartStage::WritingEntry => AutostartCommand::WriteEntry,
        AutostartStage::DeletingEntry => AutostartCommand::DeleteEntry,
        AutostartStage::ClosingKey(_) => AutostartCommand::CloseKey,
        AutostartStage::LoadingSettings => AutostartCommand::LoadSettings,
        AutostartStage::SavingSettings => AutostartCommand::SaveSettings(enable),
        AutostartStage::Succeeded => AutostartCommand::Finish(Ok(())),
        AutostartStage::Failed(e) => AutostartCommand::Finish(Err(e)),
    }
}

/// A switch of autostart in progress.
#[derive(Clone, Copy, Debug, PartialEq, Eq, Structural)]
pub struct AutostartSwitch {
    /// Whether autostart is being switched on.
    pub enable: bool,
    pub stage: AutostartStage,
}

/// Starts switching autostart to `enable`. On a platform without autostart
/// registry (`supported` is false) the switch has failed before it began.
pub fn set_autostart(enable: bool, supported: bool) -> (switch: AutostartSwitch)
    ensures
        switch.enable == enable,
        switch.stage == if supported {
            AutostartStage::OpeningKey
        } else {
            AutostartStage::Failed(AutostartError::PlatformUnsupported)
        },
{
    let stage: AutostartStage = if supported {
        AutostartStage::OpeningKey
    } else {
        AutostartStage::Failed(AutostartError::PlatformUnsupported)
    };
    AutostartSwitch { enable, stage }
}

impl AutostartSwitch {
    /// The command that is pending.
    pub fn command(self) -> (c: AutostartCommand)
        ensures
            c == autostart_pending(self.enable, self.stage),
    {
        match self.stage {
            AutostartStage::OpeningKey => AutostartCommand::OpenKey,
            AutostartStage::LocatingProgram => AutostartCommand::LocateProgram,
            AutostartStage::WritingEntry => AutostartCommand::WriteEntry,
            AutostartStage::DeletingEntry => AutostartCommand::DeleteEntry,
            AutostartStage::ClosingKey(_) => AutostartCommand::CloseKey,
            AutostartStage::LoadingSettings => AutostartCommand::LoadSettings,
            AutostartStage::SavingSettings => AutostartCommand::SaveSettings(self.enable),
            AutostartStage::Succeeded => AutostartCommand::Finish(Ok(())),
            AutostartStage::Failed(e) => AutostartCommand::Finish(Err(e)),
        }
    }

    /// Takes in whether the pending call went through.
    pub fn step(self, reply: Reply) -> (next: AutostartSwitch)
        ensures
            next.enable == self.enable,
            next.stage == autostart_next(self.enable, self.stage, reply),
    {
        let done: bool = match reply {
            Reply::Done => true,
            Reply::Refused => false,
        };
        let stage: AutostartStage = match self.stage {
            AutostartStage::OpeningKey => if !done {
                AutostartStage::Failed(AutostartError::RegistryOpen)
            } else if self.enable {
                AutostartStage::LocatingProgram
            } else {
                AutostartStage::DeletingEntry
            },
            AutostartStage::LocatingProgram => if done {
                AutostartStage::WritingEntry
            } else {
                AutostartStage::Failed(AutostartError::ProgramPath)
            },
            AutostartStage::WritingEntry => AutostartStage::ClosingKey(done),
            AutostartStage::DeletingEntry => AutostartStage::ClosingKey(true),
            AutostartStage::ClosingKey(dealt) => if dealt {
                AutostartStage::LoadingSettings
            } else {
                AutostartStage::Failed(AutostartError::RegistryWrite)
            },
            AutostartStage::LoadingSettings => if done {
                AutostartStage::SavingSettings
            } else {
                AutostartStage::Failed(AutostartError::SettingsRead)
            },
            AutostartStage::SavingSettings => if done {
                AutostartStage::Succeeded
            } else {
                AutostartStage::Failed(AutostartError::SettingsWrite)
            },
            AutostartStage::Succeeded => AutostartStage::Succeeded,
            AutostartStage::Failed(e) => AutostartStage::Failed(e),
        };
        AutostartSwitch { enable: self.enable, stage }
    }
}

/// A text as the registry stores it: its UTF-16 code units and a closing
/// zero.
pub fn wide_nul(text: &str) -> (units: Vec<u16>)
    ensures
        units@ == utf16_of(text@).push(0u16),
{
    let mut units: Vec<u16> = encode_utf16(text);
    units.push(0);
    units
}

} // verus!
