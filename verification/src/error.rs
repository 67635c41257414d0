//! The kinds of failure, and the kind of every error of the library.

use crate::autostart::AutostartError;
use crate::files::FolderError;
use crate::hotkey::HotkeyError;
use crate::inject::InjectError;
use crate::mnemonics::MnemonicError;
use crate::prompts::ScanError;
use crate::store::StoreError;
use vstd::prelude::*;

verus! {

/// What went wrong, broadly.
#[derive(Clone, Copy, Debug, PartialEq, Eq, Structural)]
pub enum ErrorKind {
    /// The user gave something that cannot be used: an empty or taken
    /// alias, a folder that is not there, a malformed hotkey.
    UserInput,
    /// Reading or writing a file failed.
    Io,
    /// The platform lacks what was asked for.
    PlatformUnsupported,
    /// A call into the platform failed.
    PlatformApi,
}

/// Every refusal of an alias is the user's to mend.
pub fn mnemonic_error_kind(_error: MnemonicError) -> (kind: ErrorKind)
    ensures
        kind == ErrorKind::UserInput,
{
    ErrorKind::UserInput
}

/// A malformed hotkey is the user's to mend; a refused registration is the
/// platform's failure.
pub fn hotkey_error_kind(e: &HotkeyError) -> (kind: ErrorKind)
    ensures
        kind == match *e {
            HotkeyError::Malformed(_) => ErrorKind::UserInput,
            HotkeyError::RegistrationFailed(_) => ErrorKind::PlatformApi,
        },
{
    match e {
        HotkeyError::Malformed(_) => ErrorKind::UserInput,
        HotkeyError::RegistrationFailed(_) => ErrorKind::PlatformApi,
    }
}

/// Persisted state that cannot be had is an input-output failure.
pub fn store_error_kind(_error: &StoreError) -> (kind: ErrorKind)
    ensures
        kind == ErrorKind::Io,
{
    ErrorKind::Io
}

/// Injection fails for want of platform support, or in a platform call.
pub fn inject_error_kind(e: InjectError) -> (kind: ErrorKind)
    ensures
        kind == if e == InjectError::PlatformUnsupported {
            ErrorKind::PlatformUnsupported
        } else {
            ErrorKind::PlatformApi
        },
{
    match e {
        InjectError::PlatformUnsupported => ErrorKind::PlatformUnsupported,
        _ => ErrorKind::PlatformApi,
    }
}

/// A folder that is not there is the user's to mend.
pub fn scan_error_kind(_error: ScanError) -> (kind: ErrorKind)
    ensures
        kind == ErrorKind::UserInput,
{
    ErrorKind::UserInput
}

/// So is every file or folder operation that was not begun.
pub fn folder_error_kind(_error: FolderError) -> (kind: ErrorKind)
    ensures
        kind == ErrorKind::UserInput,
{
    ErrorKind::UserInput
}

/// Autostart fails for want of platform support, in a platform call, or on
/// the settings file.
pub fn autostart_error_kind(e: AutostartError) -> (kind: ErrorKind)
    ensures
        kind == match e {
            AutostartError::PlatformUnsupported => ErrorKind::PlatformUnsupported,
            AutostartError::RegistryOpen => ErrorKind::PlatformApi,
            AutostartError::ProgramPath => ErrorKind::PlatformApi,
            AutostartError::RegistryWrite => ErrorKind::PlatformApi,
            AutostartError::SettingsRead => ErrorKind::Io,
            AutostartError::SettingsWrite => ErrorKind::Io,
        },
{
    match e {
        AutostartError::PlatformUnsupported => ErrorKind::PlatformUnsupported,
        AutostartError::RegistryOpen => ErrorKind::PlatformApi,
        AutostartError::ProgramPath => ErrorKind::PlatformApi,
        AutostartError::RegistryWrite => ErrorKind::PlatformApi,
        AutostartError::SettingsRead => ErrorKind::Io,
        AutostartError::SettingsWrite => ErrorKind::Io,
    }
}

} // verus!
