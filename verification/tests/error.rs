use prompt_manager::autostart::AutostartError;
use prompt_manager::error::{
    autostart_error_kind, folder_error_kind, hotkey_error_kind, inject_error_kind,
    mnemonic_error_kind, scan_error_kind, store_error_kind, ErrorKind,
};
use prompt_manager::files::FolderError;
use prompt_manager::hotkey::HotkeyError;
use prompt_manager::inject::InjectError;
use prompt_manager::mnemonics::MnemonicError;
use prompt_manager::prompts::ScanError;
use prompt_manager::store::StoreError;

#[test]
fn user_mistakes_are_user_input_errors() {
    assert_eq!(mnemonic_error_kind(MnemonicError::EmptyMnemonic), ErrorKind::UserInput);
    assert_eq!(mnemonic_error_kind(MnemonicError::Conflict), ErrorKind::UserInput);
    assert_eq!(scan_error_kind(ScanError::FolderMissing), ErrorKind::UserInput);
    assert_eq!(folder_error_kind(FolderError::TargetExists), ErrorKind::UserInput);
    assert_eq!(hotkey_error_kind(&HotkeyError::Malformed(String::new())), ErrorKind::UserInput);
}

#[test]
fn platform_failures_are_told_from_missing_support() {
    assert_eq!(
        hotkey_error_kind(&HotkeyError::RegistrationFailed(String::new())),
        ErrorKind::PlatformApi
    );
    assert_eq!(inject_error_kind(InjectError::PlatformUnsupported), ErrorKind::PlatformUnsupported);
    assert_eq!(inject_error_kind(InjectError::ClipboardWrite), ErrorKind::PlatformApi);
    assert_eq!(inject_error_kind(InjectError::KeyboardInit), ErrorKind::PlatformApi);
    assert_eq!(inject_error_kind(InjectError::KeySynthesis), ErrorKind::PlatformApi);
    assert_eq!(
        autostart_error_kind(AutostartError::PlatformUnsupported),
        ErrorKind::PlatformUnsupported
    );
    assert_eq!(autostart_error_kind(AutostartError::RegistryOpen), ErrorKind::PlatformApi);
    assert_eq!(autostart_error_kind(AutostartError::ProgramPath), ErrorKind::PlatformApi);
    assert_eq!(autostart_error_kind(AutostartError::RegistryWrite), ErrorKind::PlatformApi);
}

#[test]
fn store_failures_are_input_output_errors() {
    assert_eq!(store_error_kind(&StoreError::ReadFailed(String::new())), ErrorKind::Io);
    assert_eq!(store_error_kind(&StoreError::ParseFailed(String::new())), ErrorKind::Io);
    assert_eq!(autostart_error_kind(AutostartError::SettingsRead), ErrorKind::Io);
    assert_eq!(autostart_error_kind(AutostartError::SettingsWrite), ErrorKind::Io);
}
