use prompt_manager::autostart::{
    set_autostart, wide_nul, AutostartCommand, AutostartError, AutostartStage, AutostartSwitch, Reply,
};

/// Follows the commands, refusing the call named by `refuse`.
fn drive(enable: bool, refuse: Option<AutostartCommand>) -> Vec<AutostartCommand> {
    let mut switch: AutostartSwitch = set_autostart(enable, true);
    let mut commands = vec![];
    loop {
        let command = switch.command();
        commands.push(command);
        if let AutostartCommand::Finish(_) = command {
            return commands;
        }
        let reply = if Some(command) == refuse { Reply::Refused } else { Reply::Done };
        switch = switch.step(reply);
    }
}

#[test]
fn switching_on_writes_the_entry_and_saves_the_flag() {
    assert_eq!(
        drive(true, None),
        vec![
            AutostartCommand::OpenKey,
            AutostartCommand::LocateProgram,
            AutostartCommand::WriteEntry,
            AutostartCommand::CloseKey,
            AutostartCommand::LoadSettings,
            AutostartCommand::SaveSettings(true),
            AutostartCommand::Finish(Ok(())),
        ]
    );
}

#[test]
fn switching_off_deletes_the_entry_and_saves_the_flag() {
    assert_eq!(
        drive(false, None),
        vec![
            AutostartCommand::OpenKey,
            AutostartCommand::DeleteEntry,
            AutostartCommand::CloseKey,
            AutostartCommand::LoadSettings,
            AutostartCommand::SaveSettings(false),
            AutostartCommand::Finish(Ok(())),
        ]
    );
}

#[test]
fn failed_delete_is_passed_over() {
    let commands = drive(false, Some(AutostartCommand::DeleteEntry));
    assert_eq!(commands.last(), Some(&AutostartCommand::Finish(Ok(()))));
}

#[test]
fn failed_write_closes_the_key_and_fails() {
    assert_eq!(
        drive(true, Some(AutostartCommand::WriteEntry)),
        vec![
            AutostartCommand::OpenKey,
            AutostartCommand::LocateProgram,
            AutostartCommand::WriteEntry,
            AutostartCommand::CloseKey,
            AutostartCommand::Finish(Err(AutostartError::RegistryWrite)),
        ]
    );
}

#[test]
fn each_failure_has_its_error() {
    let last = |refuse| *drive(true, Some(refuse)).last().unwrap();
    assert_eq!(
        last(AutostartCommand::OpenKey),
        AutostartCommand::Finish(Err(AutostartError::RegistryOpen))
    );
    assert_eq!(
        last(AutostartCommand::LocateProgram),
        AutostartCommand::Finish(Err(AutostartError::ProgramPath))
    );
    assert_eq!(
        last(AutostartCommand::LoadSettings),
        AutostartCommand::Finish(Err(AutostartError::SettingsRead))
    );
    assert_eq!(
        last(AutostartCommand::SaveSettings(true)),
        AutostartCommand::Finish(Err(AutostartError::SettingsWrite))
    );
    assert_eq!(last(AutostartCommand::CloseKey), AutostartCommand::Finish(Ok(())));
}

#[test]
fn platform_without_registry_fails_before_any_call() {
    let switch = set_autostart(true, false);
    assert_eq!(switch.stage, AutostartStage::Failed(AutostartError::PlatformUnsupported));
    assert_eq!(
        switch.command(),
        AutostartCommand::Finish(Err(AutostartError::PlatformUnsupported))
    );
    assert_eq!(switch.step(Reply::Done), switch);
}

#[test]
fn registry_text_is_utf16_with_a_closing_zero() {
    assert_eq!(wide_nul("ab"), vec![0x61, 0x62, 0]);
    assert_eq!(wide_nul(""), vec![0]);
    let expected: Vec<u16> = "C:\\程序\\pm.exe\0".encode_utf16().collect();
    assert_eq!(wide_nul("C:\\程序\\pm.exe"), expected);
}
