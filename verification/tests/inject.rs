use prompt_manager::inject::{
    Direction, InjectError, KeyStroke, PasteCommand, PasteKey, PasteObservation, PasteStage,
    RawCommand, RawInjection, RawObservation, CHARACTER_DELAY_MS, CLIPBOARD_SETTLE_MS,
    STARTUP_DELAY_MS,
};

/// Follows the commands of a raw injection; the polls find the cancel key as
/// `polls` says. Gives the commands seen and the code units sent.
fn drive(text: &str, polls: &[bool]) -> (Vec<RawCommand>, Vec<u16>) {
    let mut injection = RawInjection::begin(text, true).unwrap();
    let mut commands = vec![];
    let mut sent = vec![];
    let mut polled = 0;
    let mut command = injection.command();
    loop {
        commands.push(command);
        command = match command {
            RawCommand::Sleep(_) => injection.step(RawObservation::Slept),
            RawCommand::PollCancel => {
                let down = polls[polled];
                polled += 1;
                injection.step(RawObservation::CancelKey(down))
            }
            RawCommand::Emit(unit) => {
                sent.push(unit);
                injection.step(RawObservation::Emitted)
            }
            RawCommand::Finish => break,
        };
    }
    assert!(injection.is_finished());
    assert_eq!(injection.emitted(), sent.len());
    (commands, sent)
}

#[test]
fn escape_before_the_third_character_leaves_two_typed() {
    let (commands, sent) = drive("abcdef", &[false, false, true]);
    assert_eq!(sent, vec![0x61, 0x62]);
    assert_eq!(commands.last(), Some(&RawCommand::Finish));
    assert_eq!(
        commands,
        vec![
            RawCommand::Sleep(100),
            RawCommand::PollCancel,
            RawCommand::Emit(0x61),
            RawCommand::Sleep(2),
            RawCommand::PollCancel,
            RawCommand::Emit(0x62),
            RawCommand::Sleep(2),
            RawCommand::PollCancel,
            RawCommand::Finish,
        ]
    );
}

#[test]
fn without_escape_the_whole_text_is_typed() {
    let (commands, sent) = drive("hi!", &[false, false, false]);
    assert_eq!(sent, vec![0x68, 0x69, 0x21]);
    assert_eq!(commands.len(), 1 + 3 * 3 + 1);
    assert_eq!(commands[0], RawCommand::Sleep(STARTUP_DELAY_MS));
    assert_eq!(commands[3], RawCommand::Sleep(CHARACTER_DELAY_MS));
}

#[test]
fn escape_at_the_first_poll_types_nothing() {
    let (commands, sent) = drive("abc", &[true]);
    assert!(sent.is_empty());
    assert_eq!(
        commands,
        vec![RawCommand::Sleep(100), RawCommand::PollCancel, RawCommand::Finish]
    );
}

#[test]
fn empty_text_finishes_after_the_startup_delay_without_polling() {
    let (commands, sent) = drive("", &[]);
    assert!(sent.is_empty());
    assert_eq!(commands, vec![RawCommand::Sleep(100), RawCommand::Finish]);
}

#[test]
fn characters_above_the_basic_plane_go_out_as_two_units() {
    let (_, sent) = drive("a😀", &[false, false, false]);
    assert_eq!(sent, vec![0x61, 0xd83d, 0xde00]);
    // The cancel key is polled before every unit, also between surrogates.
    let (_, cut) = drive("a😀", &[false, false, true]);
    assert_eq!(cut, vec![0x61, 0xd83d]);
}

#[test]
fn raw_injection_is_unsupported_before_any_delay() {
    match RawInjection::begin("abc", false) {
        Err(e) => assert_eq!(e, InjectError::PlatformUnsupported),
        Ok(_) => panic!("an unsupported platform cannot begin"),
    }
}

#[test]
fn observation_that_answers_nothing_is_passed_over() {
    let mut injection = RawInjection::begin("ab", true).unwrap();
    assert_eq!(injection.command(), RawCommand::Sleep(100));
    assert_eq!(injection.step(RawObservation::Emitted), RawCommand::Sleep(100));
    assert_eq!(injection.step(RawObservation::CancelKey(true)), RawCommand::Sleep(100));
    assert_eq!(injection.step(RawObservation::Slept), RawCommand::PollCancel);
    assert_eq!(injection.step(RawObservation::Slept), RawCommand::PollCancel);
    assert_eq!(injection.step(RawObservation::CancelKey(false)), RawCommand::Emit(0x61));
    assert_eq!(injection.step(RawObservation::CancelKey(true)), RawCommand::Emit(0x61));
    assert_eq!(injection.emitted(), 0);
    assert_eq!(injection.step(RawObservation::Emitted), RawCommand::Sleep(2));
    assert_eq!(injection.emitted(), 1);
}

#[test]
fn finished_injection_stays_finished() {
    let mut injection = RawInjection::begin("a", true).unwrap();
    injection.step(RawObservation::Slept);
    assert_eq!(injection.step(RawObservation::CancelKey(true)), RawCommand::Finish);
    assert_eq!(injection.step(RawObservation::CancelKey(false)), RawCommand::Finish);
    assert_eq!(injection.step(RawObservation::Emitted), RawCommand::Finish);
    assert_eq!(injection.step(RawObservation::Slept), RawCommand::Finish);
    assert_eq!(injection.emitted(), 0);
}

fn control(direction: Direction) -> PasteCommand {
    PasteCommand::Key(KeyStroke { key: PasteKey::Control, direction })
}

#[test]
fn paste_writes_waits_and_sends_the_chord() {
    let mut stage = PasteStage::begin();
    let mut commands = vec![];
    loop {
        let command = stage.command();
        commands.push(command);
        stage = match command {
            PasteCommand::Sleep(_) => stage.step(PasteObservation::Slept),
            PasteCommand::Finish(_) => break,
            _ => stage.step(PasteObservation::Done),
        };
    }
    assert_eq!(
        commands,
        vec![
            PasteCommand::WriteClipboard,
            PasteCommand::Sleep(CLIPBOARD_SETTLE_MS),
            PasteCommand::OpenKeyboard,
            control(Direction::Press),
            PasteCommand::Key(KeyStroke { key: PasteKey::Unicode('v'), direction: Direction::Click }),
            control(Direction::Release),
            PasteCommand::Finish(Ok(())),
        ]
    );
    assert_eq!(CLIPBOARD_SETTLE_MS, 50);
}

#[test]
fn paste_reports_a_clipboard_failure_and_stops() {
    let stage = PasteStage::begin().step(PasteObservation::Refused);
    assert_eq!(stage, PasteStage::Failed(InjectError::ClipboardWrite));
    assert_eq!(stage.command(), PasteCommand::Finish(Err(InjectError::ClipboardWrite)));
    assert_eq!(stage.step(PasteObservation::Done), stage);
}

#[test]
fn paste_reports_key_failures_apart_from_clipboard_failures() {
    let settled = PasteStage::begin().step(PasteObservation::Done).step(PasteObservation::Slept);
    assert_eq!(settled, PasteStage::Opening);
    assert_eq!(
        settled.step(PasteObservation::Refused),
        PasteStage::Failed(InjectError::KeyboardInit)
    );
    let pressing = settled.step(PasteObservation::Done);
    assert_eq!(
        pressing.step(PasteObservation::Refused),
        PasteStage::Failed(InjectError::KeySynthesis)
    );
    let clicking = pressing.step(PasteObservation::Done);
    assert_eq!(
        clicking.step(PasteObservation::Refused),
        PasteStage::Failed(InjectError::KeySynthesis)
    );
    let releasing = clicking.step(PasteObservation::Done);
    assert_eq!(
        releasing.step(PasteObservation::Refused),
        PasteStage::Failed(InjectError::KeySynthesis)
    );
    assert_eq!(releasing.step(PasteObservation::Done), PasteStage::Succeeded);
}

#[test]
fn paste_passes_over_observations_that_answer_nothing() {
    let writing = PasteStage::begin();
    assert_eq!(writing.step(PasteObservation::Slept), PasteStage::Writing);
    let settling = writing.step(PasteObservation::Done);
    assert_eq!(settling.step(PasteObservation::Done), PasteStage::Settling);
    assert_eq!(settling.step(PasteObservation::Refused), PasteStage::Settling);
    assert_eq!(PasteStage::Succeeded.step(PasteObservation::Refused), PasteStage::Succeeded);
}
