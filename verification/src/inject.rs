//! Keystroke injection: replaying a text into the application that has the
//! input focus.
//!
//! The library decides, the caller acts. Each injection is a small machine:
//! it names the next thing to do on the platform (`command`), the caller does
//! it and reports what happened (`step`), until the command is `Finish`.
//! An observation that does not answer the pending command changes nothing.

use crate::text::{encode_utf16, utf16_of};
use vstd::prelude::*;

verus! {

/// Delay before the first character of a raw injection, in milliseconds.
pub const STARTUP_DELAY_MS: u64 = 100;

/// Delay after each character of a raw injection, in milliseconds.
pub const CHARACTER_DELAY_MS: u64 = 2;

/// Delay between writing the clipboard and pasting, in milliseconds.
pub const CLIPBOARD_SETTLE_MS: u64 = 50;

/// Why an injection failed.
#[derive(Clone, Copy, Debug, PartialEq, Eq, Structural)]
pub enum InjectError {
    /// The platform cannot synthesise raw key events.
    PlatformUnsupported,
    /// The text could not be written to the clipboard.
    ClipboardWrite,
    /// The keyboard device could not be opened.
    KeyboardInit,
    /// A key event could not be synthesised.
    KeySynthesis,
}

/// Where a raw injection stands.
#[derive(Clone, Copy, Debug, PartialEq, Eq, Structural)]
pub enum RawStage {
    /// Waiting out the startup delay.
    Settling,
    /// Asking whether the cancel key is down, before the next code unit.
    Polling,
    /// Sending the next code unit as key-down and key-up.
    Emitting,
    /// Waiting out the delay after a code unit.
    Pausing,
    /// Over: everything was typed, or the cancel key was seen.
    Finished,
}

/// What the caller of a raw injection has to do next.
#[derive(Clone, Copy, Debug, PartialEq, Eq, Structural)]
pub enum RawCommand {
    /// Sleep this many milliseconds.
    Sleep(u64),
    /// Report whether the cancel key (Escape) is down right now.
    PollCancel,
    /// Send a key-down and then a key-up that carry this UTF-16 code unit as
    /// a literal character.
    Emit(u16),
    /// Return success; nothing is left to do.
    Finish,
}

/// What the caller of a raw injection reports back.
#[derive(Clone, Copy, Debug, PartialEq, Eq, Structural)]
pub enum RawObservation {
    /// The sleep is over.
    Slept,
    /// The cancel key was polled: down (`true`) or up.
    CancelKey(bool),
    /// The key events were handed to the platform.
    Emitted,
}

/// The state of a raw injection, as the contracts see it.
pub struct RawView {
    /// The code units of the text.
    pub units: Seq<u16>,
    /// How many of them were sent.
    pub position: nat,
    pub stage: RawStage,
}

/// A raw, per-character injection in progress.
pub struct RawInjection {
    units: Vec<u16>,
    position: usize,
    stage: RawStage,
}

/// The state in which a raw injection of `units` starts.
pub open spec fn raw_start(units: Seq<u16>) -> RawView {
    RawView { units, position: 0, stage: RawStage::Settling }
}

/// A state that a raw injection can be in: a code unit is pending whenever
/// the stage is about one.
pub open spec fn raw_valid(s: RawView) -> bool {
    &&& s.position <= s.units.len()
    &&& (s.stage == RawStage::Polling || s.stage == RawStage::Emitting) ==> s.position
        < s.units.len()
}

/// The stage entered when a sleep is over, or a code unit and its pause are
/// behind: poll for the next unit, or finish.
pub open spec fn raw_next_unit(s: RawView) -> RawStage {
    if s.position < s.units.len() {
        RawStage::Polling
    } else {
        RawStage::Finished
    }
}

/// The state after `observation`.
pub open spec fn raw_step(s: RawView, observation: RawObservation) -> RawView {
    match (s.stage, observation) {
        (RawStage::Settling, RawObservation::Slept) => RawView { stage: raw_next_unit(s), ..s },
        (RawStage::Polling, RawObservation::CancelKey(true)) => RawView {
            stage: RawStage::Finished,
            ..s
        },
        (RawStage::Polling, RawObservation::CancelKey(false)) => RawView {
            stage: RawStage::Emitting,
            ..s
        },
        (RawStage::Emitting, RawObservation::Emitted) => RawView {
            position: s.position + 1,
            stage: RawStage::Pausing,
            ..s
        },
        (RawStage::Pausing, RawObservation::Slept) => RawView { stage: raw_next_unit(s), ..s },
        _ => s,
    }
}

/// The command that is pending in state `s`.
pub open spec fn raw_command(s: RawView) -> RawCommand {
    match s.stage {
        RawStage::Settling => RawCommand::Sleep(STARTUP_DELAY_MS),
        RawStage::Polling => RawCommand::PollCancel,
        RawStage::Emitting => RawCommand::Emit(s.units[s.position as int]),
        RawStage::Pausing => RawCommand::Sleep(CHARACTER_DELAY_MS),
        RawStage::Finished => RawCommand::Finish,
    }
}

impl View for RawInjection {
    type V = RawView;

    closed spec fn view(&self) -> RawView {
        RawView { units: self.units@, position: self.position as nat, stage: self.stage }
    }
}

impl RawInjection {
    #[verifier::type_invariant]
    spec fn well_formed(&self) -> bool {
        raw_valid(self@)
    }

    /// Starts a raw injection of `text`. On a platform without raw key
    /// synthesis (`supported` is false) this fails at once, before any delay.
    pub fn begin(text: &str, supported: bool) -> (r: Result<RawInjection, InjectError>)
        ensures
            match r {
                Ok(injection) => supported && injection@ == raw_start(utf16_of(text@)),
                Err(e) => !supported && e == InjectError::PlatformUnsupported,
            },
    {
        if !supported {
            return Err(InjectError::PlatformUnsupported);
        }
        let units: Vec<u16> = encode_utf16(text);
        Ok(RawInjection { units, position: 0, stage: RawStage::Settling })
    }

    /// The command that is pending.
    pub fn command(&self) -> (c: RawCommand)
        ensures
            c == raw_command(self@),
    {
        proof {
            use_type_invariant(self);
        }
        match self.stage {
            RawStage::Settling => RawCommand::Sleep(STARTUP_DELAY_MS),
            RawStage::Polling => RawCommand::PollCancel,
            RawStage::Emitting => RawCommand::Emit(self.units[self.position]),
            RawStage::Pausing => RawCommand::Sleep(CHARACTER_DELAY_MS),
            RawStage::Finished => RawCommand::Finish,
        }
    }

    /// Takes in what the caller observed and names the next command.
    pub fn step(&mut self, observation: RawObservation) -> (c: RawCommand)
        ensures
            final(self)@ == raw_step(old(self)@, observation),
            c == raw_command(final(self)@),
            raw_valid(final(self)@),
    {
        proof {
            use_type_invariant(&*self);
        }
        match (self.stage, observation) {
            (RawStage::Settling, RawObservation::Slept) | (
                RawStage::Pausing,
                RawObservation::Slept,
            ) => {
                if self.position < self.units.len() {
                    self.stage = RawStage::Polling;
                } else {
                    self.stage = RawStage::Finished;
                }
            },
            (RawStage::Polling, RawObservation::CancelKey(pressed)) => {
                if pressed {
                    self.stage = RawStage::Finished;
                } else {
                    self.stage = RawStage::Emitting;
                }
            },
            (RawStage::Emitting, RawObservation::Emitted) => {
                assert(self.position < self.units.len());
                self.stage = RawStage::Pausing;
                self.position = self.position + 1;
            },
            _ => {},
        }
        self.command()
    }

    /// How many code units were sent so far.
    pub fn emitted(&self) -> (n: usize)
        ensures
            n == self@.position,
            n <= self@.units.len(),
    {
        proof {
            use_type_invariant(self);
        }
        self.position
    }

    /// Whether the injection is over.
    pub fn is_finished(&self) -> (done: bool)
        ensures
            done == (self@.stage == RawStage::Finished),
    {
        match self.stage {
            RawStage::Finished => true,
            _ => false,
        }
    }
}

/// How many stages may still follow `stage` before a code unit is sent or
/// the injection is over.
pub open spec fn raw_rank(stage: RawStage) -> nat {
    match stage {
        RawStage::Settling => 4,
        RawStage::Pausing => 3,
        RawStage::Polling => 2,
        RawStage::Emitting => 1,
        RawStage::Finished => 0,
    }
}

/// What `observation` answers in state `s`, for a caller that keeps to the
/// commands: the polls are answered from `polls`, in order.
pub open spec fn raw_answer(s: RawView, polls: Seq<bool>) -> RawObservation {
    match s.stage {
        RawStage::Polling => RawObservation::CancelKey(polls[0]),
        RawStage::Emitting => RawObservation::Emitted,
        _ => RawObservation::Slept,
    }
}

/// The code units sent from state `s` on by a caller that keeps to the
/// commands and finds the cancel key as `polls` says, poll after poll. The
/// run ends at `Finish`, or at a poll for which `polls` has no answer.
pub open spec fn raw_typed(s: RawView, polls: Seq<bool>) -> Seq<u16>
    decreases s.units.len() - s.position, raw_rank(s.stage),
{
    if !raw_valid(s) || s.stage == RawStage::Finished || (s.stage == RawStage::Polling
        && polls.len() == 0) {
        Seq::<u16>::empty()
    } else {
        let next = raw_step(s, raw_answer(s, polls));
        let rest = if s.stage == RawStage::Polling {
            polls.drop_first()
        } else {
            polls
        };
        if s.stage == RawStage::Emitting {
            seq![s.units[s.position as int]] + raw_typed(next, rest)
        } else {
            raw_typed(next, rest)
        }
    }
}

/// Position of the first poll that finds the cancel key down, or the number
/// of polls where none does.
pub open spec fn first_cancel(polls: Seq<bool>) -> nat
    decreases polls.len(),
{
    if polls.len() == 0 || polls[0] {
        0
    } else {
        1 + first_cancel(polls.drop_first())
    }
}

/// The smaller of the first cancelling poll and `room`.
spec fn typed_before_cancel(polls: Seq<bool>, room: int) -> int {
    if first_cancel(polls) < room {
        first_cancel(polls) as int
    } else {
        room
    }
}

/// What `raw_typed` comes to, in closed form.
spec fn raw_typed_closed(s: RawView, polls: Seq<bool>) -> Seq<u16> {
    let from = s.position as int;
    let left = s.units.len() - s.position;
    match s.stage {
        RawStage::Finished => Seq::<u16>::empty(),
        RawStage::Emitting => s.units.subrange(
            from,
            from + 1 + typed_before_cancel(polls, left - 1),
        ),
        _ => s.units.subrange(from, from + typed_before_cancel(polls, left)),
    }
}

proof fn lemma_raw_typed(s: RawView, polls: Seq<bool>)
    requires
        raw_valid(s),
    ensures
        raw_typed(s, polls) == raw_typed_closed(s, polls),
    decreases s.units.len() - s.position, raw_rank(s.stage),
{
    let from = s.position as int;
    let left = s.units.len() - s.position;
    match s.stage {
        RawStage::Finished => {},
        RawStage::Polling => {
            let rest = polls.drop_first();
            if polls.len() == 0 {
                assert(s.units.subrange(from, from) =~= Seq::<u16>::empty());
            } else if polls[0] {
                let next = raw_step(s, RawObservation::CancelKey(true));
                assert(raw_typed(next, rest) == Seq::<u16>::empty());
                assert(s.units.subrange(from, from) =~= Seq::<u16>::empty());
            } else {
                let next = raw_step(s, RawObservation::CancelKey(false));
                lemma_raw_typed(next, rest);
                assert(first_cancel(polls) == 1 + first_cancel(rest));
                assert(raw_typed(s, polls) == raw_typed(next, rest));
            }
        },
        RawStage::Emitting => {
            let next = raw_step(s, RawObservation::Emitted);
            lemma_raw_typed(next, polls);
            let more = typed_before_cancel(polls, left - 1);
            assert(raw_typed(s, polls) == seq![s.units[from]] + raw_typed(next, polls));
            assert(seq![s.units[from]] + s.units.subrange(from + 1, from + 1 + more)
                =~= s.units.subrange(from, from + 1 + more));
        },
        _ => {
            let next = raw_step(s, RawObservation::Slept);
            lemma_raw_typed(next, polls);
            assert(raw_typed(s, polls) == raw_typed(next, polls));
            if next.stage == RawStage::Finished {
                assert(s.units.subrange(from, from) =~= Seq::<u16>::empty());
            }
        },
    }
}

/// A raw injection types the text up to the first poll that finds the cancel
/// key down, and the whole text where no poll does: with the cancel key
/// first seen at poll `k` (counted from zero), exactly the first `k` code
/// units are sent, in order.
pub proof fn law_cancel_cuts_typing_short(units: Seq<u16>, polls: Seq<bool>)
    ensures
        raw_typed(raw_start(units), polls) == units.take(
            if first_cancel(polls) < units.len() {
                first_cancel(polls) as int
            } else {
                units.len() as int
            },
        ),
{
    lemma_raw_typed(raw_start(units), polls);
}

/// A key of the paste chord.
#[derive(Clone, Copy, Debug, PartialEq, Eq, Structural)]
pub enum PasteKey {
    /// The control modifier.
    Control,
    /// The key that types this character.
    Unicode(char),
}

/// What to do with a key.
#[derive(Clone, Copy, Debug, PartialEq, Eq, Structural)]
pub enum Direction {
    Press,
    Click,
    Release,
}

/// One synthesised key event.
#[derive(Clone, Copy, Debug, PartialEq, Eq, Structural)]
pub struct KeyStroke {
    pub key: PasteKey,
    pub direction: Direction,
}

/// Where a clipboard-paste injection stands.
#[derive(Clone, Copy, Debug, PartialEq, Eq, Structural)]
pub enum PasteStage {
    /// Writing the text to the clipboard.
    Writing,
    /// Waiting for the clipboard to settle.
    Settling,
    /// Opening the keyboard device.
    Opening,
    /// Pressing the modifier.
    Pressing,
    /// Clicking the paste key.
    Clicking,
    /// Releasing the modifier.
    Releasing,
    /// The chord was sent.
    Succeeded,
    /// A step failed; nothing was tried after it.
    Failed(InjectError),
}

/// What the caller of a paste injection has to do next.
#[derive(Clone, Copy, Debug, PartialEq, Eq)]
pub enum PasteCommand {
    /// Write the text to the system clipboard.
    WriteClipboard,
    /// Sleep this many milliseconds.
    Sleep(u64),
    /// Open the keyboard device.
    OpenKeyboard,
    /// Synthesise this key event.
    Key(KeyStroke),
    /// Return this result; nothing is left to do.
    Finish(Result<(), InjectError>),
}

/// What the caller of a paste injection reports back.
#[derive(Clone, Copy, Debug, PartialEq, Eq, Structural)]
pub enum PasteObservation {
    /// The platform call succeeded.
    Done,
    /// The platform call failed.
    Refused,
    /// The sleep is over.
    Slept,
}

/// The stage after a platform call at `stage`: `onward` where it succeeded,
/// failure with `error` where it was refused.
pub open spec fn paste_after_call(
    stage: PasteStage,
    observation: PasteObservation,
    onward: PasteStage,
    error: InjectError,
) -> PasteStage {
    match observation {
        PasteObservation::Done => onward,
        PasteObservation::Refused => PasteStage::Failed(error),
        PasteObservation::Slept => stage,
    }
}

/// The stage after `observation`.
pub open spec fn paste_next(stage: PasteStage, observation: PasteObservation) -> PasteStage {
    match stage {
        PasteStage::Writing => paste_after_call(
            stage,
            observation,
            PasteStage::Settling,
            InjectError::ClipboardWrite,
        ),
        PasteStage::Settling => if observation == PasteObservation::Slept {
            PasteStage::Opening
        } else {
            stage
        },
        PasteStage::Opening => paste_after_call(
            stage,
            observation,
            PasteStage::Pressing,
            InjectError::KeyboardInit,
        ),
        PasteStage::Pressing => paste_after_call(
            stage,
            observation,
            PasteStage::Clicking,
            InjectError::KeySynthesis,
        ),
        PasteStage::Clicking => paste_after_call(
            stage,
            observation,
            PasteStage::Releasing,
            InjectError::KeySynthesis,
        ),
        PasteStage::Releasing => paste_after_call(
            stage,
            observation,
            PasteStage::Succeeded,
            InjectError::KeySynthesis,
        ),
        PasteStage::Succeeded => stage,
        PasteStage::Failed(_) => stage,
    }
}

/// The command that is pending at `stage`.
pub open spec fn paste_pending(stage: PasteStage) -> PasteCommand {
    match stage {
        PasteStage::Writing => PasteCommand::WriteClipboard,
        PasteStage::Settling => PasteCommand::Sleep(CLIPBOARD_SETTLE_MS),
        PasteStage::Opening => PasteCommand::OpenKeyboard,
        PasteStage::Pressing => PasteCommand::Key(
            KeyStroke { key: PasteKey::Control, direction: Direction::Press },
        ),
        PasteStage::Clicking => PasteCommand::Key(
            KeyStroke { key: PasteKey::Unicode('v'), direction: Direction::Click },
        ),
        PasteStage::Releasing => PasteCommand::Key(
            KeyStroke { key: PasteKey::Control, direction: Direction::Release },
        ),
        PasteStage::Succeeded => PasteCommand::Finish(Ok(())),
        PasteStage::Failed(e) => PasteCommand::Finish(Err(e)),
    }
}

impl PasteStage {
    /// The stage in which a clipboard-paste injection starts.
    pub fn begin() -> (stage: PasteStage)
        ensures
            stage == PasteStage::Writing,
    {
        PasteStage::Writing
    }

    /// The command that is pending.
    pub fn command(self) -> (c: PasteCommand)
        ensures
            c == paste_pending(self),
    {
        match self {
            PasteStage::Writing => PasteCommand::WriteClipboard,
            PasteStage::Settling => PasteCommand::Sleep(CLIPBOARD_SETTLE_MS),
            PasteStage::Opening => PasteCommand::OpenKeyboard,
            PasteStage::Pressing => PasteCommand::Key(
                KeyStroke { key: PasteKey::Control, direction: Direction::Press },
            ),
            PasteStage::Clicking => PasteCommand::Key(
                KeyStroke { key: PasteKey::Unicode('v'), direction: Direction::Click },
            ),
            PasteStage::Releasing => PasteCommand::Key(
                KeyStroke { key: PasteKey::Control, direction: Direction::Release },
            ),
            PasteStage::Succeeded => PasteCommand::Finish(Ok(())),
            PasteStage::Failed(e) => PasteCommand::Finish(Err(e)),
        }
    }

    /// Takes in what the caller observed and gives the next stage.
    pub fn step(self, observation: PasteObservation) -> (next: PasteStage)
        ensures
            next == paste_next(self, observation),
    {
        match (self, observation) {
            (PasteStage::Writing, PasteObservation::Done) => PasteStage::Settling,
            (PasteStage::Writing, PasteObservation::Refused) => PasteStage::Failed(
                InjectError::ClipboardWrite,
            ),
            (PasteStage::Settling, PasteObservation::Slept) => PasteStage::Opening,
            (PasteStage::Opening, PasteObservation::Done) => PasteStage::Pressing,
            (PasteStage::Opening, PasteObservation::Refused) => PasteStage::Failed(
                InjectError::KeyboardInit,
            ),
            (PasteStage::Pressing, PasteObservation::Done) => PasteStage::Clicking,
            (PasteStage::Clicking, PasteObservation::Done) => PasteStage::Releasing,
            (PasteStage::Releasing, PasteObservation::Done) => PasteStage::Succeeded,
            (PasteStage::Pressing, PasteObservation::Refused)
            | (PasteStage::Clicking, PasteObservation::Refused)
            | (PasteStage::Releasing, PasteObservation::Refused) => PasteStage::Failed(
                InjectError::KeySynthesis,
            ),
            _ => self,
        }
    }
}

} // verus!
