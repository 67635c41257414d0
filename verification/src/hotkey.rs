//! The hotkey manager: the one system-wide key combination that opens the
//! quick-insert popup.
//!
//! The manager is either unregistered or holds the binding that the platform
//! has registered. It never talks to the platform: it says what to release
//! and what to acquire, the caller does so and reports whether the platform
//! agreed. Changing the binding is not transactional: the old binding is
//! given up first, and where the new one cannot be had none is left.

use global_hotkey::hotkey::HotKey;
use vstd::prelude::*;

verus! {

/// Whether `text` is a key combination that `global_hotkey`'s parser
/// (`HotKey::from_str`) accepts.
pub uninterp spec fn hotkey_accepted(text: Seq<char>) -> bool;

/// Parses `text` with `HotKey::from_str` and keeps whether it was accepted.
/// Trusted: acceptance is the named predicate of `text`; of the words that
/// describe a rejection nothing is claimed.
#[verifier::external_body]
fn check_syntax(text: &str) -> (r: Result<(), String>)
    ensures
        r is Ok <==> hotkey_accepted(text@),
{
    match text.parse::<HotKey>() {
        Ok(_) => Ok(()),
        Err(e) => Err(format!("{:?}", e)),
    }
}

/// Why the hotkey could not be set.
#[derive(Debug)]
pub enum HotkeyError {
    /// The text is not a key combination; the parser's words.
    Malformed(String),
    /// The platform refused the combination; its words.
    RegistrationFailed(String),
}

/// A key combination that passed for well-formed, as text.
#[derive(Debug)]
pub struct HotkeyBinding {
    text: String,
}

impl View for HotkeyBinding {
    type V = Seq<char>;

    closed spec fn view(&self) -> Seq<char> {
        self.text@
    }
}

/// What a verdict on the syntax of `text` makes of it: a binding with that
/// text, or the error that carries the parser's words.
pub open spec fn binding_outcome(
    text: Seq<char>,
    syntax: Result<(), String>,
    r: Result<HotkeyBinding, HotkeyError>,
) -> bool {
    match syntax {
        Ok(()) => r is Ok && r->Ok_0@ == text,
        Err(why) => r == Err::<HotkeyBinding, HotkeyError>(HotkeyError::Malformed(why)),
    }
}

impl HotkeyBinding {
    /// Makes the binding for `text`, given the parser's verdict on it.
    pub fn checked(text: &str, syntax: Result<(), String>) -> (r: Result<
        HotkeyBinding,
        HotkeyError,
    >)
        ensures
            binding_outcome(text@, syntax, r),
    {
        match syntax {
            Ok(()) => Ok(HotkeyBinding { text: text.to_owned() }),
            Err(why) => Err(HotkeyError::Malformed(why)),
        }
    }

    /// Checks that `text` is a key combination, and makes the binding for
    /// it.
    pub fn parse(text: &str) -> (r: Result<HotkeyBinding, HotkeyError>)
        ensures
            match r {
                Ok(binding) => hotkey_accepted(text@) && binding@ == text@,
                Err(e) => !hotkey_accepted(text@) && e is Malformed,
            },
    {
        HotkeyBinding::checked(text, check_syntax(text))
    }

    /// The combination as text.
    pub fn as_str(&self) -> (text: &str)
        ensures
            text@ == self@,
    {
        self.text.as_str()
    }
}

/// What the platform has to do to change the binding.
#[derive(Debug)]
pub struct RebindPlan {
    /// The binding to unregister first; a failure to do so is ignored.
    pub release: Option<HotkeyBinding>,
    /// The binding to register then, or why there is none to register.
    pub acquire: Result<HotkeyBinding, HotkeyError>,
}

/// Owner of the single active binding.
#[derive(Debug)]
pub struct HotkeyManager {
    binding: Option<HotkeyBinding>,
}

/// The state of the manager: no binding, or the text of the registered one.
pub enum HotkeyState {
    Unregistered,
    Registered(Seq<char>),
}

impl View for HotkeyManager {
    type V = HotkeyState;

    closed spec fn view(&self) -> HotkeyState {
        match self.binding {
            Some(b) => HotkeyState::Registered(b@),
            None => HotkeyState::Unregistered,
        }
    }
}

impl HotkeyManager {
    /// A manager without binding.
    pub fn new() -> (manager: HotkeyManager)
        ensures
            manager@ == HotkeyState::Unregistered,
    {
        HotkeyManager { binding: None }
    }

    /// Whether a binding is registered.
    pub fn is_registered(&self) -> (r: bool)
        ensures
            r == (self@ is Registered),
    {
        self.binding.is_some()
    }

    /// Text of the registered binding.
    pub fn registered(&self) -> (r: Option<&str>)
        ensures
            match r {
                Some(text) => self@ == HotkeyState::Registered(text@),
                None => self@ == HotkeyState::Unregistered,
            },
    {
        match &self.binding {
            Some(b) => Some(b.as_str()),
            None => None,
        }
    }

    /// Records the end of a registration that the caller tried on the
    /// platform: `binding` is registered where the platform agreed, and the
    /// manager stays unregistered where it refused.
    pub fn register(&mut self, binding: HotkeyBinding, platform: Result<(), String>) -> (r: Result<
        (),
        HotkeyError,
    >)
        requires
            old(self)@ == HotkeyState::Unregistered,
        ensures
            match platform {
                Ok(()) => r is Ok && final(self)@ == HotkeyState::Registered(binding@),
                Err(why) => r == Err::<(), HotkeyError>(HotkeyError::RegistrationFailed(why))
                    && final(self)@ == HotkeyState::Unregistered,
            },
    {
        match platform {
            Ok(()) => {
                self.binding = Some(binding);
                Ok(())
            },
            Err(why) => Err(HotkeyError::RegistrationFailed(why)),
        }
    }

    /// Gives up the binding. Returns the binding that the caller has to
    /// unregister on the platform, if there was one; whether the platform
    /// manages to is of no concern.
    pub fn unregister(&mut self) -> (released: Option<HotkeyBinding>)
        ensures
            final(self)@ == HotkeyState::Unregistered,
            match released {
                Some(b) => old(self)@ == HotkeyState::Registered(b@),
                None => old(self)@ == HotkeyState::Unregistered,
            },
    {
        let mut taken: HotkeyManager = HotkeyManager::new();
        std::mem::swap(self, &mut taken);
        taken.binding
    }

    /// Starts a change of binding to `text`, given the parser's verdict on
    /// `text`: gives up the current binding and makes the new one. The
    /// manager is unregistered afterwards; the caller carries out the plan
    /// and ends with `register` where there is a binding to acquire.
    pub fn rebind_checked(&mut self, text: &str, syntax: Result<(), String>) -> (plan: RebindPlan)
        ensures
            final(self)@ == HotkeyState::Unregistered,
            match plan.release {
                Some(b) => old(self)@ == HotkeyState::Registered(b@),
                None => old(self)@ == HotkeyState::Unregistered,
            },
            binding_outcome(text@, syntax, plan.acquire),
    {
        let release: Option<HotkeyBinding> = self.unregister();
        let acquire: Result<HotkeyBinding, HotkeyError> = HotkeyBinding::checked(text, syntax);
        RebindPlan { release, acquire }
    }

    /// Starts a change of binding to `text`: gives up the current binding
    /// and checks the new one, as `rebind_checked` does with the parser's
    /// verdict.
    pub fn rebind(&mut self, text: &str) -> (plan: RebindPlan)
        ensures
            final(self)@ == HotkeyState::Unregistered,
            match plan.release {
                Some(b) => old(self)@ == HotkeyState::Registered(b@),
                None => old(self)@ == HotkeyState::Unregistered,
            },
            match plan.acquire {
                Ok(binding) => hotkey_accepted(text@) && binding@ == text@,
                Err(e) => !hotkey_accepted(text@) && e is Malformed,
            },
    {
        self.rebind_checked(text, check_syntax(text))
    }
}

} // verus!
