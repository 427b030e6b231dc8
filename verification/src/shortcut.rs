//! Dispatch of a pressed global shortcut to the handler that owns it.
use vstd::prelude::*;

verus! {

/// What the host found when it looked up one shortcut handler.
pub enum HandlerLookup {
    /// The handler's state was never registered.
    Missing,
    /// The handler's lock was poisoned; the text describes it.
    LockPoisoned(String),
    /// The handler is available; `hotkey_matches` tells whether its hot key is
    /// the pressed one.
    Loaded { hotkey_matches: bool },
}

/// Why a handler could not be consulted.
pub enum ShortcutFault {
    MissingState,
    LockPoisoned(String),
}

/// What to do with one handler for a pressed shortcut.
pub enum ShortcutDecision {
    /// Run the handler's callback: the shortcut is handled.
    Invoke,
    /// The shortcut is not this handler's.
    Pass,
    /// Report the fault; the shortcut is not handled by this handler.
    Fault(ShortcutFault),
}

impl ShortcutDecision {
    /// Whether the shortcut counts as handled.
    pub fn handled(&self) -> (b: bool)
        ensures
            b == (self is Invoke),
    {
        match self {
            ShortcutDecision::Invoke => true,
            _ => false,
        }
    }
}

/// Decides whether the handler described by `lookup` takes the pressed
/// shortcut.
pub fn try_handle_shortcut(lookup: HandlerLookup) -> (d: ShortcutDecision)
    ensures
        match lookup {
            HandlerLookup::Missing => d matches ShortcutDecision::Fault(ShortcutFault::MissingState),
            HandlerLookup::LockPoisoned(m) => d matches ShortcutDecision::Fault(
                ShortcutFault::LockPoisoned(n),
            ) && n@ == m@,
            HandlerLookup::Loaded { hotkey_matches } => if hotkey_matches {
                d is Invoke
            } else {
                d is Pass
            },
        },
{
    match lookup {
        HandlerLookup::Missing => ShortcutDecision::Fault(ShortcutFault::MissingState),
        HandlerLookup::LockPoisoned(m) => ShortcutDecision::Fault(ShortcutFault::LockPoisoned(m)),
        HandlerLookup::Loaded { hotkey_matches } => if hotkey_matches {
            ShortcutDecision::Invoke
        } else {
            ShortcutDecision::Pass
        },
    }
}

/// Whether a looked-up handler owns the pressed shortcut.
pub open spec fn owns_shortcut(lookup: HandlerLookup) -> bool {
    lookup matches HandlerLookup::Loaded { hotkey_matches: true }
}

/// Offers the pressed shortcut to the handlers in order: the index of the
/// first handler that owns it, which alone runs; `None` when none does.
pub fn dispatch_shortcut(lookups: &Vec<HandlerLookup>) -> (chosen: Option<usize>)
    ensures
        match chosen {
            Some(i) => i < lookups@.len() && owns_shortcut(lookups@[i as int]) && forall|j: int|
                0 <= j < i ==> !owns_shortcut(#[trigger] lookups@[j]),
            None => forall|j: int| 0 <= j < lookups@.len() ==> !owns_shortcut(#[trigger] lookups@[j]),
        },
{
    let mut i: usize = 0;
    while i < lookups.len()
        invariant
            i <= lookups@.len(),
            forall|j: int| 0 <= j < i ==> !owns_shortcut(#[trigger] lookups@[j]),
        decreases lookups@.len() - i,
    {
        let owned = match &lookups[i] {
            HandlerLookup::Loaded { hotkey_matches } => *hotkey_matches,
            _ => false,
        };
        if owned {
            return Some(i);
        }
        i = i + 1;
    }
    None
}

} // verus!
