//! The hotkey listener model: one registered key combination, and the pure
//! filter that decides which raw shortcut events may trigger a capture.

use vstd::prelude::*;

verus! {

/// The modifier keys a shortcut may require. A combination holds zero or
/// more of them; matching is exact, never partial.
#[derive(Clone, Copy, PartialEq, Eq, Structural, Debug)]
pub struct Modifiers {
    pub control: bool,
    pub shift: bool,
    pub alt: bool,
    pub meta: bool,
}

/// A shortcut specification: a set of modifier keys together with exactly
/// one primary key code.
#[derive(Clone, Copy, PartialEq, Eq, Structural, Debug)]
pub struct ShortcutSpec {
    pub modifiers: Modifiers,
    pub key: u32,
}

/// Whether the combination of a raw event was pressed or released.
#[derive(Clone, Copy, PartialEq, Eq, Structural, Debug)]
pub enum ShortcutState {
    Pressed,
    Released,
}

/// A raw shortcut event as the operating-system layer reports it: the
/// combination that matched, and its press/release state.
#[derive(Clone, Copy, PartialEq, Eq, Structural, Debug)]
pub struct ShortcutEvent {
    pub shortcut: ShortcutSpec,
    pub state: ShortcutState,
}

/// Key code for the letter `F`, the primary key of the combination the
/// application registers at startup.
pub const KEY_CODE_F: u32 = 70;

/// When a raw event triggers the capture handler: only a press, and only of
/// exactly the registered combination.
pub open spec fn spec_should_trigger(registered: ShortcutSpec, event: ShortcutEvent) -> bool {
    event.state is Pressed && event.shortcut == registered
}

/// The hotkey listener: holds the one combination registered with the
/// operating system. Created once at startup and never mutated.
pub struct Listener {
    registered: ShortcutSpec,
}

impl Listener {
    /// The combination this listener was registered with.
    pub closed spec fn spec_registered(&self) -> ShortcutSpec {
        self.registered
    }

    /// A listener for the given combination. The operating-system
    /// registration itself happens in the unverified adapter; this value
    /// records what was registered.
    pub fn new(spec: ShortcutSpec) -> (r: Listener)
        ensures
            r.spec_registered() == spec,
    {
        Listener { registered: spec }
    }

    /// The pure event filter: reports whether this raw event must invoke the
    /// capture handler. True exactly for a press of the registered
    /// combination; every release and every other combination is ignored.
    pub fn should_trigger(&self, event: &ShortcutEvent) -> (r: bool)
        ensures
            r == spec_should_trigger(self.spec_registered(), *event),
    {
        match event.state {
            ShortcutState::Pressed => event.shortcut == self.registered,
            ShortcutState::Released => false,
        }
    }
}

/// The combination the application registers at startup: Control+Shift+F.
pub fn default_capture_shortcut() -> (r: ShortcutSpec)
    ensures
        r.modifiers.control,
        r.modifiers.shift,
        !r.modifiers.alt,
        !r.modifiers.meta,
        r.key == KEY_CODE_F,
{
    ShortcutSpec {
        modifiers: Modifiers { control: true, shift: true, alt: false, meta: false },
        key: KEY_CODE_F,
    }
}

/// Law: delivering a pressed event for any combination other than the
/// registered one never invokes the capture handler.
pub proof fn lemma_non_matching_never_triggers(registered: ShortcutSpec, event: ShortcutEvent)
    requires
        event.shortcut != registered,
    ensures
        !spec_should_trigger(registered, event),
{
}

/// Law: a release event never invokes the capture handler, even for the
/// registered combination.
pub proof fn lemma_release_never_triggers(registered: ShortcutSpec, event: ShortcutEvent)
    requires
        event.state is Released,
    ensures
        !spec_should_trigger(registered, event),
{
}

} // verus!
