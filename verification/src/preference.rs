//! The theme preference and the cell that holds the current one.
use vstd::prelude::*;

verus! {

/// The user's chosen theme. `System` defers to what the platform reports.
#[derive(Clone, Copy, Debug, PartialEq, Eq, Structural)]
pub enum ThemePreference {
    Light,
    Dark,
    System,
}

impl ThemePreference {
    /// How far "on" the indicator is, counted in halves: 0 is fully left,
    /// 2 is fully right.
    pub open spec fn spec_on_halves(self) -> u8 {
        match self {
            ThemePreference::Light => 0,
            ThemePreference::System => 1,
            ThemePreference::Dark => 2,
        }
    }

    /// The indicator's "on" fraction as a numerator over two: `Light` is 0/2,
    /// `System` is 1/2 and `Dark` is 2/2.
    #[verifier::when_used_as_spec(spec_on_halves)]
    pub fn on_halves(self) -> (halves: u8)
        ensures
            halves == self.spec_on_halves(),
            halves == 0 || halves == 1 || halves == 2,
            (halves == 0) == (self == ThemePreference::Light),
            (halves == 1) == (self == ThemePreference::System),
            (halves == 2) == (self == ThemePreference::Dark),
    {
        match self {
            ThemePreference::Light => 0,
            ThemePreference::System => 1,
            ThemePreference::Dark => 2,
        }
    }
}

/// What a reader of the shared preference goes on with: the value it read, or
/// `System` when the read could not be made.
pub fn preference_or_default(read: Option<ThemePreference>) -> (preference: ThemePreference)
    ensures
        preference == match read {
            Some(p) => p,
            None => ThemePreference::System,
        },
{
    match read {
        Some(p) => p,
        None => ThemePreference::System,
    }
}

/// The one preference that every switcher of an application shows and changes.
///
/// It always holds one of the three preferences; a fresh one holds `System`.
/// The embedder shares it between its switchers (behind a lock where several
/// threads paint).
#[derive(Clone, Copy, Debug, PartialEq, Eq, Structural)]
pub struct SharedPreferenceState {
    preference: ThemePreference,
}

impl View for SharedPreferenceState {
    type V = ThemePreference;

    closed spec fn view(&self) -> ThemePreference {
        self.preference
    }
}

impl SharedPreferenceState {
    /// A state that holds `System`.
    pub fn new() -> (state: Self)
        ensures
            state@ == ThemePreference::System,
    {
        SharedPreferenceState { preference: ThemePreference::System }
    }

    /// The preference held now.
    pub fn read(&self) -> (preference: ThemePreference)
        ensures
            preference == self@,
    {
        self.preference
    }

    /// Replaces the preference held.
    pub fn write(&mut self, preference: ThemePreference)
        ensures
            final(self)@ == preference,
    {
        self.preference = preference;
    }
}

} // verus!
