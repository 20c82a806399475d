use vstd::prelude::*;

verus! {

/// The three-field profile record that is the sole unit of state: first
/// name, last name and email address, each an arbitrary piece of text.
/// No field content is validated; empty text is a legal value for every
/// field. The record is immutable by replacement: it is only ever
/// overwritten as a whole, never merged field by field.
#[derive(Debug, PartialEq, Eq)]
pub struct UserSettings {
    pub first_name: String,
    pub last_name: String,
    pub email: String,
}

/// The mathematical value of a settings record: each text field as a
/// sequence of characters. Contracts throughout the crate speak of this
/// snapshot rather than of the executable record.
pub ghost struct SettingsSnapshot {
    pub first_name: Seq<char>,
    pub last_name: Seq<char>,
    pub email: Seq<char>,
}

impl SettingsSnapshot {
    /// The zero-valued record: all three fields empty.
    pub open spec fn empty() -> Self {
        SettingsSnapshot {
            first_name: Seq::<char>::empty(),
            last_name: Seq::<char>::empty(),
            email: Seq::<char>::empty(),
        }
    }
}

impl View for UserSettings {
    type V = SettingsSnapshot;

    open spec fn view(&self) -> SettingsSnapshot {
        SettingsSnapshot {
            first_name: self.first_name@,
            last_name: self.last_name@,
            email: self.email@,
        }
    }
}

impl UserSettings {
    /// The zero-valued record the store starts from: every field is the
    /// empty string.
    pub fn empty() -> (r: Self)
        ensures
            r@ == SettingsSnapshot::empty(),
    {
        UserSettings {
            first_name: String::new(),
            last_name: String::new(),
            email: String::new(),
        }
    }
}

impl Clone for UserSettings {
    /// A field-for-field copy: callers of the store receive such copies,
    /// never references into it.
    fn clone(&self) -> (r: Self)
        ensures
            r@ == self@,
    {
        UserSettings {
            first_name: self.first_name.clone(),
            last_name: self.last_name.clone(),
            email: self.email.clone(),
        }
    }
}

} // verus!
