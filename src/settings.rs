//! State kept by a front-end's settings panel.

use vstd::prelude::*;

verus! {

/// The settings panel's editable fields.
#[derive(Debug)]
pub struct SettingsState {
    /// The name being typed in the username field.
    pub edit_username_input: String,
}

impl SettingsState {
    /// A panel with an empty username field.
    pub fn new() -> (r: SettingsState)
        ensures
            r.edit_username_input@.len() == 0,
    {
        SettingsState { edit_username_input: String::new() }
    }
}

} // verus!
