//! User preferences and the model behind the preferences dialog.

use vstd::prelude::*;

use crate::mode::AppMode;

verus! {

/// The user's settings for a session.
///
/// `timeout_millis` is the countdown duration in milliseconds; `None`
/// disables the countdown. `digits_per_row` is the display row width.
#[derive(Debug, Copy, Clone, PartialEq)]
pub struct AppPreferences {
    pub mode: AppMode,
    pub timeout_millis: Option<u32>,
    pub digits_per_row: u8,
}

/// The preferences a fresh installation starts with, also substituted
/// when the persisted record cannot be read back.
pub open spec fn spec_default_preferences() -> AppPreferences {
    AppPreferences { mode: AppMode::Learn, timeout_millis: None, digits_per_row: 10 }
}

impl Default for AppPreferences {
    /// Learn mode, no countdown, ten digits to a row.
    fn default() -> (prefs: Self)
        ensures
            prefs == spec_default_preferences(),
    {
        AppPreferences { mode: AppMode::Learn, timeout_millis: None, digits_per_row: 10 }
    }
}

/// State of the preferences dialog: whether it is shown, and the values
/// its rows currently display.
#[derive(Debug, Copy, Clone, PartialEq)]
pub struct PreferencesPageModel {
    pub hidden: bool,
    pub mode: AppMode,
    pub timeout_millis: Option<u32>,
    pub digits_per_row: u8,
}

/// User intent arriving at the preferences dialog. A timeout is selected
/// in milliseconds; selecting `0` disables the countdown.
#[derive(Debug, Copy, Clone, PartialEq)]
pub enum PreferencesPageInput {
    Show,
    Hide,
    SelectMode(AppMode),
    SelectTimeout(u32),
    SetDigitsPerRow(u8),
}

/// Preference change announced by the dialog for the session engine to
/// apply and persist.
#[derive(Debug, Copy, Clone, PartialEq)]
pub enum PreferencesPageOutput {
    SetMode(AppMode),
    SetTimeout(Option<u32>),
    SetDigitsPerRow(u8),
}

/// State of the dialog after processing `message`, paired with the
/// change it announces, if any.
pub open spec fn spec_page_step(
    model: PreferencesPageModel,
    message: PreferencesPageInput,
) -> (PreferencesPageModel, Option<PreferencesPageOutput>) {
    match message {
        PreferencesPageInput::Show => (
            PreferencesPageModel { hidden: false, ..model },
            None,
        ),
        PreferencesPageInput::Hide => (
            PreferencesPageModel { hidden: true, ..model },
            None,
        ),
        PreferencesPageInput::SelectMode(mode) => (
            PreferencesPageModel { mode, ..model },
            Some(PreferencesPageOutput::SetMode(mode)),
        ),
        PreferencesPageInput::SelectTimeout(millis) => {
            let timeout = if millis == 0 {
                None
            } else {
                Some(millis)
            };
            (
                PreferencesPageModel { timeout_millis: timeout, ..model },
                Some(PreferencesPageOutput::SetTimeout(timeout)),
            )
        },
        PreferencesPageInput::SetDigitsPerRow(digits_per_row) => (
            PreferencesPageModel { digits_per_row, ..model },
            Some(PreferencesPageOutput::SetDigitsPerRow(digits_per_row)),
        ),
    }
}

impl PreferencesPageModel {
    /// A dialog showing the given preferences, initially hidden.
    pub fn new(prefs: AppPreferences) -> (model: PreferencesPageModel)
        ensures
            model == (PreferencesPageModel {
                hidden: true,
                mode: prefs.mode,
                timeout_millis: prefs.timeout_millis,
                digits_per_row: prefs.digits_per_row,
            }),
    {
        PreferencesPageModel {
            hidden: true,
            mode: prefs.mode,
            timeout_millis: prefs.timeout_millis,
            digits_per_row: prefs.digits_per_row,
        }
    }

    /// Processes one user intent: show and hide toggle visibility; a
    /// selection updates the displayed value and announces the change.
    /// A timeout selection of zero milliseconds disables the countdown.
    pub fn update(&mut self, message: PreferencesPageInput) -> (output: Option<
        PreferencesPageOutput,
    >)
        ensures
            *final(self) == spec_page_step(*old(self), message).0,
            output == spec_page_step(*old(self), message).1,
    {
        match message {
            PreferencesPageInput::Show => {
                self.hidden = false;
                None
            },
            PreferencesPageInput::Hide => {
                self.hidden = true;
                None
            },
            PreferencesPageInput::SelectMode(mode) => {
                self.mode = mode;
                Some(PreferencesPageOutput::SetMode(mode))
            },
            PreferencesPageInput::SelectTimeout(millis) => {
                let timeout = if millis == 0 {
                    None
                } else {
                    Some(millis)
                };
                self.timeout_millis = timeout;
                Some(PreferencesPageOutput::SetTimeout(timeout))
            },
            PreferencesPageInput::SetDigitsPerRow(digits_per_row) => {
                self.digits_per_row = digits_per_row;
                Some(PreferencesPageOutput::SetDigitsPerRow(digits_per_row))
            },
        }
    }
}

} // verus!
