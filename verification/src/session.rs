//! The session engine: the state machine of one practice attempt.
//!
//! The engine consumes key events, preference changes and timer ticks,
//! judges typed digits against the reference stream, maintains the
//! window of displayed cells under the active mode's rule, drives the
//! countdown, and reports terminal transitions back to the shell.

use vstd::prelude::*;

use crate::cell::{PiDigitModel, PiDigitState};
use crate::config::{PRELOADED_DIGITS, PROGRESSBAR_UPDATE_FREQUENCY};
use crate::mode::AppMode;
use crate::prefs::{AppPreferences, PreferencesPageOutput};
use crate::stream::DigitStream;
use crate::ticker::{TickerView, TimeoutTicker};
use crate::window::{spec_retag, spec_update_at, WindowBuffer};

verus! {

/// The two pages of the trainer: the idle page, with no active digit
/// stream, and the practice page.
#[derive(Debug, Copy, Clone, PartialEq, Eq, Structural)]
pub enum AppPages {
    Placeholder,
    Memoriser,
}

/// User intent coming from the header menu, forwarded to the shell.
#[derive(Debug, Copy, Clone, PartialEq, Eq, Structural)]
pub enum HeaderOutput {
    Preferences,
    About,
}

/// A keyboard intent, as the shell reports it: the undo key, or a typed
/// character that may be a digit to judge.
#[derive(Debug, Copy, Clone, PartialEq)]
pub enum KeyEvent {
    Backspace,
    Character(char),
}

/// One inbound event for the engine to process.
#[derive(Debug, Copy, Clone, PartialEq)]
pub enum AppInput {
    /// A typed character, possibly a digit to judge.
    AddDigit(char),
    /// Undo of the last answered digit, where the mode defines one.
    RemoveLastDigit,
    /// One tick of the countdown clock.
    TickTimeout,
    /// A menu intent the shell must act on.
    Open(HeaderOutput),
    /// A preference change announced by the preferences dialog.
    SetPreference(PreferencesPageOutput),
    /// A page switch.
    SwitchPage(AppPages),
}

/// What the shell must do after the engine processed an event.
#[derive(Debug, Copy, Clone, PartialEq, Eq, Structural)]
pub enum AppReaction {
    /// Nothing beyond refreshing the view.
    Quiet,
    /// The session ended: a wrong digit under instant death, or the
    /// countdown expired. The engine has already reset to the idle page.
    GameOver,
    /// A removal was asked for with nothing left to remove.
    NothingToRemove,
    /// The preferences changed; the shell should persist them.
    PreferencesChanged,
    /// The shell should open the named dialog.
    Open(HeaderOutput),
}

/// Abstract state of the engine: the reference digits, the preferences,
/// the page, the live index into the reference stream, the displayed
/// cells, and the countdown.
#[verifier::ext_equal]
pub struct EngineView {
    pub digits: Seq<u8>,
    pub preferences: AppPreferences,
    pub current_page: AppPages,
    pub curr_pi_index: int,
    pub cells: Seq<PiDigitModel>,
    pub ticker: TickerView,
}

/// A timeout preference is either disabled or a positive duration; a
/// zero-length countdown persists as "disabled".
pub open spec fn spec_prefs_wf(prefs: AppPreferences) -> bool {
    prefs.timeout_millis matches Some(t) ==> t > 0
}

impl EngineView {
    /// Well-formedness, established at construction and preserved by
    /// every transition: the reference stream holds decimal digits and
    /// is long enough for the look-ahead, the live index never passes
    /// the end of the stream, the preferences are sound, and the
    /// countdown is consistent.
    pub open spec fn wf(self) -> bool {
        &&& forall|i: int| 0 <= i < self.digits.len() ==> self.digits[i] < 10
        &&& self.digits.len() >= PRELOADED_DIGITS
        &&& 0 <= self.curr_pi_index <= self.digits.len()
        &&& spec_prefs_wf(self.preferences)
        &&& self.ticker.wf()
    }
}

/// Whether the typed character is a decimal digit key.
pub open spec fn spec_is_digit_key(ch: char) -> bool {
    48 <= ch as u32 <= 57
}

/// The digit value of a decimal digit key.
pub open spec fn spec_digit_of(ch: char) -> u8
    recommends
        spec_is_digit_key(ch),
{
    (ch as u32 - 48) as u8
}

/// The look-ahead cells preloaded on entering practice in learn mode:
/// the first few reference digits, each a placeholder.
pub open spec fn spec_preload(digits: Seq<u8>, digits_per_row: u8) -> Seq<PiDigitModel> {
    Seq::new(
        PRELOADED_DIGITS as nat,
        |i: int| PiDigitModel {
            digit: digits[i],
            state: PiDigitState::Placeholder,
            digits_per_row,
        },
    )
}

/// State after switching to a page. Switching to the idle page discards
/// the session: empty window, index zero, countdown cancelled. Entering
/// practice in learn mode preloads the look-ahead placeholders.
pub open spec fn spec_switch_page(v: EngineView, page: AppPages) -> EngineView {
    match page {
        AppPages::Placeholder => EngineView {
            current_page: AppPages::Placeholder,
            curr_pi_index: 0,
            cells: Seq::empty(),
            ticker: TickerView::disarmed(),
            ..v
        },
        AppPages::Memoriser => EngineView {
            current_page: AppPages::Memoriser,
            cells: if v.preferences.mode == AppMode::Learn {
                v.cells + spec_preload(v.digits, v.preferences.digits_per_row)
            } else {
                v.cells
            },
            ..v
        },
    }
}

/// State and reaction after a typed character. Outside the practice
/// page, and for any key that is not a decimal digit, the event is
/// absorbed with no state change. A digit is judged against the
/// reference at the live index: under instant death a wrong digit ends
/// the session on the spot, with no cell recorded; a right digit always
/// re-arms the countdown (when one is configured); blind and instant
/// death append the judged cell, learn re-judges the placeholder in
/// place and extends the look-ahead; the live index then advances.
pub open spec fn spec_submit(v: EngineView, ch: char) -> (EngineView, AppReaction) {
    if v.current_page != AppPages::Memoriser || !spec_is_digit_key(ch) {
        (v, AppReaction::Quiet)
    } else {
        let digit = spec_digit_of(ch);
        let state = if digit == v.digits[v.curr_pi_index] {
            PiDigitState::Right
        } else {
            PiDigitState::Wrong
        };
        if v.preferences.mode == AppMode::InstantDeath && state == PiDigitState::Wrong {
            (spec_switch_page(v, AppPages::Placeholder), AppReaction::GameOver)
        } else {
            let ticker = if state == PiDigitState::Right {
                match v.preferences.timeout_millis {
                    Some(total) => TickerView::armed_for(total),
                    None => TickerView::disarmed(),
                }
            } else {
                v.ticker
            };
            let width = v.preferences.digits_per_row;
            let cells = if v.preferences.mode == AppMode::Learn {
                let judged = spec_update_at(v.cells, v.curr_pi_index, digit, state);
                if v.curr_pi_index + PRELOADED_DIGITS < judged.len() {
                    judged
                } else {
                    judged.push(
                        PiDigitModel {
                            digit: v.digits[v.curr_pi_index + PRELOADED_DIGITS],
                            state: PiDigitState::Placeholder,
                            digits_per_row: width,
                        },
                    )
                }
            } else {
                v.cells.push(PiDigitModel { digit, state, digits_per_row: width })
            };
            (
                EngineView { curr_pi_index: v.curr_pi_index + 1, cells, ticker, ..v },
                AppReaction::Quiet,
            )
        }
    }
}

/// State and reaction after an undo request. Outside the practice page
/// the event is absorbed. Blind pops the last cell and steps the live
/// index back, or reports that nothing is left to remove. Learn steps
/// the index back (stopping at zero) and restores the placeholder there
/// with the true reference digit. Instant death defines no undo.
pub open spec fn spec_remove_last(v: EngineView) -> (EngineView, AppReaction) {
    if v.current_page != AppPages::Memoriser {
        (v, AppReaction::Quiet)
    } else {
        match v.preferences.mode {
            AppMode::Blind => {
                if v.cells.len() == 0 {
                    (v, AppReaction::NothingToRemove)
                } else {
                    (
                        EngineView {
                            cells: v.cells.drop_last(),
                            curr_pi_index: if v.curr_pi_index > 0 {
                                v.curr_pi_index - 1
                            } else {
                                0
                            },
                            ..v
                        },
                        AppReaction::Quiet,
                    )
                }
            },
            AppMode::Learn => {
                let index = if v.curr_pi_index > 0 {
                    v.curr_pi_index - 1
                } else {
                    0
                };
                (
                    EngineView {
                        curr_pi_index: index,
                        cells: spec_update_at(
                            v.cells,
                            index,
                            v.digits[index],
                            PiDigitState::Placeholder,
                        ),
                        ..v
                    },
                    AppReaction::Quiet,
                )
            },
            AppMode::InstantDeath => (v, AppReaction::Quiet),
        }
    }
}

/// State and reaction after one countdown tick. Ticks are inert while no
/// timeout is configured or the countdown is disarmed. Otherwise the
/// countdown advances by one interval; reaching the armed duration ends
/// the session: a reset to the idle page, reported exactly once.
pub open spec fn spec_tick(v: EngineView) -> (EngineView, AppReaction) {
    if v.preferences.timeout_millis is None || !v.ticker.armed {
        (v, AppReaction::Quiet)
    } else if v.ticker.elapsed_millis + PROGRESSBAR_UPDATE_FREQUENCY >= v.ticker.total_millis {
        (spec_switch_page(v, AppPages::Placeholder), AppReaction::GameOver)
    } else {
        (
            EngineView {
                ticker: TickerView {
                    armed: true,
                    total_millis: v.ticker.total_millis,
                    elapsed_millis: (v.ticker.elapsed_millis + PROGRESSBAR_UPDATE_FREQUENCY) as u32,
                },
                ..v
            },
            AppReaction::Quiet,
        )
    }
}

/// State after a mode change: the session is fully reset on the current
/// page (empty window, index zero, countdown cancelled), then, when the
/// new mode is learn and the practice page is already showing, the
/// look-ahead is preloaded.
pub open spec fn spec_set_mode(v: EngineView, mode: AppMode) -> EngineView {
    let reset = EngineView {
        preferences: AppPreferences { mode, ..v.preferences },
        curr_pi_index: 0,
        cells: Seq::empty(),
        ticker: TickerView::disarmed(),
        ..v
    };
    if mode == AppMode::Learn && v.current_page == AppPages::Memoriser {
        spec_switch_page(reset, AppPages::Memoriser)
    } else {
        reset
    }
}

/// State after a timeout change: only the stored preference moves; a
/// countdown already running keeps its armed duration until re-armed.
pub open spec fn spec_set_timeout(v: EngineView, timeout_millis: Option<u32>) -> EngineView {
    EngineView { preferences: AppPreferences { timeout_millis, ..v.preferences }, ..v }
}

/// State after a row width change: the stored preference moves and every
/// displayed cell is re-tagged with the new width, digits, states and
/// order untouched.
pub open spec fn spec_set_digits_per_row(v: EngineView, digits_per_row: u8) -> EngineView {
    EngineView {
        preferences: AppPreferences { digits_per_row, ..v.preferences },
        cells: spec_retag(v.cells, digits_per_row),
        ..v
    }
}

/// State and reaction after any one inbound event.
pub open spec fn spec_update(v: EngineView, input: AppInput) -> (EngineView, AppReaction) {
    match input {
        AppInput::AddDigit(ch) => spec_submit(v, ch),
        AppInput::RemoveLastDigit => spec_remove_last(v),
        AppInput::TickTimeout => spec_tick(v),
        AppInput::Open(target) => (v, AppReaction::Open(target)),
        AppInput::SetPreference(change) => (
            match change {
                PreferencesPageOutput::SetMode(mode) => spec_set_mode(v, mode),
                PreferencesPageOutput::SetTimeout(timeout_millis) => spec_set_timeout(
                    v,
                    timeout_millis,
                ),
                PreferencesPageOutput::SetDigitsPerRow(digits_per_row) => spec_set_digits_per_row(
                    v,
                    digits_per_row,
                ),
            },
            AppReaction::PreferencesChanged,
        ),
        AppInput::SwitchPage(page) => (spec_switch_page(v, page), AppReaction::Quiet),
    }
}

/// A render-ready copy of the engine state, read between events; taking
/// it changes nothing.
#[derive(Debug, PartialEq)]
pub struct Snapshot {
    pub current_page: AppPages,
    pub mode: AppMode,
    pub window: Vec<PiDigitModel>,
    pub curr_pi_index: usize,
    pub timeout_armed: bool,
    pub timeout_total_millis: u32,
    pub timeout_elapsed_millis: u32,
}

/// The session engine. It owns the reference stream, the preferences,
/// the displayed window and the countdown; the shell drives it through
/// [`AppModel::update`] and renders [`AppModel::snapshot`].
pub struct AppModel {
    digits: DigitStream,
    preferences: AppPreferences,
    current_page: AppPages,
    curr_pi_index: usize,
    pi_digits: WindowBuffer,
    ticker: TimeoutTicker,
}

impl View for AppModel {
    type V = EngineView;

    closed spec fn view(&self) -> EngineView {
        EngineView {
            digits: self.digits@,
            preferences: self.preferences,
            current_page: self.current_page,
            curr_pi_index: self.curr_pi_index as int,
            cells: self.pi_digits@,
            ticker: self.ticker@,
        }
    }
}

impl AppModel {
    /// The engine's state is well formed.
    pub open spec fn wf(self) -> bool {
        self@.wf()
    }

    /// A fresh engine on the idle page: index zero, empty window,
    /// countdown disarmed. The reference stream must be long enough for
    /// the learn mode look-ahead.
    pub fn new(digits: DigitStream, preferences: AppPreferences) -> (engine: AppModel)
        requires
            digits.wf(),
            digits@.len() >= PRELOADED_DIGITS,
            spec_prefs_wf(preferences),
        ensures
            engine.wf(),
            engine@ == (EngineView {
                digits: digits@,
                preferences,
                current_page: AppPages::Placeholder,
                curr_pi_index: 0,
                cells: Seq::empty(),
                ticker: TickerView::disarmed(),
            }),
    {
        let engine = AppModel {
            digits,
            preferences,
            current_page: AppPages::Placeholder,
            curr_pi_index: 0,
            pi_digits: WindowBuffer::new(),
            ticker: TimeoutTicker::new(),
        };
        proof {
            assert(engine@ =~= (EngineView {
                digits: engine.digits@,
                preferences,
                current_page: AppPages::Placeholder,
                curr_pi_index: 0,
                cells: Seq::empty(),
                ticker: TickerView::disarmed(),
            }));
        }
        engine
    }

    /// Switches the page. Leaving for the idle page discards the
    /// session; entering practice in learn mode preloads the look-ahead
    /// placeholders.
    pub fn switch_page(&mut self, page: AppPages)
        requires
            old(self).wf(),
        ensures
            final(self).wf(),
            final(self)@ == spec_switch_page(old(self)@, page),
    {
        self.current_page = page;
        match page {
            AppPages::Placeholder => {
                self.pi_digits.clear();
                self.curr_pi_index = 0;
                self.ticker.cancel();
                proof {
                    assert(self@ =~= spec_switch_page(old(self)@, page));
                }
            },
            AppPages::Memoriser => {
                if matches!(self.preferences.mode, AppMode::Learn) {
                    let ghost before = self.pi_digits@;
                    let ghost preload = spec_preload(
                        self.digits@,
                        self.preferences.digits_per_row,
                    );
                    let width = self.preferences.digits_per_row;
                    let mut i: usize = 0;
                    while i < PRELOADED_DIGITS
                        invariant
                            i <= PRELOADED_DIGITS,
                            self.digits@ == old(self)@.digits,
                            self.digits.wf(),
                            self.digits@.len() >= PRELOADED_DIGITS,
                            self.preferences == old(self)@.preferences,
                            self.current_page == page,
                            self.curr_pi_index == old(self)@.curr_pi_index,
                            self.ticker@ == old(self)@.ticker,
                            width == self.preferences.digits_per_row,
                            preload == spec_preload(self.digits@, width),
                            self.pi_digits@ =~= before + preload.take(i as int),
                        decreases PRELOADED_DIGITS - i,
                    {
                        let digit = self.digits.get(i);
                        self.pi_digits.push_back(
                            PiDigitModel {
                                digit,
                                state: PiDigitState::Placeholder,
                                digits_per_row: width,
                            },
                        );
                        proof {
                            assert(preload.take(i + 1) =~= preload.take(i as int).push(
                                preload[i as int],
                            ));
                        }
                        i += 1;
                    }
                    proof {
                        assert(preload.take(PRELOADED_DIGITS as int) =~= preload);
                        assert(self@ =~= spec_switch_page(old(self)@, page));
                    }
                } else {
                    proof {
                        assert(self@ =~= spec_switch_page(old(self)@, page));
                    }
                }
            },
        }
    }

    /// Judges one typed character, as [`spec_submit`] describes. The
    /// reference stream must reach the live index (and the look-ahead
    /// beyond it in learn mode) whenever the event is not absorbed; the
    /// corpus is expected to be far longer than any session.
    pub fn submit_digit(&mut self, ch: char) -> (reaction: AppReaction)
        requires
            old(self).wf(),
            old(self)@.current_page == AppPages::Memoriser && spec_is_digit_key(ch) ==> {
                &&& old(self)@.curr_pi_index < old(self)@.digits.len()
                &&& old(self)@.preferences.mode == AppMode::Learn ==> old(self)@.curr_pi_index
                    + PRELOADED_DIGITS < old(self)@.digits.len()
            },
        ensures
            final(self).wf(),
            final(self)@ == spec_submit(old(self)@, ch).0,
            reaction == spec_submit(old(self)@, ch).1,
    {
        proof {
            self.digits.lemma_len_fits();
        }
        if !matches!(self.current_page, AppPages::Memoriser) {
            return AppReaction::Quiet;
        }
        let code = ch as u32;
        if code < 48 || code > 57 {
            return AppReaction::Quiet;
        }
        let digit = (code - 48) as u8;
        let expected = self.digits.get(self.curr_pi_index);
        let state = if digit == expected {
            PiDigitState::Right
        } else {
            PiDigitState::Wrong
        };

        if matches!(self.preferences.mode, AppMode::InstantDeath) && matches!(
            state,
            PiDigitState::Wrong,
        ) {
            self.switch_page(AppPages::Placeholder);
            return AppReaction::GameOver;
        }
        if matches!(state, PiDigitState::Right) {
            self.ticker.cancel();
            match self.preferences.timeout_millis {
                Some(total) => self.ticker.arm(total),
                None => {},
            }
        }

        let width = self.preferences.digits_per_row;
        match self.preferences.mode {
            AppMode::Blind | AppMode::InstantDeath => {
                self.pi_digits.push_back(PiDigitModel { digit, state, digits_per_row: width });
            },
            AppMode::Learn => {
                self.pi_digits.update_at(self.curr_pi_index, digit, state);
                if self.pi_digits.get(self.curr_pi_index + PRELOADED_DIGITS).is_none() {
                    let ahead = self.digits.get(self.curr_pi_index + PRELOADED_DIGITS);
                    self.pi_digits.push_back(
                        PiDigitModel {
                            digit: ahead,
                            state: PiDigitState::Placeholder,
                            digits_per_row: width,
                        },
                    );
                }
            },
        }
        self.curr_pi_index = self.curr_pi_index + 1;
        proof {
            assert(self@ =~= spec_submit(old(self)@, ch).0);
        }
        AppReaction::Quiet
    }

    /// Undoes the last answered digit, as [`spec_remove_last`]
    /// describes; reports when nothing was left to remove.
    pub fn remove_last_digit(&mut self) -> (reaction: AppReaction)
        requires
            old(self).wf(),
        ensures
            final(self).wf(),
            final(self)@ == spec_remove_last(old(self)@).0,
            reaction == spec_remove_last(old(self)@).1,
    {
        if !matches!(self.current_page, AppPages::Memoriser) {
            return AppReaction::Quiet;
        }
        match self.preferences.mode {
            AppMode::Blind => {
                match self.pi_digits.pop_back() {
                    None => AppReaction::NothingToRemove,
                    Some(_) => {
                        if self.curr_pi_index > 0 {
                            self.curr_pi_index = self.curr_pi_index - 1;
                        }
                        AppReaction::Quiet
                    },
                }
            },
            AppMode::Learn => {
                if self.curr_pi_index > 0 {
                    self.curr_pi_index = self.curr_pi_index - 1;
                }
                let reference = self.digits.get(self.curr_pi_index);
                self.pi_digits.update_at(
                    self.curr_pi_index,
                    reference,
                    PiDigitState::Placeholder,
                );
                AppReaction::Quiet
            },
            AppMode::InstantDeath => AppReaction::Quiet,
        }
    }

    /// Advances the countdown by one interval, as [`spec_tick`]
    /// describes; expiry ends the session, exactly once.
    pub fn tick_timeout(&mut self) -> (reaction: AppReaction)
        requires
            old(self).wf(),
        ensures
            final(self).wf(),
            final(self)@ == spec_tick(old(self)@).0,
            reaction == spec_tick(old(self)@).1,
    {
        if self.preferences.timeout_millis.is_none() {
            return AppReaction::Quiet;
        }
        let expired = self.ticker.tick(PROGRESSBAR_UPDATE_FREQUENCY);
        if expired {
            self.switch_page(AppPages::Placeholder);
            proof {
                assert(self@ =~= spec_tick(old(self)@).0);
            }
            AppReaction::GameOver
        } else {
            AppReaction::Quiet
        }
    }

    /// Applies a mode change, as [`spec_set_mode`] describes: a full
    /// session reset, then the learn look-ahead if practice is showing.
    pub fn set_mode(&mut self, mode: AppMode)
        requires
            old(self).wf(),
        ensures
            final(self).wf(),
            final(self)@ == spec_set_mode(old(self)@, mode),
    {
        self.preferences.mode = mode;
        self.pi_digits.clear();
        self.curr_pi_index = 0;
        self.ticker.cancel();
        if matches!(mode, AppMode::Learn) && matches!(self.current_page, AppPages::Memoriser) {
            self.switch_page(AppPages::Memoriser);
        }
        proof {
            assert(self@ =~= spec_set_mode(old(self)@, mode));
        }
    }

    /// Applies a timeout change. A zero-length countdown means
    /// "disabled" and must arrive as `None`, as it persists.
    pub fn set_timeout(&mut self, timeout_millis: Option<u32>)
        requires
            old(self).wf(),
            timeout_millis matches Some(t) ==> t > 0,
        ensures
            final(self).wf(),
            final(self)@ == spec_set_timeout(old(self)@, timeout_millis),
    {
        self.preferences.timeout_millis = timeout_millis;
        proof {
            assert(self@ =~= spec_set_timeout(old(self)@, timeout_millis));
        }
    }

    /// Applies a row width change: every displayed cell is re-tagged,
    /// digits, states and order untouched.
    pub fn set_digits_per_row(&mut self, digits_per_row: u8)
        requires
            old(self).wf(),
        ensures
            final(self).wf(),
            final(self)@ == spec_set_digits_per_row(old(self)@, digits_per_row),
    {
        self.preferences.digits_per_row = digits_per_row;
        self.pi_digits.set_row_width(digits_per_row);
        proof {
            assert(self@ =~= spec_set_digits_per_row(old(self)@, digits_per_row));
        }
    }

    /// Routes one key event: the undo key removes the last answered
    /// digit, and any typed character is judged as a digit submission
    /// (characters that are no digits are absorbed there).
    pub fn handle_key(&mut self, key: KeyEvent) -> (reaction: AppReaction)
        requires
            old(self).wf(),
            key matches KeyEvent::Character(ch) ==> (old(self)@.current_page
                == AppPages::Memoriser && spec_is_digit_key(ch) ==> {
                &&& old(self)@.curr_pi_index < old(self)@.digits.len()
                &&& old(self)@.preferences.mode == AppMode::Learn ==> old(self)@.curr_pi_index
                    + PRELOADED_DIGITS < old(self)@.digits.len()
            }),
        ensures
            final(self).wf(),
            key is Backspace ==> final(self)@ == spec_remove_last(old(self)@).0 && reaction
                == spec_remove_last(old(self)@).1,
            key matches KeyEvent::Character(ch) ==> final(self)@ == spec_submit(old(self)@, ch).0
                && reaction == spec_submit(old(self)@, ch).1,
    {
        match key {
            KeyEvent::Backspace => self.remove_last_digit(),
            KeyEvent::Character(ch) => self.submit_digit(ch),
        }
    }

    /// Processes one inbound event, as [`spec_update`] describes, and
    /// returns what the shell must do next.
    pub fn update(&mut self, input: AppInput) -> (reaction: AppReaction)
        requires
            old(self).wf(),
            input matches AppInput::AddDigit(ch) ==> (old(self)@.current_page
                == AppPages::Memoriser && spec_is_digit_key(ch) ==> {
                &&& old(self)@.curr_pi_index < old(self)@.digits.len()
                &&& old(self)@.preferences.mode == AppMode::Learn ==> old(self)@.curr_pi_index
                    + PRELOADED_DIGITS < old(self)@.digits.len()
            }),
            input matches AppInput::SetPreference(PreferencesPageOutput::SetTimeout(t)) ==> (
            t matches Some(m) ==> m > 0),
        ensures
            final(self).wf(),
            final(self)@ == spec_update(old(self)@, input).0,
            reaction == spec_update(old(self)@, input).1,
    {
        match input {
            AppInput::AddDigit(ch) => self.submit_digit(ch),
            AppInput::RemoveLastDigit => self.remove_last_digit(),
            AppInput::TickTimeout => self.tick_timeout(),
            AppInput::Open(target) => AppReaction::Open(target),
            AppInput::SetPreference(change) => {
                match change {
                    PreferencesPageOutput::SetMode(mode) => self.set_mode(mode),
                    PreferencesPageOutput::SetTimeout(timeout_millis) => self.set_timeout(
                        timeout_millis,
                    ),
                    PreferencesPageOutput::SetDigitsPerRow(digits_per_row) => self
                        .set_digits_per_row(digits_per_row),
                }
                AppReaction::PreferencesChanged
            },
            AppInput::SwitchPage(page) => {
                self.switch_page(page);
                AppReaction::Quiet
            },
        }
    }

    /// Law: switching to the idle page is idempotent — a second
    /// consecutive switch to it changes nothing.
    pub proof fn lemma_switch_placeholder_idempotent(v: EngineView)
        ensures
            spec_switch_page(spec_switch_page(v, AppPages::Placeholder), AppPages::Placeholder)
                == spec_switch_page(v, AppPages::Placeholder),
    {
        assert(spec_switch_page(spec_switch_page(v, AppPages::Placeholder), AppPages::Placeholder)
            =~= spec_switch_page(v, AppPages::Placeholder));
    }

    /// Law: a countdown expiry is reported exactly once. The expiring
    /// tick resets the session and disarms the countdown, so the next
    /// tick is quiet and changes nothing.
    pub proof fn lemma_game_over_fires_once(v: EngineView)
        requires
            spec_tick(v).1 == AppReaction::GameOver,
        ensures
            spec_tick(spec_tick(v).0).1 == AppReaction::Quiet,
            spec_tick(spec_tick(v).0).0 == spec_tick(v).0,
    {
    }

    /// The preferences as the engine holds them, for the shell to
    /// persist after a change.
    pub fn preferences(&self) -> (prefs: AppPreferences)
        ensures
            prefs == self@.preferences,
    {
        self.preferences
    }

    /// A render-ready copy of the current state; a pure read.
    pub fn snapshot(&self) -> (snap: Snapshot)
        ensures
            snap.current_page == self@.current_page,
            snap.mode == self@.preferences.mode,
            snap.window@ == self@.cells,
            snap.curr_pi_index == self@.curr_pi_index,
            snap.timeout_armed == self@.ticker.armed,
            snap.timeout_total_millis == self@.ticker.total_millis,
            snap.timeout_elapsed_millis == self@.ticker.elapsed_millis,
    {
        Snapshot {
            current_page: self.current_page,
            mode: self.preferences.mode,
            window: self.pi_digits.to_vec(),
            curr_pi_index: self.curr_pi_index,
            timeout_armed: self.ticker.is_armed(),
            timeout_total_millis: self.ticker.total_millis(),
            timeout_elapsed_millis: self.ticker.elapsed_millis(),
        }
    }
}

} // verus!
