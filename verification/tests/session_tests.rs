use gnopi::prefs::{
    AppPreferences, PreferencesPageInput, PreferencesPageModel, PreferencesPageOutput,
};
use gnopi::session::{AppInput, AppModel, AppPages, AppReaction, HeaderOutput, KeyEvent};
use gnopi::{AppMode, DigitStream, PiDigitModel, PiDigitState};

fn cell(digit: u8, state: PiDigitState, width: u8) -> PiDigitModel {
    PiDigitModel { digit, state, digits_per_row: width }
}

fn engine(mode: AppMode, timeout_millis: Option<u32>) -> AppModel {
    let stream = DigitStream::new(vec![3, 1, 4, 1, 5, 9, 2, 6, 5, 3, 5, 8]).unwrap();
    let prefs = AppPreferences { mode, timeout_millis, digits_per_row: 10 };
    AppModel::new(stream, prefs)
}

#[test]
fn fresh_engine_is_idle_and_empty() {
    let e = engine(AppMode::Blind, None);
    let snap = e.snapshot();
    assert_eq!(snap.current_page, AppPages::Placeholder);
    assert_eq!(snap.curr_pi_index, 0);
    assert_eq!(snap.window, Vec::new());
    assert!(!snap.timeout_armed);
}

#[test]
fn blind_records_right_and_wrong_and_continues() {
    let mut e = engine(AppMode::Blind, None);
    e.switch_page(AppPages::Memoriser);

    assert_eq!(e.submit_digit('3'), AppReaction::Quiet);
    let snap = e.snapshot();
    assert_eq!(snap.window, vec![cell(3, PiDigitState::Right, 10)]);
    assert_eq!(snap.curr_pi_index, 1);

    assert_eq!(e.submit_digit('5'), AppReaction::Quiet);
    let snap = e.snapshot();
    assert_eq!(
        snap.window,
        vec![cell(3, PiDigitState::Right, 10), cell(5, PiDigitState::Wrong, 10)]
    );
    assert_eq!(snap.curr_pi_index, 2);
    assert_eq!(snap.current_page, AppPages::Memoriser);
}

#[test]
fn instant_death_resets_on_first_wrong_digit() {
    let mut e = engine(AppMode::InstantDeath, None);
    e.switch_page(AppPages::Memoriser);

    assert_eq!(e.submit_digit('1'), AppReaction::GameOver);
    let snap = e.snapshot();
    assert_eq!(snap.current_page, AppPages::Placeholder);
    assert_eq!(snap.window, Vec::new());
    assert_eq!(snap.curr_pi_index, 0);
}

#[test]
fn instant_death_keeps_going_on_right_digits() {
    let mut e = engine(AppMode::InstantDeath, None);
    e.switch_page(AppPages::Memoriser);
    assert_eq!(e.submit_digit('3'), AppReaction::Quiet);
    assert_eq!(e.submit_digit('1'), AppReaction::Quiet);
    let snap = e.snapshot();
    assert_eq!(snap.curr_pi_index, 2);
    assert_eq!(snap.window.len(), 2);
    assert_eq!(snap.current_page, AppPages::Memoriser);
}

#[test]
fn learn_preloads_five_placeholders_on_entry() {
    let mut e = engine(AppMode::Learn, None);
    e.switch_page(AppPages::Memoriser);
    let snap = e.snapshot();
    assert_eq!(
        snap.window,
        vec![
            cell(3, PiDigitState::Placeholder, 10),
            cell(1, PiDigitState::Placeholder, 10),
            cell(4, PiDigitState::Placeholder, 10),
            cell(1, PiDigitState::Placeholder, 10),
            cell(5, PiDigitState::Placeholder, 10),
        ]
    );
    assert_eq!(snap.curr_pi_index, 0);
}

#[test]
fn learn_judges_in_place_and_extends_the_lookahead() {
    let mut e = engine(AppMode::Learn, None);
    e.switch_page(AppPages::Memoriser);

    assert_eq!(e.submit_digit('3'), AppReaction::Quiet);
    let snap = e.snapshot();
    assert_eq!(snap.window.len(), 6);
    assert_eq!(snap.window[0], cell(3, PiDigitState::Right, 10));
    assert_eq!(snap.window[5], cell(9, PiDigitState::Placeholder, 10));
    assert_eq!(snap.curr_pi_index, 1);
}

#[test]
fn learn_records_a_wrong_digit_in_place() {
    let mut e = engine(AppMode::Learn, None);
    e.switch_page(AppPages::Memoriser);
    assert_eq!(e.submit_digit('7'), AppReaction::Quiet);
    let snap = e.snapshot();
    assert_eq!(snap.window[0], cell(7, PiDigitState::Wrong, 10));
    assert_eq!(snap.curr_pi_index, 1);
    assert_eq!(snap.current_page, AppPages::Memoriser);
}

#[test]
fn remove_last_on_empty_blind_buffer_reports_nothing_to_remove() {
    let mut e = engine(AppMode::Blind, None);
    e.switch_page(AppPages::Memoriser);
    let before = e.snapshot();
    assert_eq!(e.remove_last_digit(), AppReaction::NothingToRemove);
    assert_eq!(e.snapshot(), before);
}

#[test]
fn remove_last_in_blind_pops_and_steps_back() {
    let mut e = engine(AppMode::Blind, None);
    e.switch_page(AppPages::Memoriser);
    e.submit_digit('3');
    e.submit_digit('5');
    assert_eq!(e.remove_last_digit(), AppReaction::Quiet);
    let snap = e.snapshot();
    assert_eq!(snap.window, vec![cell(3, PiDigitState::Right, 10)]);
    assert_eq!(snap.curr_pi_index, 1);
}

#[test]
fn remove_last_in_learn_restores_the_placeholder() {
    let mut e = engine(AppMode::Learn, None);
    e.switch_page(AppPages::Memoriser);
    e.submit_digit('7');
    assert_eq!(e.remove_last_digit(), AppReaction::Quiet);
    let snap = e.snapshot();
    assert_eq!(snap.curr_pi_index, 0);
    assert_eq!(snap.window[0], cell(3, PiDigitState::Placeholder, 10));
    assert_eq!(snap.window.len(), 6);
}

#[test]
fn remove_last_in_learn_stops_at_index_zero() {
    let mut e = engine(AppMode::Learn, None);
    e.switch_page(AppPages::Memoriser);
    let before = e.snapshot();
    assert_eq!(e.remove_last_digit(), AppReaction::Quiet);
    let snap = e.snapshot();
    assert_eq!(snap.curr_pi_index, 0);
    assert_eq!(snap.window, before.window);
}

#[test]
fn remove_last_in_instant_death_is_a_no_op() {
    let mut e = engine(AppMode::InstantDeath, None);
    e.switch_page(AppPages::Memoriser);
    e.submit_digit('3');
    let before = e.snapshot();
    assert_eq!(e.remove_last_digit(), AppReaction::Quiet);
    assert_eq!(e.snapshot(), before);
}

#[test]
fn remove_last_outside_practice_is_ignored() {
    let mut e = engine(AppMode::Blind, None);
    let before = e.snapshot();
    assert_eq!(e.remove_last_digit(), AppReaction::Quiet);
    assert_eq!(e.snapshot(), before);
}

#[test]
fn non_digit_keys_and_idle_page_input_are_ignored() {
    let mut e = engine(AppMode::Blind, None);
    let before = e.snapshot();
    assert_eq!(e.submit_digit('3'), AppReaction::Quiet);
    assert_eq!(e.snapshot(), before);

    e.switch_page(AppPages::Memoriser);
    let before = e.snapshot();
    assert_eq!(e.submit_digit('a'), AppReaction::Quiet);
    assert_eq!(e.submit_digit(' '), AppReaction::Quiet);
    assert_eq!(e.snapshot(), before);
}

#[test]
fn switching_to_the_idle_page_twice_changes_nothing_more() {
    let mut e = engine(AppMode::Blind, Some(2000));
    e.switch_page(AppPages::Memoriser);
    e.submit_digit('3');
    e.switch_page(AppPages::Placeholder);
    let once = e.snapshot();
    e.switch_page(AppPages::Placeholder);
    assert_eq!(e.snapshot(), once);
}

#[test]
fn countdown_expires_after_forty_ticks_and_exactly_once() {
    let mut e = engine(AppMode::Blind, Some(2000));
    e.switch_page(AppPages::Memoriser);
    e.submit_digit('3');
    assert!(e.snapshot().timeout_armed);

    for tick in 1..40 {
        assert_eq!(e.tick_timeout(), AppReaction::Quiet, "tick {tick}");
        let snap = e.snapshot();
        assert_eq!(snap.timeout_elapsed_millis, 50 * tick);
        assert_eq!(snap.timeout_total_millis, 2000);
    }
    assert_eq!(e.tick_timeout(), AppReaction::GameOver);
    let snap = e.snapshot();
    assert_eq!(snap.current_page, AppPages::Placeholder);
    assert_eq!(snap.window, Vec::new());
    assert!(!snap.timeout_armed);
    assert_eq!(snap.timeout_elapsed_millis, 0);

    assert_eq!(e.tick_timeout(), AppReaction::Quiet);
    assert_eq!(e.snapshot().current_page, AppPages::Placeholder);
}

#[test]
fn a_right_answer_rearms_the_countdown() {
    let mut e = engine(AppMode::Blind, Some(2000));
    e.switch_page(AppPages::Memoriser);
    e.submit_digit('3');
    for _ in 0..10 {
        e.tick_timeout();
    }
    assert_eq!(e.snapshot().timeout_elapsed_millis, 500);
    e.submit_digit('1');
    let snap = e.snapshot();
    assert!(snap.timeout_armed);
    assert_eq!(snap.timeout_elapsed_millis, 0);
}

#[test]
fn a_wrong_answer_leaves_the_countdown_running() {
    let mut e = engine(AppMode::Blind, Some(2000));
    e.switch_page(AppPages::Memoriser);
    e.submit_digit('3');
    for _ in 0..10 {
        e.tick_timeout();
    }
    e.submit_digit('9');
    let snap = e.snapshot();
    assert!(snap.timeout_armed);
    assert_eq!(snap.timeout_elapsed_millis, 500);
}

#[test]
fn ticks_are_inert_without_a_configured_timeout() {
    let mut e = engine(AppMode::Blind, None);
    e.switch_page(AppPages::Memoriser);
    e.submit_digit('3');
    let before = e.snapshot();
    assert!(!before.timeout_armed);
    assert_eq!(e.tick_timeout(), AppReaction::Quiet);
    assert_eq!(e.snapshot(), before);
}

#[test]
fn set_mode_resets_and_preloads_when_practising() {
    let mut e = engine(AppMode::Blind, None);
    e.switch_page(AppPages::Memoriser);
    e.submit_digit('3');
    e.set_mode(AppMode::Learn);
    let snap = e.snapshot();
    assert_eq!(snap.mode, AppMode::Learn);
    assert_eq!(snap.curr_pi_index, 0);
    assert_eq!(snap.window.len(), 5);
    assert_eq!(snap.window[0], cell(3, PiDigitState::Placeholder, 10));
    assert_eq!(snap.current_page, AppPages::Memoriser);
}

#[test]
fn set_mode_on_the_idle_page_only_resets() {
    let mut e = engine(AppMode::Blind, None);
    e.set_mode(AppMode::Learn);
    let snap = e.snapshot();
    assert_eq!(snap.mode, AppMode::Learn);
    assert_eq!(snap.window, Vec::new());
    assert_eq!(snap.current_page, AppPages::Placeholder);
}

#[test]
fn set_digits_per_row_retags_cells_without_touching_content() {
    let mut e = engine(AppMode::Blind, None);
    e.switch_page(AppPages::Memoriser);
    e.submit_digit('3');
    e.submit_digit('5');
    let reaction = e.update(AppInput::SetPreference(PreferencesPageOutput::SetDigitsPerRow(7)));
    assert_eq!(reaction, AppReaction::PreferencesChanged);
    let snap = e.snapshot();
    assert_eq!(
        snap.window,
        vec![cell(3, PiDigitState::Right, 7), cell(5, PiDigitState::Wrong, 7)]
    );
    assert_eq!(snap.curr_pi_index, 2);
    assert_eq!(e.preferences().digits_per_row, 7);
}

#[test]
fn update_routes_every_event() {
    let mut e = engine(AppMode::Blind, None);
    assert_eq!(
        e.update(AppInput::Open(HeaderOutput::About)),
        AppReaction::Open(HeaderOutput::About)
    );
    assert_eq!(
        e.update(AppInput::Open(HeaderOutput::Preferences)),
        AppReaction::Open(HeaderOutput::Preferences)
    );
    assert_eq!(e.update(AppInput::SwitchPage(AppPages::Memoriser)), AppReaction::Quiet);
    assert_eq!(e.update(AppInput::AddDigit('3')), AppReaction::Quiet);
    assert_eq!(e.update(AppInput::RemoveLastDigit), AppReaction::Quiet);
    assert_eq!(e.update(AppInput::TickTimeout), AppReaction::Quiet);
    assert_eq!(
        e.update(AppInput::SetPreference(PreferencesPageOutput::SetTimeout(Some(3000)))),
        AppReaction::PreferencesChanged
    );
    assert_eq!(e.preferences().timeout_millis, Some(3000));
}

#[test]
fn handle_key_routes_backspace_and_characters() {
    let mut e = engine(AppMode::Blind, None);
    e.switch_page(AppPages::Memoriser);
    assert_eq!(e.handle_key(KeyEvent::Character('3')), AppReaction::Quiet);
    assert_eq!(e.snapshot().curr_pi_index, 1);
    assert_eq!(e.handle_key(KeyEvent::Backspace), AppReaction::Quiet);
    assert_eq!(e.snapshot().curr_pi_index, 0);
    assert_eq!(e.handle_key(KeyEvent::Backspace), AppReaction::NothingToRemove);
    assert_eq!(e.handle_key(KeyEvent::Character('x')), AppReaction::Quiet);
    assert_eq!(e.snapshot().curr_pi_index, 0);
}

#[test]
fn default_preferences_are_learn_no_timeout_ten_wide() {
    let prefs = AppPreferences::default();
    assert_eq!(prefs.mode, AppMode::Learn);
    assert_eq!(prefs.timeout_millis, None);
    assert_eq!(prefs.digits_per_row, 10);
}

#[test]
fn preferences_dialog_shows_hides_and_announces_changes() {
    let mut page = PreferencesPageModel::new(AppPreferences::default());
    assert!(page.hidden);
    assert_eq!(page.update(PreferencesPageInput::Show), None);
    assert!(!page.hidden);
    assert_eq!(page.update(PreferencesPageInput::Hide), None);
    assert!(page.hidden);

    assert_eq!(
        page.update(PreferencesPageInput::SelectMode(AppMode::Blind)),
        Some(PreferencesPageOutput::SetMode(AppMode::Blind))
    );
    assert_eq!(page.mode, AppMode::Blind);

    assert_eq!(
        page.update(PreferencesPageInput::SelectTimeout(2000)),
        Some(PreferencesPageOutput::SetTimeout(Some(2000)))
    );
    assert_eq!(page.timeout_millis, Some(2000));

    assert_eq!(
        page.update(PreferencesPageInput::SelectTimeout(0)),
        Some(PreferencesPageOutput::SetTimeout(None))
    );
    assert_eq!(page.timeout_millis, None);

    assert_eq!(
        page.update(PreferencesPageInput::SetDigitsPerRow(15)),
        Some(PreferencesPageOutput::SetDigitsPerRow(15))
    );
    assert_eq!(page.digits_per_row, 15);
}
