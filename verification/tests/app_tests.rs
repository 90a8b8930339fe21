use schliessfach_manager::app::{
    end_after_period, find_available_locker, next_management_tab, next_rental_tab, plan_rental, ActiveWorkflow,
    AppAction, AppScreen, InactivityState, Key, KeyInput, ManagementTab, NavEffect, Navigator, RentalTab,
};
use schliessfach_manager::calendar::Date;
use schliessfach_manager::model::{BillingPeriod, Locker, Rental};
use schliessfach_manager::ui::widgets::wizard::{
    MessageContent, MessageSender, WizardAction, WizardMessage, WizardOption, WizardRenderer,
};

fn key(k: Key) -> KeyInput {
    KeyInput { key: k, shift: false }
}

#[test]
fn tab_lists_and_labels() {
    assert_eq!(RentalTab::all().len(), 5);
    assert_eq!(RentalTab::Return.label(), "Return");
    assert_eq!(ManagementTab::all(), vec![ManagementTab::Lockers, ManagementTab::Locations, ManagementTab::Settings, ManagementTab::AuditLog]);
    assert_eq!(ManagementTab::Lockers.label(), "Schließfächer");
}

#[test]
fn tabs_move_by_delta_and_wrap() {
    assert_eq!(next_rental_tab(RentalTab::Damage, 1), RentalTab::Search);
    assert_eq!(next_rental_tab(RentalTab::Search, -1), RentalTab::Damage);
    assert_eq!(next_rental_tab(RentalTab::List, 7), RentalTab::Return);
    assert_eq!(next_rental_tab(RentalTab::List, -12), RentalTab::Damage);
    assert_eq!(next_management_tab(ManagementTab::Lockers, -1), ManagementTab::AuditLog);
    assert_eq!(next_management_tab(ManagementTab::AuditLog, 2), ManagementTab::Locations);
    assert_eq!(next_rental_tab(next_rental_tab(RentalTab::Extend, 3), -3), RentalTab::Extend);
}

#[test]
fn dashboard_keys_open_correct_tabs() {
    let tabs = [RentalTab::Search, RentalTab::List, RentalTab::Extend, RentalTab::Return, RentalTab::Damage];
    for (c, tab) in ['1', '2', '3', '4', '5'].into_iter().zip(tabs) {
        let mut nav = Navigator::new(60_000, 0);
        let out = nav.handle_key(key(Key::Char(c)), false, 1);
        assert_eq!(nav.core.screen, AppScreen::RentalManagement(tab));
        assert_eq!(out.effect, NavEffect::Switched(AppScreen::RentalManagement(tab)));
        assert_eq!(nav.core.last_rental_tab, tab);
        assert_eq!(nav.core.selected_window_index, 1);
    }
}

#[test]
fn triple_escape_returns_to_dashboard() {
    let mut nav = Navigator::new(60_000, 0);
    nav.switch_screen(AppScreen::RentalManagement(RentalTab::List));
    assert_eq!(nav.handle_key(key(Key::Esc), false, 100).effect, NavEffect::ClearWorkflow);
    assert_eq!(nav.status_bar.escape_count(), 1);
    nav.handle_key(key(Key::Esc), false, 200);
    assert_eq!(nav.status_bar.escape_count(), 2);
    let out = nav.handle_key(key(Key::Esc), false, 300);
    assert_eq!(nav.status_bar.escape_count(), 0);
    assert_eq!(nav.core.screen, AppScreen::Dashboard);
    assert_eq!(out.effect, NavEffect::Switched(AppScreen::Dashboard));
    assert_eq!(nav.status_bar.message.as_ref().unwrap().text, "Zurück zum Dashboard");
}

#[test]
fn escape_counter_resets_on_other_key() {
    let mut nav = Navigator::new(60_000, 0);
    nav.handle_key(key(Key::Esc), false, 10);
    assert_eq!(nav.status_bar.escape_count(), 1);
    nav.handle_key(key(Key::Char('a')), false, 20);
    assert_eq!(nav.status_bar.escape_count(), 0);
}

#[test]
fn quit_keys() {
    let mut nav = Navigator::new(60_000, 0);
    assert_eq!(nav.handle_key(key(Key::Char('Q')), false, 0).action, AppAction::Quit);
    assert_eq!(nav.handle_key(KeyInput { key: Key::Char('q'), shift: true }, false, 0).action, AppAction::Quit);
    assert_eq!(nav.handle_key(key(Key::Char('q')), false, 0).action, AppAction::Continue);
}

#[test]
fn window_switcher_moves_and_opens_windows() {
    let mut nav = Navigator::new(60_000, 0);
    nav.switch_screen(AppScreen::Management(ManagementTab::Locations));
    nav.switch_screen(AppScreen::Finances);
    nav.handle_key(key(Key::Char('^')), false, 0);
    assert!(nav.core.window_switcher_active);
    assert_eq!(nav.core.selected_window_index, 2);
    nav.handle_key(key(Key::Tab), false, 0);
    assert_eq!(nav.core.selected_window_index, 3);
    nav.handle_key(key(Key::Tab), false, 0);
    assert_eq!(nav.core.selected_window_index, 0);
    nav.handle_key(key(Key::BackTab), false, 0);
    let out = nav.handle_key(key(Key::Enter), false, 0);
    assert_eq!(nav.core.screen, AppScreen::Management(ManagementTab::Locations));
    assert_eq!(out.effect, NavEffect::Switched(AppScreen::Management(ManagementTab::Locations)));
    assert!(!nav.core.window_switcher_active);
    nav.handle_key(key(Key::Char('^')), false, 0);
    nav.handle_key(key(Key::Esc), false, 0);
    assert!(!nav.core.window_switcher_active);
    assert_eq!(nav.status_bar.escape_count(), 0);
}

#[test]
fn screen_keys_are_routed() {
    let mut nav = Navigator::new(60_000, 0);
    nav.switch_screen(AppScreen::RentalManagement(RentalTab::Damage));
    assert_eq!(nav.handle_key(key(Key::Tab), true, 0).effect, NavEffect::ForwardToWorkflow(Key::Tab));
    nav.handle_key(key(Key::Tab), false, 0);
    assert_eq!(nav.core.screen, AppScreen::RentalManagement(RentalTab::Search));
    nav.switch_screen(AppScreen::Finances);
    assert_eq!(nav.handle_key(key(Key::Char('E')), false, 0).effect, NavEffect::Export);
    assert_eq!(nav.handle_key(key(Key::Char('i')), false, 0).effect, NavEffect::Import);
    nav.switch_screen(AppScreen::Management(ManagementTab::Settings));
    assert_eq!(nav.handle_key(key(Key::Tab), false, 0).effect, NavEffect::ForwardToSettings(Key::Tab));
    assert_eq!(nav.handle_key(key(Key::Esc), false, 0).effect, NavEffect::ResetSettingsEditor);
    nav.switch_screen(AppScreen::Management(ManagementTab::AuditLog));
    nav.handle_key(key(Key::Tab), false, 0);
    assert_eq!(nav.core.screen, AppScreen::Management(ManagementTab::Lockers));
}

#[test]
fn screensaver_activation_and_exit() {
    let mut nav = Navigator::new(0, 0);
    nav.countdown_ms = 0;
    assert_eq!(nav.check_inactivity(2_000), InactivityState::ScreensaverActive);
    nav.status_bar.set_message_at("Hallo".to_string(), schliessfach_manager::ui::widgets::status_bar::StatusLevel::Info, 1);
    nav.activate_screensaver();
    assert!(nav.screensaver_active);
    assert_eq!(nav.core.screen, AppScreen::Screensaver);
    nav.status_bar.set_message_at("Neu".to_string(), schliessfach_manager::ui::widgets::status_bar::StatusLevel::Info, 2);
    nav.exit_screensaver(3_000);
    assert!(!nav.screensaver_active);
    assert_eq!(nav.core.screen, AppScreen::Dashboard);
    assert_eq!(nav.status_bar.message.as_ref().unwrap().text, "Hallo");
    assert_eq!(nav.last_activity, 3_000);
}

#[test]
fn inactivity_counts_down_in_whole_seconds() {
    let mut nav = Navigator::new(60_000, 1_000);
    assert_eq!(nav.check_inactivity(60_999), InactivityState::Active);
    assert_eq!(nav.check_inactivity(61_000), InactivityState::Countdown(15));
    assert_eq!(nav.check_inactivity(61_001), InactivityState::Countdown(14));
    assert_eq!(nav.check_inactivity(75_999), InactivityState::Countdown(0));
    assert_eq!(nav.check_inactivity(76_000), InactivityState::ScreensaverActive);
    assert!(!nav.on_tick(70_500));
    assert_eq!(nav.status_bar.message.as_ref().unwrap().text, "⏱ Screensaver in 5 Sekunden...");
    assert!(nav.on_tick(80_000));
    nav.update_activity(80_001);
    assert!(!nav.screensaver_active);
}

#[test]
fn keybind_bar_of_the_app() {
    let mut nav = Navigator::new(60_000, 0);
    let bar = nav.build_keybind_bar(false);
    assert_eq!(bar.global_binds.len(), 6);
    assert_eq!(bar.context_binds.iter().map(|k| k.key.as_str()).collect::<Vec<_>>(), vec!["1", "2", "3", "4", "5"]);
    assert_eq!(nav.build_keybind_bar(true).context_binds.len(), 3);
    nav.switch_screen(AppScreen::Management(ManagementTab::Settings));
    assert_eq!(
        nav.build_keybind_bar(false).context_message.as_deref(),
        Some("Pfeiltasten ändern Werte · Enter speichert · Esc verwirft")
    );
    nav.handle_key(key(Key::Char('^')), false, 0);
    let bar = nav.build_keybind_bar(false);
    assert!(bar.context_binds.is_empty());
    assert!(bar.context_message.unwrap().starts_with("--- Wähle Fenster aus ---"));
    assert_eq!(nav.screen_label(), "Verwaltung");
}

#[test]
fn rent_finds_a_free_locker_and_plans_the_period() {
    let today = Date::from_ymd_opt(2025, 3, 1).unwrap();
    let mut damaged = Locker::new(1, "A-01", "Turnhalle", "Klein");
    damaged.is_damaged = true;
    let taken = Locker::new(2, "A-02", "Turnhalle", "Klein");
    let free = Locker::new(3, "A-03", "Turnhalle", "Klein");
    let other = Locker::new(4, "A-04", "Neubau", "Klein");
    let lockers = vec![damaged, taken, free, other];
    let rentals = vec![Rental::new(1, 2, "Max", Date::from_ymd_opt(2025, 1, 1).unwrap(), Date::from_ymd_opt(2025, 12, 31).unwrap())];
    assert_eq!(find_available_locker(&lockers, &rentals, "Turnhalle", "Klein", today), Some(2));
    assert_eq!(find_available_locker(&lockers, &rentals, "Turnhalle", "Groß", today), None);
    let plan = plan_rental(&lockers, &rentals, "Turnhalle", "Klein", today, BillingPeriod::Monthly).unwrap();
    assert_eq!(plan.locker_id, 3);
    assert_eq!(plan.renter_name, "Unbekannt");
    assert_eq!(plan.end_date, Date::from_ymd_opt(2025, 3, 31).unwrap());
    assert_eq!(end_after_period(today, BillingPeriod::Yearly), Date::from_ymd_opt(2026, 3, 1).unwrap());
}

#[test]
fn active_workflow_exposes_its_wizard() {
    let flow = ActiveWorkflow::Extend(WizardRenderer::new());
    assert!(flow.renderer().messages().is_empty());
}

#[test]
fn workflow_keys_move_and_confirm_the_highlight() {
    let mut wizard = WizardRenderer::new();
    let option = |v: &str| WizardOption { label: v.to_string(), value: v.to_string(), metadata: None };
    wizard.set_current_question(WizardMessage {
        sender: MessageSender::System,
        content: MessageContent::Question {
            text: "Welcher Standort?".to_string(),
            options: vec![option("Turnhalle"), option("Neubau"), option("Hauptgebäude")],
        },
        timestamp: None,
    });
    let mut flow = ActiveWorkflow::Rent(wizard);
    assert_eq!(flow.handle_key(Key::BackTab), WizardAction::NoAction);
    assert_eq!(flow.renderer().selected_option_index(), 2);
    assert_eq!(flow.handle_key(Key::Tab), WizardAction::NoAction);
    assert_eq!(flow.renderer().selected_option_index(), 0);
    assert_eq!(flow.handle_key(Key::Char('x')), WizardAction::NoAction);
    assert_eq!(flow.renderer().messages().len(), 1);
    assert_eq!(flow.handle_key(Key::Enter), WizardAction::NextQuestion);
    assert_eq!(flow.renderer().messages().len(), 2);
    assert!(matches!(&flow.renderer().messages()[1].content, MessageContent::Answer { text } if text == "Turnhalle"));
    assert!(matches!(flow, ActiveWorkflow::Rent(_)));
}
