use schliessfach_manager::app::{ManagementTab, RentalTab};
use schliessfach_manager::models::{DebtorInfo, TenantType};
use schliessfach_manager::screensaver::SpinningClock;
use schliessfach_manager::ui::screens::finance::{
    amount_column, debt_breakdown, debt_line, debtors_total_line, income_line, FinanceState, TimePeriod,
};
use schliessfach_manager::ui::screens::finances::FinancesScreen;
use schliessfach_manager::ui::screens::management::ManagementScreen;
use schliessfach_manager::ui::screens::rental::{rental_detail_label, row_status, row_status_label, RentalState, RowStatus};
use schliessfach_manager::ui::screens::rental_management::RentalManagementScreen;
use schliessfach_manager::ui::screens::screensaver::{centered_area, create_screensaver_screen, Area};
use schliessfach_manager::ui::state::{search_prefix_width, FinanceTab, InputMode, RentalManagementTab, UiState};
use schliessfach_manager::ui::theme::{LockerStatus, Theme};
use schliessfach_manager::ui::widgets::chat_dialog::{step_lines, ChatDialog, ChatStep, InputType, Tone};
use schliessfach_manager::ui::widgets::header::{Header, WindowSwitcherState};
use schliessfach_manager::ui::widgets::keybind_bar::{Keybind, KeybindBar, KeybindScope};
use schliessfach_manager::ui::widgets::status_bar::{StatusBar, StatusLevel};
use schliessfach_manager::ui::widgets::wizard::{
    MessageContent, MessageSender, WizardAction, WizardMessage, WizardOption, WizardRenderer,
};

#[test]
fn test_finances_screen_creation() {
    let _screen = FinancesScreen::new();
}

#[test]
fn management_test_tab_navigation() {
    let mut screen = ManagementScreen::new(ManagementTab::Lockers);
    assert_eq!(screen.current_tab(), ManagementTab::Lockers);

    screen.next_tab();
    assert_eq!(screen.current_tab(), ManagementTab::Locations);

    screen.next_tab();
    assert_eq!(screen.current_tab(), ManagementTab::Settings);

    screen.next_tab();
    assert_eq!(screen.current_tab(), ManagementTab::AuditLog);

    screen.next_tab();
    assert_eq!(screen.current_tab(), ManagementTab::Lockers);

    screen.previous_tab();
    assert_eq!(screen.current_tab(), ManagementTab::AuditLog);
}

#[test]
fn management_test_set_tab() {
    let mut screen = ManagementScreen::new(ManagementTab::Lockers);
    screen.set_tab(ManagementTab::AuditLog);
    assert_eq!(screen.current_tab(), ManagementTab::AuditLog);
}

#[test]
fn rental_management_test_tab_navigation() {
    let mut screen = RentalManagementScreen::new(RentalTab::Search);
    assert_eq!(screen.current_tab(), RentalTab::Search);

    screen.next_tab();
    assert_eq!(screen.current_tab(), RentalTab::List);

    screen.next_tab();
    assert_eq!(screen.current_tab(), RentalTab::Extend);

    screen.next_tab();
    assert_eq!(screen.current_tab(), RentalTab::Return);

    screen.next_tab();
    assert_eq!(screen.current_tab(), RentalTab::Damage);

    screen.next_tab();
    assert_eq!(screen.current_tab(), RentalTab::Search);

    screen.previous_tab();
    assert_eq!(screen.current_tab(), RentalTab::Damage);
}

#[test]
fn rental_management_test_set_tab() {
    let mut screen = RentalManagementScreen::new(RentalTab::Search);
    screen.set_tab(RentalTab::Return);
    assert_eq!(screen.current_tab(), RentalTab::Return);
}

#[test]
fn screens_report_the_selected_tab_index() {
    assert_eq!(ManagementScreen::new(ManagementTab::Settings).selected_index(), 2);
    assert_eq!(RentalManagementScreen::new(RentalTab::Damage).selected_index(), 4);
}

#[test]
fn test_create_screensaver_screen() {
    let screen = create_screensaver_screen();
    assert!(!screen.player().current_frame().is_empty());
}

#[test]
fn animation_is_centred_and_cut_to_the_area() {
    let area = Area { x: 0, y: 0, width: 80, height: 24 };
    assert_eq!(centered_area(area, 2, 1), Area { x: 39, y: 11, width: 2, height: 1 });
    let small = Area { x: 3, y: 2, width: 10, height: 5 };
    assert_eq!(centered_area(small, 25, 7), Area { x: 3, y: 2, width: 10, height: 5 });
    let _ = SpinningClock;
}

#[test]
fn test_header_default() {
    let header = Header::default();
    assert_eq!(header.version, "2.1.0");
    assert_eq!(header.current_screen, "Dashboard");
    assert!(!header.window_switcher_active);
    assert_eq!(header.window_list.len(), 4);
}

#[test]
fn test_header_builder() {
    let header = Header::new("2.1.0")
        .current_screen("Finanzen")
        .window_switcher_active(true)
        .selected_window_index(2);

    assert_eq!(header.version, "2.1.0");
    assert_eq!(header.current_screen, "Finanzen");
    assert!(header.window_switcher_active);
    assert_eq!(header.selected_window_index, 2);
}

#[test]
fn test_window_navigation() {
    let header = Header::default().selected_window_index(0);
    assert_eq!(header.current_window(), "Dashboard");
    assert_eq!(header.next_window(), "Verleih-Management");
    assert_eq!(header.prev_window(), "Verwaltung");
}

#[test]
fn header_windows_clamp_and_handle_empty_lists() {
    let header = Header::default().selected_window_index(9);
    assert_eq!(header.current_window(), "Verwaltung");
    let empty = Header::default().window_list(Vec::new());
    assert_eq!(empty.current_window(), "");
    assert_eq!(empty.next_window(), "");
    assert_eq!(empty.prev_window(), "");
    assert_eq!(Header::new("1.0").app_name("Spinde").app_name, "Spinde");
}

#[test]
fn test_window_switcher_state() {
    let mut state = WindowSwitcherState::new();
    assert!(!state.active);
    assert_eq!(state.selected_index, 0);

    state.activate(1);
    assert!(state.active);
    assert_eq!(state.selected_index, 1);

    state.select_next();
    assert_eq!(state.selected_index, 2);

    state.select_prev();
    assert_eq!(state.selected_index, 1);

    state.selected_index = 0;
    state.select_prev();
    assert_eq!(state.selected_index, 3);

    state.select_next();
    assert_eq!(state.selected_index, 0);
}

#[test]
fn window_switcher_clamps_and_names_the_selection() {
    let mut state = WindowSwitcherState::new();
    state.activate(17);
    assert_eq!(state.selected_index, 3);
    assert_eq!(state.selected_window(), Some("Verwaltung"));
    state.deactivate();
    assert!(!state.active);
    state.selected_index = 4;
    assert_eq!(state.selected_window(), None);
}

#[test]
fn test_escape_count_increment() {
    let mut status_bar = StatusBar::new();

    assert_eq!(status_bar.escape_count(), 0);

    status_bar.increment_escape_count();
    assert_eq!(status_bar.escape_count(), 1);

    status_bar.increment_escape_count();
    assert_eq!(status_bar.escape_count(), 2);

    status_bar.increment_escape_count();
    assert_eq!(status_bar.escape_count(), 3);

    status_bar.increment_escape_count();
    assert_eq!(status_bar.escape_count(), 3);
}

#[test]
fn test_should_return_to_dashboard() {
    let mut status_bar = StatusBar::new();

    assert!(!status_bar.should_return_to_dashboard());

    status_bar.increment_escape_count();
    assert!(!status_bar.should_return_to_dashboard());

    status_bar.increment_escape_count();
    assert!(!status_bar.should_return_to_dashboard());

    status_bar.increment_escape_count();
    assert!(status_bar.should_return_to_dashboard());
}

#[test]
fn test_escape_count_reset() {
    let mut status_bar = StatusBar::new();

    status_bar.increment_escape_count();
    status_bar.increment_escape_count();
    assert_eq!(status_bar.escape_count(), 2);

    status_bar.reset_escape_count();
    assert_eq!(status_bar.escape_count(), 0);
}

#[test]
fn escape_count_restarts_after_more_than_a_second() {
    let mut status_bar = StatusBar::new();
    status_bar.increment_escape_count_at(10_000);
    assert_eq!(status_bar.escape_count(), 1);
    status_bar.increment_escape_count_at(11_101);
    assert_eq!(status_bar.escape_count(), 1);
    status_bar.increment_escape_count_at(12_101);
    assert_eq!(status_bar.escape_count(), 2);
}

#[test]
fn escape_timeout_check_forgets_old_presses() {
    let mut status_bar = StatusBar::new();
    status_bar.increment_escape_count_at(5_000);
    status_bar.increment_escape_count_at(5_500);
    status_bar.check_escape_timeout_at(6_500);
    assert_eq!(status_bar.escape_count(), 2);
    status_bar.check_escape_timeout_at(6_501);
    assert_eq!(status_bar.escape_count(), 0);
    assert!(!status_bar.escape_pipe_active(0));
}

#[test]
fn status_message_is_stamped() {
    let mut status_bar = StatusBar::new();
    status_bar.set_message_at("Gespeichert".to_string(), StatusLevel::Success, 42);
    let m = status_bar.message.as_ref().unwrap();
    assert_eq!(m.text, "Gespeichert");
    assert_eq!(m.level, StatusLevel::Success);
    assert_eq!(m.timestamp, 42);
}

#[test]
fn ui_state_tracks_activity_and_modes() {
    let mut state = UiState::new_at(1_000);
    assert_eq!(state.time_since_activity_at(1_250), 250);
    assert_eq!(state.time_since_activity_at(900), 0);
    state.activate_window_switcher();
    assert!(state.window_switcher_active);
    state.deactivate_window_switcher();
    assert!(!state.window_switcher_active);
    state.activate_screensaver();
    assert!(state.screensaver_active);
    state.deactivate_screensaver_at(2_000);
    assert!(!state.screensaver_active);
    assert_eq!(state.last_activity, 2_000);
}

#[test]
fn tabs_of_finance_and_rental_screens() {
    let mut f = FinanceState::new();
    assert_eq!(f.selected_tab, FinanceTab::Overview);
    f.next_tab();
    assert_eq!(f.selected_tab, FinanceTab::Debtors);
    f.next_tab();
    assert_eq!(f.selected_tab, FinanceTab::Overview);
    f.prev_tab();
    assert_eq!(f.selected_tab, FinanceTab::Debtors);
    assert_eq!(TimePeriod::SixMonths.label(), "6 Monate");

    let mut r = RentalState::new();
    assert_eq!(r.selected_tab, RentalManagementTab::Search);
    r.prev_tab();
    assert_eq!(r.selected_tab, RentalManagementTab::Damage);
    r.next_tab();
    assert_eq!(r.selected_tab, RentalManagementTab::Search);
}

#[test]
fn locker_status_priority() {
    assert_eq!(Theme::locker_status(true, true, true), LockerStatus::Damaged);
    assert_eq!(Theme::locker_status(true, false, true), LockerStatus::Overdue);
    assert_eq!(Theme::locker_status(true, false, false), LockerStatus::Occupied);
    assert_eq!(Theme::locker_status(false, false, false), LockerStatus::Free);
}

#[test]
fn list_rows_show_the_rental_status() {
    assert_eq!(row_status(Some(-3), false), RowStatus::Overdue);
    assert_eq!(row_status_label(Some(-3), false), "Überfällig (3T)");
    assert_eq!(row_status_label(Some(12), false), "Läuft aus (12T)");
    assert_eq!(row_status_label(Some(30), true), "Belegt");
    assert_eq!(row_status_label(None, true), "Defekt");
    assert_eq!(row_status_label(None, false), "Frei");
    assert_eq!(rental_detail_label(-7), "Überfällig seit 7 Tagen");
    assert_eq!(rental_detail_label(0), "Läuft aus in 0 Tagen");
    assert_eq!(rental_detail_label(100), "Noch 100 Tage");
}

#[test]
fn overview_lines_and_debt_breakdown() {
    assert_eq!(amount_column(12345), "    123.45 €");
    assert_eq!(income_line(1000, 1), "     10.00 € (1 × 10€)");
    assert_eq!(debt_line(-50, 2), "     -0.50 € (2 Verleih)");
    assert_eq!(debtors_total_line(3, 4000), "Gesamt: 3 Schuldner, 40.00 € ausstehend");
    let d = |name: &str, t: TenantType, cents: i32| DebtorInfo {
        username: name.to_string(),
        email: format!("{}@athenetz.de", name),
        total_debt_cents: cents,
        tenant_type: t,
        days_overdue: 10,
    };
    let b = debt_breakdown(&vec![d("a", TenantType::Schueler, 1000), d("b", TenantType::Lehrer, 3000), d("c", TenantType::Schueler, 2000)]);
    assert_eq!((b.student_cents, b.student_count, b.teacher_cents, b.teacher_count, b.total_cents), (3000, 2, 3000, 1, 6000));
}

#[test]
fn keybind_bar_defaults_and_context() {
    let mut bar = KeybindBar::new();
    assert_eq!(bar.global_binds.len(), 5);
    assert_eq!(bar.global_binds[0].key, "Tab");
    assert_eq!(bar.global_binds[4].description, "Zurück (3x=Dashboard)");
    bar.set_context_message("Bitte warten".to_string());
    assert_eq!(bar.context_message.as_deref(), Some("Bitte warten"));
    bar.set_context_binds(vec![Keybind { key: "E".into(), description: "Export".into(), scope: KeybindScope::Context }]);
    assert!(bar.context_message.is_none());
    assert_eq!(bar.context_binds.len(), 1);
    bar.set_context_message("x".to_string());
    bar.clear_context_message();
    assert!(bar.context_message.is_none());
    let pieces = KeybindBar::format_keybinds(&bar.global_binds);
    let texts: Vec<&str> = pieces.iter().take(5).map(|p| p.0.as_str()).collect();
    assert_eq!(texts, vec!["[Tab]", " ", "Nächster", "  ", "[Shift+Tab]"]);
    assert_eq!(pieces.len(), 5 * 3 + 4);
}

fn question(prompt: &str, input_type: InputType) -> ChatStep {
    ChatStep::Question { prompt: prompt.to_string(), subtitle: None, input_type }
}

#[test]
fn chat_dialog_answers_and_goes_back() {
    let mut dialog = ChatDialog::new("Neuer Verleih")
        .add_step(question("Name?", InputType::Text))
        .add_step(question("Ort?", InputType::Choice(vec!["Turnhalle".into(), "Neubau".into()])))
        .add_step(question("Pfand bezahlt?", InputType::YesNo))
        .add_step(ChatStep::Confirmation { prompt: "Alles richtig?".into(), details: vec![] });
    dialog.push_char('M');
    dialog.push_char('a');
    dialog.push_char('x');
    dialog.pop_char();
    assert_eq!(dialog.input, "Ma");
    assert_eq!(dialog.confirm_step(), Some("Ma".to_string()));
    assert_eq!(dialog.input, "");
    dialog.next_option();
    dialog.next_option();
    assert_eq!(dialog.selected_option, 1);
    assert_eq!(dialog.confirm_step(), Some("Neubau".to_string()));
    dialog.next_option();
    assert_eq!(dialog.confirm_step(), Some("Nein".to_string()));
    dialog.go_back();
    assert_eq!(dialog.current_step, 2);
    assert_eq!(dialog.history.len(), 2);
    dialog.prev_option();
    assert_eq!(dialog.confirm_step(), Some("Ja".to_string()));
    assert!(!dialog.is_complete);
    assert_eq!(dialog.confirm_step(), Some("confirmed".to_string()));
    assert!(dialog.is_complete);
    assert_eq!(dialog.history[3].response, "✓");
    assert_eq!(dialog.confirm_step(), None);
    assert!(dialog.current_step().is_none());
}

#[test]
fn chat_dialog_notes_get_no_answer() {
    let mut dialog = ChatDialog::new("Info").add_step(ChatStep::Info { message: "Hinweis".into() });
    assert_eq!(dialog.confirm_step(), None);
    assert!(dialog.history.is_empty());
    assert!(dialog.is_complete);
}

#[test]
fn chat_dialog_cursor_counts_bytes() {
    let mut dialog = ChatDialog::new("t").add_step(question("Name?", InputType::Text));
    dialog.push_char('ä');
    assert_eq!(dialog.input, "ä");
    assert_eq!(dialog.cursor_position, 1);
    dialog.cursor_position = 2;
    dialog.push_char('b');
    assert_eq!(dialog.input, "äb");
    dialog.clear_input();
    assert_eq!(dialog.input, "");
    assert_eq!(dialog.cursor_position, 0);
}

fn wizard_question(values: &[&str]) -> WizardMessage {
    WizardMessage {
        sender: MessageSender::System,
        content: MessageContent::Question {
            text: "Welcher Ort?".into(),
            options: values
                .iter()
                .map(|v| WizardOption { label: v.to_string(), value: v.to_lowercase(), metadata: None })
                .collect(),
        },
        timestamp: None,
    }
}

#[test]
fn wizard_selects_and_confirms_options() {
    let mut w = WizardRenderer::new();
    assert_eq!(w.confirm_selection(), WizardAction::NoAction);
    w.set_current_question(wizard_question(&["Turnhalle", "Neubau"]));
    assert_eq!(w.selected_option_value(), Some("turnhalle".to_string()));
    w.select_previous_option();
    assert_eq!(w.selected_option_index(), 1);
    w.select_next_option();
    assert_eq!(w.selected_option_index(), 0);
    w.select_next_option();
    assert_eq!(w.confirm_selection(), WizardAction::NextQuestion);
    assert_eq!(w.messages().len(), 2);
    match &w.messages()[1].content {
        MessageContent::Answer { text } => assert_eq!(text, "neubau"),
        _ => panic!("the last message is the answer"),
    }
    assert_eq!(WizardRenderer::history_line(&w.messages()[1]), "→ neubau");
    let opt = WizardOption { label: "A-001".into(), value: "1".into(), metadata: Some("frei".into()) };
    assert_eq!(WizardRenderer::option_line(&opt, true), "  > A-001 (frei)");
    assert_eq!(WizardRenderer::option_line(&opt, false), "    A-001 (frei)");
}

#[test]
fn search_prefix_width_counts_terminal_columns() {
    // " NORMAL " / " SEARCH ", a space and the prompt; every character takes one column.
    assert_eq!(search_prefix_width(InputMode::Normal), 69);
    assert_eq!(search_prefix_width(InputMode::Searching), 69);
}

fn texts(lines: &[Vec<(String, Tone)>]) -> Vec<Vec<(&str, Tone)>> {
    lines.iter().map(|l| l.iter().map(|(t, tone)| (t.as_str(), *tone)).collect()).collect()
}

#[test]
fn chat_steps_are_shown_as_toned_lines() {
    let mut dialog = ChatDialog::new("Neuer Verleih")
        .add_step(ChatStep::Question {
            prompt: "Ort?".into(),
            subtitle: Some("Gebäude wählen".into()),
            input_type: InputType::Choice(vec!["Turnhalle".into(), "Neubau".into()]),
        })
        .add_step(ChatStep::Confirmation {
            prompt: "Alles richtig?".into(),
            details: vec![("Ort".into(), "Neubau".into())],
        });
    dialog.next_option();
    let lines = dialog.current_lines();
    assert_eq!(
        texts(&lines),
        vec![
            vec![("> ", Tone::Marker), ("Ort?", Tone::Normal)],
            vec![("  Gebäude wählen", Tone::Dim)],
            vec![],
            vec![
                ("  ", Tone::Plain),
                ("[Turnhalle]", Tone::Button),
                (" ", Tone::Plain),
                ("[Neubau]", Tone::ButtonSelected),
                (" ", Tone::Plain),
            ],
        ]
    );
    assert_eq!(dialog.confirm_step(), Some("Neubau".to_string()));
    assert_eq!(
        texts(&dialog.history_lines()),
        vec![vec![("✓ ", Tone::Success), ("Ort?", Tone::Dim)], vec![("  ", Tone::Plain), ("Neubau", Tone::Normal)], vec![]]
    );
    assert_eq!(
        texts(&dialog.current_lines()),
        vec![
            vec![("> ", Tone::Marker), ("Alles richtig?", Tone::Normal)],
            vec![],
            vec![("  • ", Tone::Plain), ("Ort: ", Tone::Dim), ("Neubau", Tone::Normal)],
        ]
    );
    dialog.confirm_step();
    assert_eq!(
        texts(&dialog.current_lines()),
        vec![vec![("✓ ", Tone::Success), ("Vorgang abgeschlossen", Tone::Success)]]
    );
}

#[test]
fn chat_input_lines_frame_the_typed_text() {
    let mut dialog = ChatDialog::new("Betrag");
    dialog.push_char('5');
    let money = ChatStep::Question { prompt: "Betrag?".into(), subtitle: None, input_type: InputType::Money };
    assert_eq!(
        texts(&step_lines(&money, &dialog))[2],
        vec![("  [", Tone::Plain), ("5", Tone::Input), ("] €", Tone::Plain)]
    );
    let suffix = ChatStep::Question {
        prompt: "Höhe?".into(),
        subtitle: None,
        input_type: InputType::TextWithSuffix(" cm".into()),
    };
    assert_eq!(
        texts(&step_lines(&suffix, &dialog))[2],
        vec![("  [", Tone::Plain), ("5", Tone::Input), ("]", Tone::Plain), (" cm", Tone::Dim)]
    );
    let yes_no = ChatStep::Question { prompt: "Defekt?".into(), subtitle: None, input_type: InputType::YesNo };
    assert_eq!(
        texts(&step_lines(&yes_no, &dialog))[2],
        vec![("  ", Tone::Plain), ("[Ja]", Tone::ButtonSelected), (" ", Tone::Plain), ("[Nein]", Tone::Button)]
    );
    let info = ChatStep::Info { message: "Bitte warten".into() };
    assert_eq!(texts(&step_lines(&info, &dialog)), vec![vec![("ℹ ", Tone::Info), ("Bitte warten", Tone::Normal)]]);
}

#[test]
fn deleting_right_after_typing_restores_the_input() {
    let mut dialog = ChatDialog::new("Name");
    dialog.push_char('a');
    dialog.push_char('b');
    dialog.cursor_position = 1;
    dialog.push_char('x');
    assert_eq!(dialog.input, "axb");
    dialog.pop_char();
    assert_eq!(dialog.input, "ab");
    assert_eq!(dialog.cursor_position, 1);
}

#[test]
fn screensaver_screen_shows_a_builtin_animation() {
    let names = ["Spinning Clock", "Bouncing Box", "Matrix Rain", "Loading Spinner", "Waving Text"];
    let screen = create_screensaver_screen();
    assert_eq!(screen.player().current_frame, 0);
    assert!(names.contains(&screen.player().animation().name()));
    assert!(!screen.player().current_frame().is_empty());
}
