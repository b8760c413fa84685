use qr_utility::config::settings::AppConfig;
use qr_utility::generator::batch::BatchResult;
use qr_utility::models::{AppTheme, EccLevel, ExportFormat, QrItem, TargetType};
use qr_utility::storage::history::HistoryStore;
use qr_utility::ui::app::{should_auto_stop, AfterPreview, App, Effect, Report};
use qr_utility::ui::dialogs::ModalDialog;
use qr_utility::ui::keys::{KeyCode, KeyInput};
use qr_utility::ui::notification::{NotificationLevel, ToastNotification};
use qr_utility::ui::tabs::AppTab;
use qr_utility::ui::wizard::WizardStep;

fn app() -> App {
    App::new(AppConfig::with_environment(None, "127.0.0.1"), None)
}

fn key(code: KeyCode) -> KeyInput {
    KeyInput::plain(code)
}

fn ch(c: char) -> KeyInput {
    KeyInput::plain(KeyCode::Char(c))
}

fn toast_text(a: &App) -> String {
    a.current_toast.as_ref().map(|t| t.message.clone()).unwrap_or_default()
}

fn item(id: &str, code: &str, dynamic: bool, exp: Option<i64>) -> QrItem {
    let mut i = QrItem::with_identity(
        id.to_string(),
        0,
        "https://x/".to_string(),
        TargetType::Url("https://x/".to_string()),
        code.to_string(),
        None,
        exp,
        EccLevel::Medium,
        ExportFormat::Png,
    );
    if dynamic {
        i.dynamic_url = Some(format!("http://h/r/{}", code));
    }
    i
}

#[test]
fn ctrl_c_quits() {
    let mut a = app();
    let mut s = HistoryStore::new();
    let k = KeyInput { code: KeyCode::Char('c'), ctrl: true, super_key: false };
    assert!(a.handle_key_event(&mut s, k).is_empty());
    assert!(a.should_quit);
}

#[test]
fn tab_and_back_tab() {
    let mut a = app();
    let mut s = HistoryStore::new();
    a.handle_key_event(&mut s, key(KeyCode::Tab));
    assert_eq!(a.active_tab, AppTab::History);
    a.handle_key_event(&mut s, key(KeyCode::BackTab));
    assert_eq!(a.active_tab, AppTab::Wizard);
    a.handle_key_event(&mut s, key(KeyCode::BackTab));
    assert_eq!(a.active_tab, AppTab::Settings);
}

#[test]
fn digits_pick_tabs_outside_text_boxes() {
    let mut a = app();
    let mut s = HistoryStore::new();
    // The first step takes text: '3' goes into the URL.
    a.handle_key_event(&mut s, ch('3'));
    assert_eq!(a.active_tab, AppTab::Wizard);
    assert_eq!(a.wizard_state.url_input, "3");
    a.wizard_state.step = WizardStep::Step3Preview;
    a.handle_key_event(&mut s, ch('3'));
    assert_eq!(a.active_tab, AppTab::Batch);
}

#[test]
fn theme_key_saves_and_says_so() {
    let mut a = app();
    let mut s = HistoryStore::new();
    a.wizard_state.step = WizardStep::Step3Preview;
    let e = a.handle_key_event(&mut s, ch('t'));
    assert_eq!(a.config.theme, AppTheme::Cyberpunk.next());
    assert!(matches!(e.as_slice(), [Effect::SaveConfig]));
    assert_eq!(toast_text(&a), format!("Theme changed to {}", a.config.theme.name()));
}

#[test]
fn help_opens_and_closes() {
    let mut a = app();
    let mut s = HistoryStore::new();
    a.active_tab = AppTab::Batch;
    a.wizard_state.step = WizardStep::Step3Preview;
    a.handle_key_event(&mut s, ch('?'));
    assert!(matches!(a.active_modal, Some(ModalDialog::HelpOverlay)));
    a.handle_key_event(&mut s, ch('x'));
    assert!(a.active_modal.is_some());
    a.handle_key_event(&mut s, key(KeyCode::Esc));
    assert!(a.active_modal.is_none());
    assert!(!a.should_quit);
}

#[test]
fn q_quits_outside_text_boxes() {
    let mut a = app();
    let mut s = HistoryStore::new();
    a.handle_key_event(&mut s, ch('q'));
    assert!(!a.should_quit);
    a.active_tab = AppTab::History;
    a.wizard_state.step = WizardStep::Step2Expiration;
    a.handle_key_event(&mut s, ch('q'));
    assert!(a.should_quit);
}

#[test]
fn first_step_input_and_mode_switch() {
    let mut a = app();
    let mut s = HistoryStore::new();
    for c in "example.com".chars() {
        a.handle_key_event(&mut s, ch(c));
    }
    assert_eq!(a.wizard_state.url_input, "example.com");
    assert!(a.wizard_state.input_validation_error.is_none());
    a.handle_key_event(&mut s, key(KeyCode::Backspace));
    assert_eq!(a.wizard_state.url_input, "example.co");
    a.handle_key_event(&mut s, key(KeyCode::Down));
    assert_eq!(a.wizard_state.target_mode_idx, 1);
    a.handle_key_event(&mut s, key(KeyCode::Up));
    assert_eq!(a.wizard_state.target_mode_idx, 0);
    a.handle_key_event(&mut s, key(KeyCode::Enter));
    assert_eq!(a.wizard_state.step, WizardStep::Step2Expiration);
}

#[test]
fn first_step_refuses_bad_input() {
    let mut a = app();
    let mut s = HistoryStore::new();
    a.handle_key_event(&mut s, key(KeyCode::Enter));
    assert_eq!(a.wizard_state.step, WizardStep::Step1Input);
    assert_eq!(toast_text(&a), "Please enter a valid HTTP/HTTPS URL.");
    assert_eq!(a.current_toast.as_ref().unwrap().level, NotificationLevel::Error);
    a.handle_key_event(&mut s, key(KeyCode::Down));
    for c in "/no/such/photo.png".chars() {
        a.handle_key_event(&mut s, ch(c));
    }
    assert_eq!(a.wizard_state.input_validation_error.as_deref(), Some("File not found."));
    a.handle_key_event(&mut s, key(KeyCode::Enter));
    assert_eq!(toast_text(&a), "Photo file not found! Drag & drop an existing image file.");
    a.handle_key_event(&mut s, key(KeyCode::Esc));
    assert_eq!(a.wizard_state.photo_path_input, "");
}

#[test]
fn paste_requests_and_appends() {
    let mut a = app();
    let mut s = HistoryStore::new();
    let k = KeyInput { code: KeyCode::Char('v'), ctrl: true, super_key: false };
    let e = a.handle_key_event(&mut s, k);
    assert!(matches!(e.as_slice(), [Effect::ReadClipboard]));
    a.pasted(Some("  example.com  ".to_string()));
    assert_eq!(a.wizard_state.url_input, "example.com");
    assert_eq!(toast_text(&a), "Pasted into input field.");
}

fn static_app_at_expiration() -> App {
    let mut a = app();
    a.wizard_state.url_input = "example.com".to_string();
    a.wizard_state.use_dynamic_qr = false;
    a.wizard_state.step = WizardStep::Step2Expiration;
    a
}

#[test]
fn preset_makes_a_static_preview() {
    let mut a = static_app_at_expiration();
    let mut s = HistoryStore::new();
    // 1 to 5 pick tabs outside text boxes: '4' moves to the Server tab.
    a.handle_key_event(&mut s, ch('4'));
    assert_eq!(a.active_tab, AppTab::Server);
    assert!(a.wizard_state.generated_item.is_none());
    a.active_tab = AppTab::Wizard;
    let e = a.handle_key_event(&mut s, ch('6'));
    assert!(matches!(e.as_slice(), [Effect::SaveHistory]));
    assert_eq!(a.wizard_state.step, WizardStep::Step3Preview);
    assert_eq!(a.wizard_state.selected_expiration_idx, 5);
    let it = a.wizard_state.generated_item.as_ref().unwrap();
    assert!(it.dynamic_url.is_none());
    assert!(it.original_url.starts_with("https://example.com"));
    assert!(!a.wizard_state.qr_unicode_preview.is_empty());
    assert_eq!(s.len(), 1);
}

#[test]
fn dynamic_preview_waits_for_the_server() {
    let mut a = static_app_at_expiration();
    a.wizard_state.use_dynamic_qr = true;
    let mut s = HistoryStore::new();
    let e = a.handle_key_event(&mut s, key(KeyCode::Enter));
    assert!(matches!(e.as_slice(), [Effect::StartServer]));
    assert!(a.pending.is_some());
    assert_eq!(a.wizard_state.step, WizardStep::Step3Preview);
    assert_eq!(s.len(), 0);
    let e = a.server_started(&mut s, 8081, "10.0.0.2");
    assert!(matches!(e.as_slice(), [Effect::SaveConfig, Effect::SaveHistory]));
    assert!(a.server_running);
    assert_eq!(a.config.dynamic_server_port, 8081);
    assert_eq!(a.config.dynamic_server_host, "http://10.0.0.2:8081");
    let it = a.wizard_state.generated_item.as_ref().unwrap();
    assert_eq!(
        it.dynamic_url.as_deref(),
        Some(format!("http://10.0.0.2:8081/r/{}", it.short_code).as_str())
    );
    assert_eq!(a.wizard_state.step, WizardStep::Step3Preview);
    assert!(a.pending.is_none());
    assert_eq!(s.find_by_short_code(&it.short_code).unwrap().id, it.id);
}

#[test]
fn digit_moves_to_the_preview_while_the_server_starts() {
    let mut a = static_app_at_expiration();
    a.wizard_state.use_dynamic_qr = true;
    let mut s = HistoryStore::new();
    let e = a.handle_key_event(&mut s, ch('6'));
    assert!(matches!(e.as_slice(), [Effect::StartServer]));
    assert_eq!(a.wizard_state.selected_expiration_idx, 5);
    assert_eq!(a.wizard_state.step, WizardStep::Step3Preview);
    assert!(a.pending.is_some());
    let mut b = static_app_at_expiration();
    b.wizard_state.use_dynamic_qr = true;
    let e = b.handle_wizard_key(&mut s, ch('3'));
    assert!(matches!(e.as_slice(), [Effect::StartServer]));
    assert_eq!(b.wizard_state.selected_expiration_idx, 2);
    assert_eq!(b.wizard_state.step, WizardStep::Step3Preview);
}

#[test]
fn wizard_choices_stay_in_range() {
    let mut a = static_app_at_expiration();
    let mut s = HistoryStore::new();
    for _ in 0..12 {
        a.handle_key_event(&mut s, key(KeyCode::Down));
    }
    assert_eq!(a.wizard_state.selected_expiration_idx, 7);
    a.handle_key_event(&mut s, key(KeyCode::Enter));
    assert_eq!(a.wizard_state.step, WizardStep::Step2CustomInput);
    for _ in 0..9 {
        a.handle_key_event(&mut s, key(KeyCode::Right));
    }
    assert_eq!(a.wizard_state.custom_expiration_unit_idx, 4);
    a.handle_key_event(&mut s, ch('x'));
    a.handle_key_event(&mut s, ch('7'));
    assert!(a.wizard_state.custom_expiration_value.chars().all(|c| c.is_ascii_digit()));
    assert!(a.wizard_state.custom_expiration_value.ends_with('7'));
}

#[test]
fn server_failure_still_makes_the_preview() {
    let mut a = static_app_at_expiration();
    a.wizard_state.use_dynamic_qr = true;
    let mut s = HistoryStore::new();
    a.generate_qr_preview(&mut s, AfterPreview::Nothing);
    a.server_failed(&mut s, "port busy");
    assert!(!a.server_running);
    assert_eq!(toast_text(&a), "Failed to start server: port busy");
    assert!(a.wizard_state.generated_item.is_some());
    assert_eq!(s.len(), 1);
}

#[test]
fn custom_period_flow() {
    let mut a = static_app_at_expiration();
    let mut s = HistoryStore::new();
    a.handle_key_event(&mut s, ch('8'));
    assert_eq!(a.wizard_state.step, WizardStep::Step2CustomInput);
    assert_eq!(a.wizard_state.selected_expiration_idx, 7);
    a.handle_key_event(&mut s, key(KeyCode::Backspace));
    a.handle_key_event(&mut s, ch('x'));
    a.handle_key_event(&mut s, ch('2'));
    assert_eq!(a.wizard_state.custom_expiration_value, "42");
    a.handle_key_event(&mut s, key(KeyCode::Right));
    a.handle_key_event(&mut s, key(KeyCode::Right));
    assert_eq!(a.wizard_state.custom_expiration_unit_idx, 2);
    a.handle_key_event(&mut s, key(KeyCode::Enter));
    assert_eq!(a.wizard_state.step, WizardStep::Step3Preview);
    assert!(a.wizard_state.generated_item.as_ref().unwrap().expiration_time.is_some());
}

#[test]
fn out_of_range_period_aborts() {
    let mut a = static_app_at_expiration();
    let mut s = HistoryStore::new();
    a.wizard_state.selected_expiration_idx = 7;
    a.wizard_state.custom_expiration_unit_idx = 4;
    a.wizard_state.custom_expiration_value = "9999999999999999".to_string();
    let e = a.generate_qr_preview(&mut s, AfterPreview::ToPreview);
    assert!(matches!(e.as_slice(), [Effect::Abort { .. }]));
}

#[test]
fn preview_keys() {
    let mut a = static_app_at_expiration();
    let mut s = HistoryStore::new();
    a.handle_key_event(&mut s, ch('1'));
    a.handle_key_event(&mut s, ch('e'));
    assert_eq!(a.wizard_state.ecc_level, EccLevel::Quartile);
    assert_eq!(toast_text(&a), "Error Correction: Quartile (~25% recovery)");
    a.handle_key_event(&mut s, ch('f'));
    assert_eq!(a.wizard_state.export_format, ExportFormat::Svg);
    assert_eq!(toast_text(&a), format!("Format: {}", ExportFormat::Svg.label()));
    let e = a.handle_key_event(&mut s, ch('c'));
    match e.as_slice() {
        [Effect::CopyText { text, report }] => {
            assert!(text.starts_with("https://example.com"));
            a.conclude(
                Report {
                    on_success: report.on_success.as_ref().map(|n| qr_utility::ui::app::Notice {
                        message: n.message.clone(),
                        level: n.level,
                    }),
                    on_failure: None,
                },
                true,
            );
            assert_eq!(toast_text(&a), "Link copied to system clipboard!");
        }
        _ => panic!("expected a copy"),
    }
    let e = a.handle_key_event(&mut s, ch('i'));
    match e.as_slice() {
        [Effect::CopyImage { image, .. }] => {
            assert_eq!(image.width, image.height);
            assert_eq!(image.data.len() as u32, image.width * image.height * 4);
        }
        _ => panic!("expected an image copy"),
    }
    a.handle_key_event(&mut s, key(KeyCode::Enter));
    assert_eq!(a.wizard_state.step, WizardStep::Step4SaveOption);
}

#[test]
fn save_menu_keys() {
    let mut a = static_app_at_expiration();
    let mut s = HistoryStore::new();
    a.handle_key_event(&mut s, ch('1'));
    a.wizard_state.step = WizardStep::Step4SaveOption;
    a.handle_key_event(&mut s, ch('o'));
    assert_eq!(toast_text(&a), "Please save the QR code first.");
    assert_eq!(a.current_toast.as_ref().unwrap().level, NotificationLevel::Warning);
    a.handle_key_event(&mut s, ch('p'));
    assert_eq!(a.wizard_state.step, WizardStep::Step4CustomPathInput);
    for c in "out.png".chars() {
        a.handle_key_event(&mut s, ch(c));
    }
    a.handle_key_event(&mut s, key(KeyCode::Enter));
    assert_eq!(a.wizard_state.custom_filename, "out.png");
    a.config.default_output_dir = "/definitely/missing/dir".to_string();
    let e = a.handle_key_event(&mut s, ch('s'));
    match e.as_slice() {
        [Effect::EnsureDir { path }, Effect::SaveFile { path: target, format, .. }] => {
            assert_eq!(path, "/definitely/missing/dir");
            assert_eq!(target, "/definitely/missing/dir/out.png");
            assert_eq!(*format, ExportFormat::Png);
        }
        _ => panic!("expected a save"),
    }
    let e = a.file_saved(&mut s, "/definitely/missing/dir/out.png", Ok(()));
    assert!(matches!(e.as_slice(), [Effect::SaveHistory]));
    assert_eq!(a.last_saved_file.as_deref(), Some("/definitely/missing/dir/out.png"));
    assert_eq!(toast_text(&a), "Saved QR to \"out.png\"");
    assert_eq!(
        s.items()[0].last_saved_path.as_deref(),
        Some("/definitely/missing/dir/out.png")
    );
    let e = a.handle_key_event(&mut s, ch('r'));
    assert!(matches!(e.as_slice(), [Effect::RevealFile { .. }]));
    let e = a.handle_key_event(&mut s, ch('O'));
    match e.as_slice() {
        [Effect::OpenFile { path, report }] => {
            assert_eq!(path, "/definitely/missing/dir/out.png");
            assert_eq!(report.on_failure.as_ref().unwrap().message, "Failed to open file.");
        }
        _ => panic!("expected an open"),
    }
    a.file_saved(&mut s, "x", Err("disk full".to_string()));
    assert_eq!(toast_text(&a), "Error saving file: disk full");
}

#[test]
fn overwrite_question() {
    let mut a = static_app_at_expiration();
    let mut s = HistoryStore::new();
    a.handle_key_event(&mut s, ch('1'));
    a.wizard_state.step = WizardStep::Step4SaveOption;
    a.config.default_output_dir = "/".to_string();
    a.wizard_state.custom_filename = "tmp".to_string();
    let e = a.handle_key_event(&mut s, key(KeyCode::Enter));
    assert!(matches!(e.as_slice(), [Effect::EnsureDir { .. }]));
    assert!(matches!(a.active_modal, Some(ModalDialog::ConfirmOverwrite { ref target_path }) if target_path == "/tmp"));
    a.handle_key_event(&mut s, ch('n'));
    assert!(a.active_modal.is_none());
    assert_eq!(toast_text(&a), "Save operation cancelled.");
    a.active_modal = Some(ModalDialog::ConfirmOverwrite { target_path: "/tmp".to_string() });
    let e = a.handle_key_event(&mut s, ch('Y'));
    assert!(matches!(e.as_slice(), [Effect::SaveFile { path, .. }] if path == "/tmp"));
}

#[test]
fn history_tab_keys() {
    let mut a = app();
    let mut s = HistoryStore::new();
    s.add(item("1", "c1", false, None));
    s.add(item("2", "c2", false, None));
    a.active_tab = AppTab::History;
    a.wizard_state.step = WizardStep::Step3Preview;
    a.handle_key_event(&mut s, key(KeyCode::Down));
    a.handle_key_event(&mut s, key(KeyCode::Down));
    assert_eq!(a.history_state.selected_idx, 1);
    let e = a.handle_key_event(&mut s, ch('f'));
    assert!(matches!(e.as_slice(), [Effect::SaveHistory]));
    assert_eq!(toast_text(&a), "Marked as Favorite!");
    assert!(s.find_by_short_code("c1").unwrap().is_favorite);
    a.handle_key_event(&mut s, ch('/'));
    assert!(a.history_state.is_searching);
    a.handle_key_event(&mut s, ch('c'));
    a.handle_key_event(&mut s, ch('2'));
    assert_eq!(a.history_state.search_query, "c2");
    a.handle_key_event(&mut s, key(KeyCode::Enter));
    assert!(!a.history_state.is_searching);
    a.history_state.selected_idx = 0;
    a.handle_key_event(&mut s, key(KeyCode::Delete));
    assert_eq!(toast_text(&a), "Item removed from history.");
    assert!(s.find_by_short_code("c2").is_none());
    assert_eq!(s.len(), 1);
}

#[test]
fn settings_tab_keys() {
    let mut a = app();
    let mut s = HistoryStore::new();
    a.active_tab = AppTab::Settings;
    a.wizard_state.step = WizardStep::Step3Preview;
    a.handle_key_event(&mut s, key(KeyCode::Down));
    let e = a.handle_key_event(&mut s, key(KeyCode::Enter));
    assert!(matches!(e.as_slice(), [Effect::SaveConfig]));
    assert_eq!(a.config.default_qr_size, 1024);
    for _ in 0..10 {
        a.handle_key_event(&mut s, key(KeyCode::Down));
    }
    assert_eq!(a.config_state.selected_idx, 7);
    assert!(a.handle_key_event(&mut s, key(KeyCode::Enter)).is_empty());
}

#[test]
fn server_tab_toggles() {
    let mut a = app();
    let mut s = HistoryStore::new();
    a.active_tab = AppTab::Server;
    a.wizard_state.step = WizardStep::Step3Preview;
    let e = a.handle_key_event(&mut s, ch(' '));
    assert!(matches!(e.as_slice(), [Effect::StartServer]));
    a.server_running = true;
    let e = a.handle_key_event(&mut s, ch(' '));
    assert!(matches!(e.as_slice(), [Effect::StopServer]));
    assert!(!a.server_running);
    assert_eq!(toast_text(&a), "Redirect server stopped.");
}

#[test]
fn batch_tab_flow() {
    let mut a = app();
    let mut s = HistoryStore::new();
    a.active_tab = AppTab::Batch;
    a.wizard_state.step = WizardStep::Step3Preview;
    a.batch_state.csv_path_input = "/no/such.csv".to_string();
    assert!(a.handle_key_event(&mut s, key(KeyCode::Enter)).is_empty());
    assert_eq!(toast_text(&a), "CSV file not found: \"/no/such.csv\"");
    a.batch_state.csv_path_input = "/".to_string();
    let e = a.handle_key_event(&mut s, key(KeyCode::Enter));
    assert!(matches!(e.as_slice(), [Effect::EnsureDir { .. }, Effect::ProcessBatch { .. }]));
    assert!(a.batch_state.is_processing);
    assert_eq!(a.batch_state.log_messages.last().unwrap(), "Starting batch processing of \"/\"");
    let mut r = BatchResult::new(3);
    r.record_success("a".to_string());
    r.record_success("b".to_string());
    r.record_failure("c".to_string());
    a.batch_done(Ok(r));
    assert!(!a.batch_state.is_processing);
    assert_eq!(a.batch_state.current_progress, 2);
    assert_eq!(a.batch_state.total_count, 3);
    assert_eq!(a.batch_state.log_messages.last().unwrap(), "Batch Finished! Succeeded: 2, Failed: 1");
    assert_eq!(toast_text(&a), "Batch Complete! Saved 2 QRs.");
    a.batch_done(Err("bad csv".to_string()));
    assert_eq!(toast_text(&a), "Batch error: bad csv");
    // Esc quits outside text boxes; while the wizard takes text it reaches
    // the Batch tab.
    a.wizard_state.step = WizardStep::Step1Input;
    a.handle_key_event(&mut s, key(KeyCode::Esc));
    assert!(!a.should_quit);
    assert!(a.batch_state.log_messages.is_empty());
    assert_eq!(a.batch_state.total_count, 0);
}

#[test]
fn server_closes_when_links_expire() {
    let mut s = HistoryStore::new();
    s.add(item("1", "c1", true, Some(1_000)));
    s.add(item("2", "c2", false, None));
    assert!(!should_auto_stop(&s.items(), 999));
    assert!(should_auto_stop(&s.items(), 1_000));
    assert!(!should_auto_stop(&HistoryStore::new().items(), 5_000));
    let mut a = app();
    a.server_running = true;
    let e = a.tick_at(&s, 1_000, false);
    assert!(matches!(e.as_slice(), [Effect::StopServer]));
    assert!(!a.server_running);
    assert_eq!(toast_text(&a), "Server auto-closed: link expiration period ended.");
    a.tick_at(&s, 1_000, true);
    assert!(a.current_toast.is_none());
}

#[test]
fn toasts_last_four_seconds() {
    let t = ToastNotification::new("hi".to_string(), NotificationLevel::Info);
    assert_eq!(t.duration_ms, 4000);
    assert!(!t.expired_after(3_999));
    assert!(t.expired_after(4_000));
    assert!(!t.is_expired());
}

#[test]
fn periods_that_leave_the_calendar_abort() {
    let mut a = static_app_at_expiration();
    let mut s = HistoryStore::new();
    a.wizard_state.selected_expiration_idx = 7;
    a.wizard_state.custom_expiration_unit_idx = 4;
    // About 263 000 years: past the calendar's last day from any current time.
    a.wizard_state.custom_expiration_value = "3200000".to_string();
    let e = a.generate_qr_preview(&mut s, AfterPreview::Nothing);
    assert!(matches!(e.as_slice(), [Effect::Abort { .. }]));
    assert_eq!(s.len(), 0);
    // About 246 000 years: still inside it.
    a.wizard_state.custom_expiration_value = "3000000".to_string();
    let e = a.generate_qr_preview(&mut s, AfterPreview::Nothing);
    assert!(matches!(e.as_slice(), [Effect::SaveHistory]));
    let it = a.wizard_state.generated_item.as_ref().unwrap();
    assert!(it.expiration_time.unwrap() > 7_776_000_000_000_000);
}
