//! The interface's state and what each key does to it.
//!
//! Every handler changes the state and returns the outside work it asks for
//! (`Effect`), in order. The application performs that work and hands any
//! outcome back through the reply methods (`pasted`, `server_started`,
//! `file_saved`, ...), which may ask for more.
use vstd::prelude::*;

use crate::clock::{file_pattern, now_millis, utc_format, MAX_UTC_MILLIS};
use crate::config::settings::{server_host, server_url, spec_next_qr_size, next_qr_size, AppConfig};
use crate::generator::batch::BatchResult;
use crate::generator::qr::{
    image_bytes, image_side, lemma_clipboard_image_fits, qr_encoding, unicode_art, QrGenerator,
    QrMatrix, RgbaPixels,
};
use crate::models::expiration::{expired_at, parse_u64, parse_u64_chars, ExpirationOption, TimeUnit};
use crate::models::qr_item::{EccLevel, ExportFormat, QrItem, TargetType};
use crate::models::theme::AppTheme;
use crate::storage::history::{added, has_id, search_result, toggled, without_id, HistoryStore};
use crate::text::{
    chars_of, decimal, decimal_of, path_debug, path_debug_text, push_all, push_str, string_of,
    all_digits, is_digit, is_digit_char, trim, trimmed_str, with_char, without_last,
};
use crate::ui::dialogs::ModalDialog;
use crate::ui::keys::{KeyCode, KeyInput};
use crate::ui::notification::{NotificationLevel, ToastNotification};
use crate::ui::tabs::AppTab;
use crate::ui::views::{BatchViewState, ConfigViewState, HistoryViewState};
use crate::ui::wizard::{StepWizardState, WizardStep};
use crate::text::first_index;
use crate::utils::file_ops::{default_name, final_component, joined_path, sanitized, FileOps};
use crate::utils::url_validator::{validation, UrlValidator};
use crate::cli::Cli;
use vstd::string::StringSliceAdditionalSpecFns;
use vstd::utf8::encode_utf8;

verus! {

/// A toast to raise once an outcome is known.
pub struct Notice {
    pub message: String,
    pub level: NotificationLevel,
}

/// The toasts to raise when outside work succeeds and when it fails.
pub struct Report {
    pub on_success: Option<Notice>,
    pub on_failure: Option<Notice>,
}

/// Outside work the interface asks the application for.
pub enum Effect {
    /// Write the settings file.
    SaveConfig,
    /// Write the history file.
    SaveHistory,
    /// Bind and run the redirect server; answer with `server_started` or
    /// `server_failed`.
    StartServer,
    /// Stop the redirect server.
    StopServer,
    /// Read the clipboard's text; answer with `pasted`.
    ReadClipboard,
    /// Put `text` on the clipboard; answer with `conclude`.
    CopyText { text: String, report: Report },
    /// Put `image` on the clipboard; answer with `conclude`.
    CopyImage { image: RgbaPixels, report: Report },
    /// Create the folder `path` and its parents.
    EnsureDir { path: String },
    /// Export the wizard's code to `path`; answer with `file_saved`.
    SaveFile {
        path: String,
        format: ExportFormat,
        target_size: u32,
        quiet_zone: bool,
        theme: AppTheme,
        transparent_bg: bool,
    },
    /// Run a CSV batch into `out_dir`; answer with `batch_done`.
    ProcessBatch {
        csv_path: String,
        out_dir: String,
        format: ExportFormat,
        ecc: EccLevel,
        theme: AppTheme,
        size: u32,
    },
    /// Open `path` in the default viewer; answer with `conclude`.
    OpenFile { path: String, report: Report },
    /// Show `path` in the file manager; answer with `conclude`.
    RevealFile { path: String, report: Report },
    /// End the program with `reason`: the chosen expiration period reaches
    /// past the calendar's range, where no expiration instant exists.
    Abort { reason: String },
}

/// What a preview does once the code is made: move to the preview step,
/// or raise the toast that names the changed option.
#[derive(Debug, Clone, Copy, PartialEq, Eq, Structural)]
pub enum AfterPreview {
    ToPreview,
    EccToast,
    DynamicToast,
    Nothing,
}

/// A preview waiting for the redirect server to start: the item made so far
/// and what follows the preview.
pub struct PendingPreview {
    pub item: QrItem,
    pub follow: AfterPreview,
}

/// The whole state of the interface.
pub struct App {
    pub config: AppConfig,
    pub active_tab: AppTab,
    pub wizard_state: StepWizardState,
    pub history_state: HistoryViewState,
    pub batch_state: BatchViewState,
    pub config_state: ConfigViewState,
    pub active_modal: Option<ModalDialog>,
    pub current_toast: Option<ToastNotification>,
    pub server_running: bool,
    pub should_quit: bool,
    pub last_saved_file: Option<String>,
    /// `$HOME`, for paths that start with `~`.
    pub home: Option<String>,
    pub pending: Option<PendingPreview>,
}

/// The key is the character `a` or the character `b` (a letter in either
/// case, say).
pub open spec fn pressed(key: KeyInput, a: char, b: char) -> bool {
    key.code matches KeyCode::Char(c) && (c == a || c == b)
}

/// `n - 1`, stopping at 0.
pub open spec fn dec(n: usize) -> usize {
    if n > 0 {
        (n - 1) as usize
    } else {
        0
    }
}

/// `n + 1`, stopping at `max`.
pub open spec fn inc_to(n: usize, max: usize) -> usize {
    if n >= max {
        max
    } else {
        (n + 1) as usize
    }
}

/// The toast is `message` at `level`.
pub open spec fn toast_is(t: Option<ToastNotification>, message: Seq<char>, level: NotificationLevel) -> bool {
    t matches Some(x) && x.message@ == message && x.level == level
}

/// The outcome of an item-level action on the History tab.
pub open spec fn fav_message(now_favorite: bool) -> Seq<char> {
    if now_favorite {
        "Marked as Favorite!"@
    } else {
        "Removed from Favorites."@
    }
}

fn dec_exec(n: usize) -> (r: usize)
    ensures
        r == dec(n),
{
    if n > 0 {
        n - 1
    } else {
        0
    }
}

fn inc_to_exec(n: usize, max: usize) -> (r: usize)
    ensures
        r == inc_to(n, max),
{
    if n >= max {
        max
    } else {
        n + 1
    }
}

fn notice(message: &str, level: NotificationLevel) -> (r: Option<Notice>)
    ensures
        r matches Some(n) && n.message@ == message@ && n.level == level,
{
    Some(Notice { message: message.to_owned(), level })
}

impl App {
    /// A fresh interface over `config`, `home` being `$HOME` if set.
    pub fn new(config: AppConfig, home: Option<String>) -> (r: App)
        ensures
            r.config == config,
            r.home == home,
            r.active_tab == AppTab::Wizard,
            r.active_modal is None,
            r.current_toast is None,
            !r.server_running,
            !r.should_quit,
            r.last_saved_file is None,
            r.pending is None,
            r.wizard_state.step == WizardStep::Step1Input,
            r.wizard_state.target_mode_idx == 0,
            r.wizard_state.url_input@.len() == 0,
            r.wizard_state.selected_expiration_idx == 2,
            r.wizard_state.custom_expiration_value@ == "45"@,
            r.wizard_state.ecc_level == EccLevel::Medium,
            r.wizard_state.export_format == ExportFormat::Png,
            r.wizard_state.use_dynamic_qr,
            r.wizard_state.generated_item is None,
            wizard_in_range(r.wizard_state),
            r.history_state.selected_idx == 0 && !r.history_state.is_searching,
            r.history_state.search_query@.len() == 0,
            r.batch_state.csv_path_input@ == "links.csv"@,
            r.batch_state.log_messages@.len() == 0,
            r.config_state.selected_idx == 0,
    {
        let wizard_state = StepWizardState::default();
        proof {
            reveal_strlit("45");
            assert(is_digit(wizard_state.custom_expiration_value@[0]));
            assert(is_digit(wizard_state.custom_expiration_value@[1]));
        }
        App {
            config,
            active_tab: AppTab::Wizard,
            wizard_state,
            history_state: HistoryViewState::default(),
            batch_state: BatchViewState::default(),
            config_state: ConfigViewState::default(),
            active_modal: None,
            current_toast: None,
            server_running: false,
            should_quit: false,
            last_saved_file: None,
            home,
            pending: None,
        }
    }

    /// Raises the toast `message` at `level`; nothing else changes.
    pub fn toast(&mut self, message: &str, level: NotificationLevel)
        ensures
            toast_is(final(self).current_toast, message@, level),
            *final(self) == (App { current_toast: final(self).current_toast, ..*old(self) }),
    {
        self.current_toast = Some(ToastNotification::new(message.to_owned(), level));
    }

    /// Raises the toast `prefix` followed by `rest`.
    fn toast_with(&mut self, prefix: &str, rest: &str, level: NotificationLevel)
        ensures
            toast_is(final(self).current_toast, prefix@ + rest@, level),
            *final(self) == (App { current_toast: final(self).current_toast, ..*old(self) }),
    {
        let mut v = chars_of(prefix);
        push_str(&mut v, rest);
        let m = string_of(v.as_slice());
        self.toast(m.as_str(), level);
    }

    /// Raises the toast `n`, if there is one.
    fn raise(&mut self, n: Option<Notice>)
        ensures
            match n {
                Some(x) => toast_is(final(self).current_toast, x.message@, x.level),
                None => final(self).current_toast == old(self).current_toast,
            },
            *final(self) == (App { current_toast: final(self).current_toast, ..*old(self) }),
    {
        match n {
            Some(x) => self.toast(x.message.as_str(), x.level),
            None => {},
        }
    }

    /// Applies the outcome of outside work: the report's toast for success
    /// or for failure.
    pub fn conclude(&mut self, report: Report, succeeded: bool)
        ensures
            match (if succeeded {
                report.on_success
            } else {
                report.on_failure
            }) {
                Some(x) => toast_is(final(self).current_toast, x.message@, x.level),
                None => final(self).current_toast == old(self).current_toast,
            },
            *final(self) == (App { current_toast: final(self).current_toast, ..*old(self) }),
    {
        if succeeded {
            self.raise(report.on_success);
        } else {
            self.raise(report.on_failure);
        }
    }

    // -----------------------------------------------------------------------
    // The redirect server
    // -----------------------------------------------------------------------
    /// Asks for the redirect server unless it is running.
    pub fn start_server(&mut self) -> (effects: Vec<Effect>)
        ensures
            *final(self) == *old(self),
            old(self).server_running ==> effects@.len() == 0,
            !old(self).server_running ==> effects@ == seq![Effect::StartServer],
    {
        if self.server_running {
            return Vec::new();
        }
        vec![Effect::StartServer]
    }

    /// Stops the redirect server.
    pub fn stop_server(&mut self) -> (effects: Vec<Effect>)
        ensures
            !final(self).server_running,
            toast_is(final(self).current_toast, "Redirect server stopped."@, NotificationLevel::Info),
            *final(self) == (App {
                server_running: false,
                current_toast: final(self).current_toast,
                ..*old(self)
            }),
            effects@ == seq![Effect::StopServer],
    {
        self.server_running = false;
        self.toast("Redirect server stopped.", NotificationLevel::Info);
        vec![Effect::StopServer]
    }

    /// Starts a stopped server and stops a running one.
    pub fn toggle_server(&mut self) -> (effects: Vec<Effect>)
        ensures
            server_toggled(*old(self), *final(self), effects@),

    {
        if self.server_running {
            self.stop_server()
        } else {
            self.start_server()
        }
    }
}


/// The settings after Enter on row `idx` of the Settings tab: the size, the
/// error correction, the preferred format and the theme move to their next
/// value, the quiet zone and the transparent background flip.
pub open spec fn config_after_enter(c: AppConfig, idx: usize) -> AppConfig {
    if idx == 1 {
        AppConfig { default_qr_size: spec_next_qr_size(c.default_qr_size), ..c }
    } else if idx == 2 {
        AppConfig { default_ecc_level: c.default_ecc_level.spec_next(), ..c }
    } else if idx == 3 {
        AppConfig { preferred_format: c.preferred_format.spec_next_preferred(), ..c }
    } else if idx == 4 {
        AppConfig { theme: c.theme.spec_next(), ..c }
    } else if idx == 5 {
        AppConfig { default_quiet_zone: !c.default_quiet_zone, ..c }
    } else if idx == 6 {
        AppConfig { transparent_bg: !c.transparent_bg, ..c }
    } else {
        c
    }
}

/// The effect puts on the clipboard the 512-pixel image, with quiet zone and
/// in `theme`, of a code of width `w` and modules `cells`, with no report.
pub open spec fn copies_image(e: Effect, w: nat, cells: Seq<bool>, theme: AppTheme) -> bool {
    e matches Effect::CopyImage { image, report } && report.on_success is None
        && report.on_failure is None && exists|m: QrMatrix|
        #![trigger image_bytes(m, 512, true, theme, false)]
        m.size() == w && m.cells() == cells && image.width == image_side(m, 512, true)
            && image.height == image.width && image.data@ == image_bytes(m, 512, true, theme, false)
}

/// A key on the Settings tab: Up and Down move the selection (rows 0 to 7),
/// Enter changes the selected setting and asks for it to be saved.
pub open spec fn config_outcome(before: App, after: App, effects: Seq<Effect>, key: KeyInput) -> bool {
    &&& match key.code {
        KeyCode::Up => after == (App {
            config_state: ConfigViewState { selected_idx: dec(before.config_state.selected_idx) },
            ..before
        }) && effects.len() == 0,
        KeyCode::Down => after == (App {
            config_state: ConfigViewState {
                selected_idx: inc_to(before.config_state.selected_idx, 7),
            },
            ..before
        }) && effects.len() == 0,
        KeyCode::Enter => {
            let idx = before.config_state.selected_idx;
            &&& after == (App {
                config: config_after_enter(before.config, idx),
                ..before
            })
            &&& (1 <= idx <= 6 ==> effects =~= seq![Effect::SaveConfig])
            &&& (!(1 <= idx <= 6) ==> effects.len() == 0)
        },
        _ => after == before && effects.len() == 0,
    }
}

/// A key on the History tab, over the items that match the search: Up and
/// Down move the selection, `/` opens the search box, and on the selected
/// item F flips the favorite mark, C copies its link, I copies its QR image
/// and Delete or Backspace removes it.
pub open spec fn history_outcome(before: App, after: App, sb: Seq<QrItem>, sa: Seq<QrItem>, effects: Seq<Effect>, key: KeyInput) -> bool {
    &&& ({
        let results = search_result(sb, before.history_state.search_query@);
        let sel = before.history_state.selected_idx;
        let n = results.len();
        if key.code == KeyCode::Up {
            &&& after == (App {
                history_state: HistoryViewState { selected_idx: dec(sel), ..before.history_state },
                ..before
            })
            &&& sa == sb
            &&& effects.len() == 0
        } else if key.code == KeyCode::Down {
            &&& after == (if n > 0 {
                App {
                    history_state: HistoryViewState {
                        selected_idx: inc_to(sel, (n - 1) as usize),
                        ..before.history_state
                    },
                    ..before
                }
            } else {
                before
            })
            &&& sa == sb
            &&& effects.len() == 0
        } else if pressed(key, '/', '/') {
            &&& after == (App {
                history_state: HistoryViewState { is_searching: true, ..before.history_state },
                ..before
            })
            &&& sa == sb
            &&& effects.len() == 0
        } else if sel < n && pressed(key, 'f', 'F') {
            let id = results[sel as int].id@;
            &&& sa == toggled(sb, id)
            &&& toast_is(
                after.current_toast,
                fav_message(
                    match first_index(sb, has_id(id)) {
                        Some(k) => !sb[k].is_favorite,
                        None => false,
                    },
                ),
                NotificationLevel::Info,
            )
            &&& after == (App { current_toast: after.current_toast, ..before })
            &&& effects =~= seq![Effect::SaveHistory]
        } else if sel < n && pressed(key, 'c', 'C') {
            &&& toast_is(after.current_toast, "URL copied to clipboard!"@, NotificationLevel::Success)
            &&& after == (App { current_toast: after.current_toast, ..before })
            &&& sa == sb
            &&& effects.len() == 1
            &&& effects[0] matches Effect::CopyText { text, report }
            &&& text@ == results[sel as int].encoded_text()
            &&& report.on_success is None && report.on_failure is None
        } else if sel < n && pressed(key, 'i', 'I') {
            let item = results[sel as int];
            &&& sa == sb
            &&& match qr_encoding(encode_utf8(item.encoded_text()), item.ecc_level) {
                Ok((w, cells)) => {
                    &&& toast_is(
                        after.current_toast,
                        "QR image copied to clipboard!"@,
                        NotificationLevel::Success,
                    )
                    &&& after == (App { current_toast: after.current_toast, ..before })
                    &&& effects.len() == 1
                    &&& copies_image(effects[0], w, cells, before.config.theme)
                },
                Err(_) => after == before && effects.len() == 0,
            }
        } else if sel < n && (key.code == KeyCode::Delete || key.code == KeyCode::Backspace) {
            &&& sa == without_id(sb, results[sel as int].id@)
            &&& toast_is(after.current_toast, "Item removed from history."@, NotificationLevel::Info)
            &&& after == (App { current_toast: after.current_toast, ..before })
            &&& effects =~= seq![Effect::SaveHistory]
        } else {
            &&& after == before
            &&& sa == sb
            &&& effects.len() == 0
        }
    })
}

/// A key on the Batch tab: Enter runs the CSV file named in the path box
/// into the output folder with the configured format, error correction,
/// theme and size (or raises a toast when the file is not there); Esc
/// clears the log and the progress.
pub open spec fn batch_outcome(before: App, after: App, effects: Seq<Effect>, key: KeyInput) -> bool {
    &&& ({
        let csv = before.batch_state.csv_path_input@;
        let c = before.config;
        if key.code == KeyCode::Enter {
            ||| {
                &&& toast_is(
                    after.current_toast,
                    "CSV file not found: "@ + path_debug(csv),
                    NotificationLevel::Error,
                )
                &&& after == (App { current_toast: after.current_toast, ..before })
                &&& effects.len() == 0
            }
            ||| {
                &&& after == (App {
                    batch_state: BatchViewState {
                        is_processing: true,
                        log_messages: after.batch_state.log_messages,
                        ..before.batch_state
                    },
                    ..before
                })
                &&& logged(
                    after.batch_state.log_messages@,
                    before.batch_state.log_messages@,
                    "Starting batch processing of "@ + path_debug(csv),
                )
                &&& effects.len() == 2
                &&& effects[0] matches Effect::EnsureDir { path } && path@ == c.default_output_dir@
                &&& effects[1] matches Effect::ProcessBatch { csv_path, out_dir, format, ecc, theme, size }
                    && csv_path@ == csv && out_dir@ == c.default_output_dir@
                    && format == c.preferred_format && ecc == c.default_ecc_level
                    && theme == c.theme && size == c.default_qr_size
            }
        } else if key.code == KeyCode::Esc {
            &&& after == (App {
                batch_state: BatchViewState {
                    current_progress: 0,
                    total_count: 0,
                    log_messages: after.batch_state.log_messages,
                    ..before.batch_state
                },
                ..before
            })
            &&& after.batch_state.log_messages@.len() == 0
            &&& effects.len() == 0
        } else {
            after == before && effects.len() == 0
        }
    })
}

/// The server key: a running server stops (and a toast says so), a stopped
/// one is asked for.
pub open spec fn server_toggled(before: App, after: App, effects: Seq<Effect>) -> bool {
    &&& before.server_running ==> {
        &&& toast_is(after.current_toast, "Redirect server stopped."@, NotificationLevel::Info)
        &&& after == (App {
            server_running: false,
            current_toast: after.current_toast,
            ..before
        })
        &&& effects =~= seq![Effect::StopServer]
    }
    &&& !before.server_running ==> after == before && effects =~= seq![Effect::StartServer]
}

impl App {
    // -----------------------------------------------------------------------
    // The Settings tab
    // -----------------------------------------------------------------------
    /// A key on the Settings tab: Up and Down move the selection (rows 0 to
    /// 7), Enter changes the selected setting and asks for it to be saved.
    pub fn handle_config_key(&mut self, key: KeyInput) -> (effects: Vec<Effect>)
        ensures
            config_outcome(*old(self), *final(self), effects@, key),

    {
        match key.code {
            KeyCode::Up => {
                self.config_state.selected_idx = dec_exec(self.config_state.selected_idx);
                Vec::new()
            },
            KeyCode::Down => {
                self.config_state.selected_idx = inc_to_exec(self.config_state.selected_idx, 7);
                Vec::new()
            },
            KeyCode::Enter => {
                let idx = self.config_state.selected_idx;
                if idx == 1 {
                    self.config.default_qr_size = next_qr_size(self.config.default_qr_size);
                } else if idx == 2 {
                    self.config.default_ecc_level = self.config.default_ecc_level.next();
                } else if idx == 3 {
                    self.config.preferred_format = self.config.preferred_format.next_preferred();
                } else if idx == 4 {
                    self.config.theme = self.config.theme.next();
                } else if idx == 5 {
                    self.config.default_quiet_zone = !self.config.default_quiet_zone;
                } else if idx == 6 {
                    self.config.transparent_bg = !self.config.transparent_bg;
                } else {
                    return Vec::new();
                }
                vec![Effect::SaveConfig]
            },
            _ => Vec::new(),
        }
    }

    // -----------------------------------------------------------------------
    // The History tab
    // -----------------------------------------------------------------------
    /// A key on the History tab, over the items that match the search:
    /// Up and Down move the selection, `/` opens the search box, and on the
    /// selected item F flips the favorite mark, C copies its link, I copies
    /// its QR image and Delete or Backspace removes it.
    pub fn handle_history_key(&mut self, store: &mut HistoryStore, key: KeyInput) -> (effects: Vec<Effect>)
        ensures
            history_outcome(*old(self), *final(self), old(store)@, final(store)@, effects@, key),

    {
        let results = store.search(self.history_state.search_query.as_str());
        let n = results.len();
        let sel = self.history_state.selected_idx;
        match key.code {
            KeyCode::Up => {
                self.history_state.selected_idx = dec_exec(sel);
                return Vec::new();
            },
            KeyCode::Down => {
                if n > 0 {
                    self.history_state.selected_idx = inc_to_exec(sel, n - 1);
                }
                return Vec::new();
            },
            KeyCode::Char(c) => {
                if c == '/' {
                    self.history_state.is_searching = true;
                    return Vec::new();
                }
                if sel >= n {
                    return Vec::new();
                }
                let item = &results[sel];
                if c == 'f' || c == 'F' {
                    let id = item.id.clone();
                    let now_fav = store.toggle_favorite(id.as_str());
                    if now_fav {
                        self.toast("Marked as Favorite!", NotificationLevel::Info);
                    } else {
                        self.toast("Removed from Favorites.", NotificationLevel::Info);
                    }
                    return vec![Effect::SaveHistory];
                } else if c == 'c' || c == 'C' {
                    let text = item.encoded_url().to_owned();
                    self.toast("URL copied to clipboard!", NotificationLevel::Success);
                    return vec![
                        Effect::CopyText { text, report: Report { on_success: None, on_failure: None } },
                    ];
                } else if c == 'i' || c == 'I' {
                    let url = item.encoded_url();
                    match QrGenerator::create_qr(url, item.ecc_level) {
                        Ok(qr) => {
                            proof {
                                assert(url.spec_bytes() == encode_utf8(item.encoded_text()));
                            }
                            // The width's contract bounds the code's size, so the image fits.
                            qr.width();
                            proof {
                                lemma_clipboard_image_fits(qr);
                            }
                            let img = QrGenerator::render_image(&qr, 512, true, self.config.theme, false);
                            self.toast("QR image copied to clipboard!", NotificationLevel::Success);
                            return vec![
                                Effect::CopyImage {
                                    image: img,
                                    report: Report { on_success: None, on_failure: None },
                                },
                            ];
                        },
                        Err(_) => {
                            proof {
                                assert(url.spec_bytes() == encode_utf8(item.encoded_text()));
                            }
                            return Vec::new();
                        },
                    }
                }
                Vec::new()
            },
            KeyCode::Delete | KeyCode::Backspace => {
                if sel >= n {
                    return Vec::new();
                }
                let id = results[sel].id.clone();
                store.delete(id.as_str());
                self.toast("Item removed from history.", NotificationLevel::Info);
                vec![Effect::SaveHistory]
            },
            _ => Vec::new(),
        }
    }
}

/// Some item of `s` has a redirect address.
pub open spec fn has_dynamic(s: Seq<QrItem>) -> bool {
    exists|i: int| 0 <= i < s.len() && (#[trigger] s[i]).dynamic_url is Some
}

/// Some item of `s` with a redirect address has not expired at `now`.
pub open spec fn has_live_dynamic(s: Seq<QrItem>, now: int) -> bool {
    exists|i: int|
        0 <= i < s.len() && (#[trigger] s[i]).dynamic_url is Some && !expired_at(
            s[i].expiration_time,
            now,
        )
}

/// The server closes itself: there are redirect links and all of them have
/// expired at `now`.
pub open spec fn auto_stop_due(s: Seq<QrItem>, now: int) -> bool {
    has_dynamic(s) && !has_live_dynamic(s, now)
}

/// The last entry of the log `after` is `line`, after the entries of `before`.
pub open spec fn logged(after: Seq<String>, before: Seq<String>, line: Seq<char>) -> bool {
    after.len() == before.len() + 1 && after.take(before.len() as int) == before
        && after.last()@ == line
}

/// What the periodic check at `now` does, `done` telling whether the toast
/// has had its time: an expired toast goes; a running server whose redirect
/// links have all expired stops itself and says so.
pub open spec fn ticked(
    before: App,
    after: App,
    effects: Seq<Effect>,
    store: Seq<QrItem>,
    now: int,
    done: bool,
) -> bool {
    let cleared = if done {
        App { current_toast: None, ..before }
    } else {
        before
    };
    if before.server_running && auto_stop_due(store, now) {
        &&& after == (App { server_running: false, current_toast: after.current_toast, ..cleared })
        &&& toast_is(
            after.current_toast,
            "Server auto-closed: link expiration period ended."@,
            NotificationLevel::Info,
        )
        &&& effects =~= seq![Effect::StopServer]
    } else {
        after == cleared && effects.len() == 0
    }
}

/// Whether the server should close itself at `now` (see `auto_stop_due`).
pub fn should_auto_stop(items: &Vec<QrItem>, now: i64) -> (r: bool)
    ensures
        r == auto_stop_due(items@, now as int),
{
    let mut any_dynamic = false;
    let mut any_live = false;
    let mut i: usize = 0;
    while i < items.len()
        invariant
            i <= items@.len(),
            any_dynamic == exists|j: int| 0 <= j < i && (#[trigger] items@[j]).dynamic_url is Some,
            any_live == exists|j: int|
                0 <= j < i && (#[trigger] items@[j]).dynamic_url is Some && !expired_at(
                    items@[j].expiration_time,
                    now as int,
                ),
        decreases items@.len() - i,
    {
        let it = &items[i];
        if it.dynamic_url.is_some() {
            any_dynamic = true;
            if !ExpirationOption::is_expired_at(it.expiration_time, now) {
                any_live = true;
            }
        }
        i = i + 1;
    }
    any_dynamic && !any_live
}

impl App {
    // -----------------------------------------------------------------------
    // The Batch tab
    // -----------------------------------------------------------------------
    /// A key on the Batch tab: Enter runs the CSV file named in the path box
    /// into the output folder with the configured format, error correction,
    /// theme and size (or raises a toast when the file is not there); Esc
    /// clears the log and the progress.
    pub fn handle_batch_key(&mut self, key: KeyInput) -> (effects: Vec<Effect>)
        ensures
            batch_outcome(*old(self), *final(self), effects@, key),

    {
        match key.code {
            KeyCode::Enter => {
                let csv = self.batch_state.csv_path_input.clone();
                if !FileOps::path_exists(csv.as_str()) {
                    let shown = path_debug_text(csv.as_str());
                    self.toast_with("CSV file not found: ", shown.as_str(), NotificationLevel::Error);
                    return Vec::new();
                }
                let out_dir = self.config.default_output_dir.clone();
                self.batch_state.is_processing = true;
                let shown = path_debug_text(csv.as_str());
                let mut v = chars_of("Starting batch processing of ");
                push_str(&mut v, shown.as_str());
                let line = string_of(v.as_slice());
                let ghost before = self.batch_state.log_messages@;
                self.batch_state.log_messages.push(line);
                proof {
                    assert(self.batch_state.log_messages@.take(before.len() as int) =~= before);
                }
                vec![
                    Effect::EnsureDir { path: out_dir.clone() },
                    Effect::ProcessBatch {
                        csv_path: csv,
                        out_dir,
                        format: self.config.preferred_format,
                        ecc: self.config.default_ecc_level,
                        theme: self.config.theme,
                        size: self.config.default_qr_size,
                    },
                ]
            },
            KeyCode::Esc => {
                self.batch_state.log_messages = Vec::new();
                self.batch_state.current_progress = 0;
                self.batch_state.total_count = 0;
                Vec::new()
            },
            _ => Vec::new(),
        }
    }

    /// The outcome of a batch run: the counts and a summary in the log and a
    /// toast, or the error in both.
    pub fn batch_done(&mut self, outcome: Result<BatchResult, String>)
        ensures
            match outcome {
                Ok(res) => {
                    &&& *final(self) == (App {
                        batch_state: BatchViewState {
                            is_processing: false,
                            current_progress: res.succeeded,
                            total_count: res.total,
                            log_messages: final(self).batch_state.log_messages,
                            ..old(self).batch_state
                        },
                        current_toast: final(self).current_toast,
                        ..*old(self)
                    })
                    &&& logged(
                        final(self).batch_state.log_messages@,
                        old(self).batch_state.log_messages@,
                        "Batch Finished! Succeeded: "@ + decimal(res.succeeded as nat) + ", Failed: "@
                            + decimal(res.failed as nat),
                    )
                    &&& toast_is(
                        final(self).current_toast,
                        "Batch Complete! Saved "@ + decimal(res.succeeded as nat) + " QRs."@,
                        NotificationLevel::Success,
                    )
                },
                Err(e) => {
                    &&& *final(self) == (App {
                        batch_state: BatchViewState {
                            is_processing: false,
                            log_messages: final(self).batch_state.log_messages,
                            ..old(self).batch_state
                        },
                        current_toast: final(self).current_toast,
                        ..*old(self)
                    })
                    &&& logged(
                        final(self).batch_state.log_messages@,
                        old(self).batch_state.log_messages@,
                        "Batch Error: "@ + e@,
                    )
                    &&& toast_is(final(self).current_toast, "Batch error: "@ + e@, NotificationLevel::Error)
                },
            },
    {
        let ghost before = self.batch_state.log_messages@;
        match outcome {
            Ok(res) => {
                self.batch_state.current_progress = res.succeeded;
                self.batch_state.total_count = res.total;
                let mut v = chars_of("Batch Finished! Succeeded: ");
                let a = decimal_of(res.succeeded as u64);
                push_all(&mut v, a.as_slice());
                push_str(&mut v, ", Failed: ");
                let b = decimal_of(res.failed as u64);
                push_all(&mut v, b.as_slice());
                self.batch_state.log_messages.push(string_of(v.as_slice()));
                let mut t = chars_of("Batch Complete! Saved ");
                push_all(&mut t, a.as_slice());
                push_str(&mut t, " QRs.");
                let msg = string_of(t.as_slice());
                self.toast(msg.as_str(), NotificationLevel::Success);
            },
            Err(e) => {
                let mut v = chars_of("Batch Error: ");
                push_str(&mut v, e.as_str());
                self.batch_state.log_messages.push(string_of(v.as_slice()));
                self.toast_with("Batch error: ", e.as_str(), NotificationLevel::Error);
            },
        }
        proof {
            assert(self.batch_state.log_messages@.take(before.len() as int) =~= before);
        }
        self.batch_state.is_processing = false;
    }

    // -----------------------------------------------------------------------
    // The clock
    // -----------------------------------------------------------------------
    /// The periodic check at `now`, `toast_done` telling whether the toast
    /// has had its time: an expired toast goes; a running server whose
    /// redirect links have all expired stops itself and says so.
    pub fn tick_at(&mut self, store: &HistoryStore, now: i64, toast_done: bool) -> (effects: Vec<Effect>)
        ensures
            ticked(*old(self), *final(self), effects@, store@, now as int, toast_done),
    {
        if toast_done {
            self.current_toast = None;
        }
        if self.server_running {
            let items = store.items();
            if should_auto_stop(&items, now) {
                let effects = self.stop_server();
                self.toast(
                    "Server auto-closed: link expiration period ended.",
                    NotificationLevel::Info,
                );
                return effects;
            }
        }
        Vec::new()
    }

    /// The periodic check by the machine's clocks (see `tick_at`).
    pub fn tick(&mut self, store: &HistoryStore) -> (effects: Vec<Effect>)
        ensures
            exists|now: int, done: bool|
                #[trigger] ticked(*old(self), *final(self), effects@, store@, now, done),
    {
        let done = match &self.current_toast {
            Some(t) => t.is_expired(),
            None => false,
        };
        let now = now_millis();
        let effects = self.tick_at(store, now, done);
        proof {
            assert(ticked(*old(self), *self, effects@, store@, now as int, done));
        }
        effects
    }
}

/// The unit of the custom period for the selector position `idx`.
pub open spec fn unit_at(idx: usize) -> TimeUnit {
    if idx == 0 {
        TimeUnit::Minutes
    } else if idx == 1 {
        TimeUnit::Hours
    } else if idx == 2 {
        TimeUnit::Days
    } else if idx == 3 {
        TimeUnit::Weeks
    } else {
        TimeUnit::Months
    }
}

/// The custom-period selector offers every unit once, from the shortest to
/// the longest: a later position always names a longer unit, and each of
/// the five units sits at one of the positions 0 to 4.
pub proof fn law_unit_selector_order(i: usize, j: usize, u: TimeUnit)
    ensures
        i < j <= 4 ==> unit_at(i).seconds() < unit_at(j).seconds(),
        exists|k: usize| k <= 4 && #[trigger] unit_at(k) == u,
{
    let k: usize = match u {
        TimeUnit::Minutes => 0,
        TimeUnit::Hours => 1,
        TimeUnit::Days => 2,
        TimeUnit::Weeks => 3,
        TimeUnit::Months => 4,
    };
    assert(unit_at(k) == u);
}

fn unit_at_exec(idx: usize) -> (r: TimeUnit)
    ensures
        r == unit_at(idx),
{
    match idx {
        0 => TimeUnit::Minutes,
        1 => TimeUnit::Hours,
        2 => TimeUnit::Days,
        3 => TimeUnit::Weeks,
        _ => TimeUnit::Months,
    }
}

/// The expiration the wizard has chosen: a preset, or the custom period
/// (30 of the unit where the typed value is not a number).
pub open spec fn chosen_expiration(ws: StepWizardState) -> ExpirationOption {
    if ws.selected_expiration_idx < 7 {
        ExpirationOption::preset_list()[ws.selected_expiration_idx as int]
    } else {
        ExpirationOption::Custom {
            value: match parse_u64(ws.custom_expiration_value@) {
                Some(v) => v,
                None => 30,
            },
            unit: unit_at(ws.custom_expiration_unit_idx),
        }
    }
}

/// The optional home folder as text.
pub open spec fn home_text(home: Option<String>) -> Option<Seq<char>> {
    match home {
        Some(h) => Some(h@),
        None => None,
    }
}

/// What the wizard's first step names: the validated URL, or the cleaned
/// photo path behind `file://`.
pub open spec fn display_text(ws: StepWizardState, home: Option<String>) -> Seq<char> {
    if ws.target_mode_idx == 0 {
        match validation(ws.url_input@) {
            Ok(u) => u,
            Err(_) => Seq::empty(),
        }
    } else {
        "file://"@ + sanitized(ws.photo_path_input@, home_text(home))
    }
}

/// `item` is the one the wizard makes from its inputs at `now`, before any
/// redirect address: a fresh item for the URL or the photo, expiring the
/// chosen period after `now`, with the chosen error correction and format.
pub open spec fn item_fits(item: QrItem, ws: StepWizardState, home: Option<String>, now: int) -> bool {
    let exp = chosen_expiration(ws);
    &&& item.original_url@ == display_text(ws, home)
    &&& (if ws.target_mode_idx == 0 {
        item.target_type matches TargetType::Url(u) && u@ == display_text(ws, home)
    } else {
        item.target_type matches TargetType::Photo { file_path, filename }
            && file_path@ == sanitized(ws.photo_path_input@, home_text(home))
            && filename@ == match final_component(file_path@) {
                Some(n) => n,
                None => Seq::<char>::empty(),
            }
    })
    &&& item.short_code@.len() == 8
    &&& item.dynamic_url is None
    &&& item.expiration_time == exp.expiry_at(now)
    &&& item.ecc_level == ws.ecc_level
    &&& item.export_format == ws.export_format
    &&& !item.is_favorite
    &&& item.last_saved_path is None
    &&& item.title is None
}

/// What the code of `item` encodes: its redirect address on the configured
/// server, or the URL itself.
pub open spec fn target_of(a: App, item: QrItem) -> Seq<char> {
    if a.wizard_state.use_dynamic_qr {
        a.config.dynamic_server_host@ + "/r/"@ + item.short_code@
    } else {
        item.original_url@
    }
}

/// What follows a preview, from the state `mid` to `after`.
pub open spec fn then_applied(mid: App, after: App, follow: AfterPreview) -> bool {
    match follow {
        AfterPreview::ToPreview => after == (App {
            wizard_state: StepWizardState { step: WizardStep::Step3Preview, ..mid.wizard_state },
            ..mid
        }),
        AfterPreview::EccToast => {
            &&& toast_is(
                after.current_toast,
                "Error Correction: "@ + mid.wizard_state.ecc_level.label_text(),
                NotificationLevel::Info,
            )
            &&& after == (App { current_toast: after.current_toast, ..mid })
        },
        AfterPreview::DynamicToast => {
            &&& toast_is(
                after.current_toast,
                "Dynamic QR: "@ + (if mid.wizard_state.use_dynamic_qr {
                    "ENABLED"@
                } else {
                    "DISABLED"@
                }),
                NotificationLevel::Info,
            )
            &&& after == (App { current_toast: after.current_toast, ..mid })
        },
        AfterPreview::Nothing => after == mid,
    }
}

/// The preview of `item` is made from `before`: its code is encoded (with
/// its redirect address when the wizard is dynamic), shown, kept and
/// recorded in the history; then what `follow` names happens. Where the text cannot be
/// encoded only `follow` follows.
pub open spec fn made_then(
    before: App,
    after: App,
    sb: Seq<QrItem>,
    sa: Seq<QrItem>,
    effects: Seq<Effect>,
    item: QrItem,
    follow: AfterPreview,
) -> bool {
    let ws = before.wizard_state;
    let target = target_of(before, item);
    match qr_encoding(encode_utf8(target), ws.ecc_level) {
        Ok((w, cells)) => {
            &&& after.wizard_state.generated_qr matches Some(m) && m.size() == w && m.cells() == cells
                && after.wizard_state.qr_unicode_preview@ == unicode_art(m, ws.quiet_zone)
            &&& after.wizard_state.generated_item matches Some(g) && g == (QrItem {
                dynamic_url: g.dynamic_url,
                ..item
            }) && (if ws.use_dynamic_qr {
                g.dynamic_url matches Some(d) && d@ == target
            } else {
                g == item
            }) && sa == added(sb, g)
            &&& effects =~= seq![Effect::SaveHistory]
            &&& then_applied(
                App {
                    wizard_state: StepWizardState {
                        generated_qr: after.wizard_state.generated_qr,
                        qr_unicode_preview: after.wizard_state.qr_unicode_preview,
                        generated_item: after.wizard_state.generated_item,
                        ..ws
                    },
                    ..before
                },
                after,
                follow,
            )
        },
        Err(_) => sa == sb && effects.len() == 0 && then_applied(before, after, follow),
    }
}

/// What the part of `follow` that happens at once leaves for later, when a
/// preview waits for the redirect server: the move to the preview step is
/// made at once, a toast waits for the preview.
pub open spec fn deferred(follow: AfterPreview) -> AfterPreview {
    match follow {
        AfterPreview::ToPreview => AfterPreview::Nothing,
        _ => follow,
    }
}

/// The part of `follow` that happens at once when a preview waits for the
/// redirect server.
pub open spec fn immediate(follow: AfterPreview) -> AfterPreview {
    match follow {
        AfterPreview::ToPreview => AfterPreview::ToPreview,
        _ => AfterPreview::Nothing,
    }
}

/// What a preview request does from `before`, the clock reading `now`: an
/// abort when the chosen period cannot be added to `now` within the
/// calendar; when the code is dynamic and the server is down, the move to
/// the preview step at once, a pending item (with the toast that follows
/// it) and a request for the server; otherwise the preview is made.
pub open spec fn preview_at(
    before: App,
    after: App,
    sb: Seq<QrItem>,
    sa: Seq<QrItem>,
    effects: Seq<Effect>,
    follow: AfterPreview,
    now: int,
) -> bool {
    let ws = before.wizard_state;
    if !chosen_expiration(ws).fits_at(now) {
        after == before && sa == sb && effects.len() == 1 && effects[0] is Abort
    } else if ws.use_dynamic_qr && !before.server_running {
        &&& then_applied(App { pending: after.pending, ..before }, after, immediate(follow))
        &&& after.pending matches Some(p) && p.follow == deferred(follow) && item_fits(p.item, ws, before.home, now)
        &&& sa == sb
        &&& effects =~= seq![Effect::StartServer]
    } else {
        exists|item: QrItem|
            item_fits(item, ws, before.home, now) && #[trigger] made_then(
                before,
                after,
                sb,
                sa,
                effects,
                item,
                follow,
            )
    }
}

/// What a preview request does from `before`: nothing but `follow` when the
/// URL is invalid; otherwise what `preview_at` says for some reading of the
/// clock within the calendar.
pub open spec fn preview_outcome(
    before: App,
    after: App,
    sb: Seq<QrItem>,
    sa: Seq<QrItem>,
    effects: Seq<Effect>,
    follow: AfterPreview,
) -> bool {
    let ws = before.wizard_state;
    if ws.target_mode_idx == 0 && validation(ws.url_input@) is Err {
        sa == sb && effects.len() == 0 && then_applied(before, after, follow)
    } else {
        exists|now: int|
            0 <= now <= MAX_UTC_MILLIS && #[trigger] preview_at(before, after, sb, sa, effects, follow, now)
    }
}

/// What the pending preview, if any, does once the server question is
/// settled.
pub open spec fn resumed(before: App, after: App, sb: Seq<QrItem>, sa: Seq<QrItem>, effects: Seq<Effect>) -> bool {
    match before.pending {
        None => after == before && sa == sb && effects.len() == 0,
        Some(p) => made_then(App { pending: None, ..before }, after, sb, sa, effects, p.item, p.follow),
    }
}

impl App {
    // -----------------------------------------------------------------------
    // The wizard: previews
    // -----------------------------------------------------------------------
    /// Checks the first step's input: the URL must validate; the photo path,
    /// once cleaned, must name an existing regular file. The reason is kept
    /// for display.
    pub fn validate_step1_input(&mut self) -> (r: bool)
        ensures
            *final(self) == (App {
                wizard_state: StepWizardState {
                    input_validation_error: final(self).wizard_state.input_validation_error,
                    ..old(self).wizard_state
                },
                ..*old(self)
            }),
            old(self).wizard_state.target_mode_idx == 0 ==> match validation(
                old(self).wizard_state.url_input@,
            ) {
                Ok(_) => r && final(self).wizard_state.input_validation_error is None,
                Err(e) => !r && (final(self).wizard_state.input_validation_error matches Some(x)
                    && x@ == e),
            },
            old(self).wizard_state.target_mode_idx != 0 ==> {
                ||| r && final(self).wizard_state.input_validation_error is None
                ||| !r && (final(self).wizard_state.input_validation_error matches Some(x)
                    && x@ == "File not found."@)
            },
    {
        if self.wizard_state.target_mode_idx == 0 {
            match UrlValidator::validate(self.wizard_state.url_input.as_str()) {
                Ok(_) => {
                    self.wizard_state.input_validation_error = None;
                    true
                },
                Err(e) => {
                    self.wizard_state.input_validation_error = Some(e);
                    false
                },
            }
        } else {
            let home = match &self.home {
                Some(h) => Some(h.as_str()),
                None => None,
            };
            let path = FileOps::sanitize_path(self.wizard_state.photo_path_input.as_str(), home);
            if FileOps::path_exists(path.as_str()) && FileOps::is_file(path.as_str()) {
                self.wizard_state.input_validation_error = None;
                true
            } else {
                self.wizard_state.input_validation_error = Some("File not found.".to_owned());
                false
            }
        }
    }

    /// Applies what follows a preview.
    fn apply_then(&mut self, follow: AfterPreview)
        ensures
            then_applied(*old(self), *final(self), follow),
    {
        match follow {
            AfterPreview::ToPreview => {
                self.wizard_state.step = WizardStep::Step3Preview;
            },
            AfterPreview::EccToast => {
                let label = self.wizard_state.ecc_level.label();
                self.toast_with("Error Correction: ", label, NotificationLevel::Info);
            },
            AfterPreview::DynamicToast => {
                if self.wizard_state.use_dynamic_qr {
                    self.toast_with("Dynamic QR: ", "ENABLED", NotificationLevel::Info);
                } else {
                    self.toast_with("Dynamic QR: ", "DISABLED", NotificationLevel::Info);
                }
            },
            AfterPreview::Nothing => {},
        }
    }

    /// Makes the preview of `item` and applies `follow` (see `made_then`).
    fn make_preview(&mut self, store: &mut HistoryStore, item: QrItem, follow: AfterPreview) -> (effects: Vec<Effect>)
        ensures
            made_then(*old(self), *final(self), old(store)@, final(store)@, effects@, item, follow),
    {
        let ghost before = *self;
        let mut item = item;
        let ghost item0 = item;
        let target = if self.wizard_state.use_dynamic_qr {
            let mut v = chars_of(self.config.dynamic_server_host.as_str());
            push_str(&mut v, "/r/");
            push_str(&mut v, item.short_code.as_str());
            let d = string_of(v.as_slice());
            item.dynamic_url = Some(d.clone());
            d
        } else {
            item.original_url.clone()
        };
        let ts = target.as_str();
        proof {
            assert(ts.spec_bytes() == encode_utf8(target_of(before, item0)));
        }
        match QrGenerator::create_qr(ts, self.wizard_state.ecc_level) {
            Ok(qr) => {
                let preview = QrGenerator::render_unicode(&qr, self.wizard_state.quiet_zone);
                self.wizard_state.qr_unicode_preview = preview;
                self.wizard_state.generated_qr = Some(qr);
                let kept = item.duplicate();
                store.add(kept);
                self.wizard_state.generated_item = Some(item);
                let ghost mid = *self;
                self.apply_then(follow);
                proof {
                    assert(mid == (App {
                        wizard_state: StepWizardState {
                            generated_qr: mid.wizard_state.generated_qr,
                            qr_unicode_preview: mid.wizard_state.qr_unicode_preview,
                            generated_item: mid.wizard_state.generated_item,
                            ..before.wizard_state
                        },
                        ..before
                    }));
                }
                vec![Effect::SaveHistory]
            },
            Err(_) => {
                self.apply_then(follow);
                Vec::new()
            },
        }
    }

    /// Makes the wizard's QR code from its inputs and records it, then
    /// applies `follow` (see `preview_outcome`).
    pub fn generate_qr_preview(&mut self, store: &mut HistoryStore, follow: AfterPreview) -> (effects: Vec<Effect>)
        ensures
            preview_outcome(*old(self), *final(self), old(store)@, final(store)@, effects@, follow),
    {
        let ws = &self.wizard_state;
        let expiration = if ws.selected_expiration_idx < 7 {
            let presets = ExpirationOption::presets();
            presets[ws.selected_expiration_idx]
        } else {
            let typed = chars_of(ws.custom_expiration_value.as_str());
            let value = match parse_u64_chars(typed.as_slice()) {
                Some(v) => v,
                None => 30,
            };
            ExpirationOption::Custom { value, unit: unit_at_exec(ws.custom_expiration_unit_idx) }
        };
        let short_code = Cli::new_short_code();
        let (target_type, display) = if ws.target_mode_idx == 0 {
            match UrlValidator::validate(ws.url_input.as_str()) {
                Ok(u) => (TargetType::Url(u.clone()), u),
                Err(_) => {
                    self.apply_then(follow);
                    return Vec::new();
                },
            }
        } else {
            let home = match &self.home {
                Some(h) => Some(h.as_str()),
                None => None,
            };
            let path = FileOps::sanitize_path(ws.photo_path_input.as_str(), home);
            let name = FileOps::file_name(path.as_str());
            let mut v = chars_of("file://");
            push_str(&mut v, path.as_str());
            let shown = string_of(v.as_slice());
            (TargetType::Photo { file_path: path, filename: name }, shown)
        };
        let now = now_millis();
        let expires = match expiration.expiration_checked(now) {
            Some(e) => e,
            None => {
                let effects = vec![
                    Effect::Abort { reason: "the expiration period reaches past the calendar".to_owned() },
                ];
                proof {
                    assert(preview_at(*old(self), *self, old(store)@, store@, effects@, follow, now as int));
                }
                return effects;
            },
        };
        let item = QrItem::new(
            display,
            target_type,
            short_code,
            None,
            expires,
            self.wizard_state.ecc_level,
            self.wizard_state.export_format,
        );
        proof {
            assert(item_fits(item, old(self).wizard_state, old(self).home, now as int));
        }
        if self.wizard_state.use_dynamic_qr && !self.server_running {
            let (now_follow, later) = match follow {
                AfterPreview::ToPreview => (AfterPreview::ToPreview, AfterPreview::Nothing),
                _ => (AfterPreview::Nothing, follow),
            };
            self.pending = Some(PendingPreview { item, follow: later });
            self.apply_then(now_follow);
            let effects = vec![Effect::StartServer];
            proof {
                assert(preview_at(*old(self), *self, old(store)@, store@, effects@, follow, now as int));
            }
            return effects;
        }
        let ghost it = item;
        let effects = self.make_preview(store, item, follow);
        proof {
            assert(made_then(*old(self), *self, old(store)@, store@, effects@, it, follow));
            assert(preview_at(*old(self), *self, old(store)@, store@, effects@, follow, now as int));
        }
        effects
    }

    /// Finishes the pending preview, if any (see `resumed`).
    fn resume(&mut self, store: &mut HistoryStore) -> (effects: Vec<Effect>)
        ensures
            resumed(*old(self), *final(self), old(store)@, final(store)@, effects@),
    {
        match self.pending.take() {
            None => Vec::new(),
            Some(p) => self.make_preview(store, p.item, p.follow),
        }
    }
}

/// `a` with the wizard state `ws`.
pub open spec fn with_ws(a: App, ws: StepWizardState) -> App {
    App { wizard_state: ws, ..a }
}

/// `after` is `before` with the toast `message` at `level`.
pub open spec fn toasted(before: App, after: App, message: Seq<char>, level: NotificationLevel) -> bool {
    toast_is(after.current_toast, message, level) && after == (App {
        current_toast: after.current_toast,
        ..before
    })
}

/// The report raises `ok` at `ok_level` on success and `fail` at
/// `fail_level` on failure.
pub open spec fn reports(r: Report, ok: Seq<char>, ok_level: NotificationLevel, fail: Seq<char>, fail_level: NotificationLevel) -> bool {
    &&& r.on_success matches Some(n) && n.message@ == ok && n.level == ok_level
    &&& r.on_failure matches Some(n) && n.message@ == fail && n.level == fail_level
}

/// The report raises nothing.
pub open spec fn silent(r: Report) -> bool {
    r.on_success is None && r.on_failure is None
}

/// The effect puts on the clipboard the 512-pixel image of `qr`, with quiet
/// zone, in `theme`.
pub open spec fn image_copy_of(e: Effect, qr: QrMatrix, theme: AppTheme) -> bool {
    e matches Effect::CopyImage { image, report } && image.width == image_side(qr, 512, true)
        && image.height == image.width && image.data@ == image_bytes(qr, 512, true, theme, false)
}

/// `after` is `before` with the first step's input for the current mode
/// (the URL, or the photo path) holding `text`.
pub open spec fn input_edited(before: App, after: App, text: Seq<char>) -> bool {
    let ws = before.wizard_state;
    if ws.target_mode_idx == 0 {
        after == with_ws(before, StepWizardState { url_input: after.wizard_state.url_input, ..ws })
            && after.wizard_state.url_input@ == text
    } else {
        after == with_ws(
            before,
            StepWizardState { photo_path_input: after.wizard_state.photo_path_input, ..ws },
        ) && after.wizard_state.photo_path_input@ == text
    }
}

/// The first step's input for the current mode.
pub open spec fn current_input(ws: StepWizardState) -> Seq<char> {
    if ws.target_mode_idx == 0 {
        ws.url_input@
    } else {
        ws.photo_path_input@
    }
}

/// `s` without its last character, if any.
pub open spec fn popped(s: Seq<char>) -> Seq<char> {
    if s.len() > 0 {
        s.drop_last()
    } else {
        s
    }
}

/// What checking the first step's input does (see `validate_step1_input`),
/// `ok` being its answer.
pub open spec fn step1_checked(before: App, after: App, ok: bool) -> bool {
    let ws = before.wizard_state;
    &&& after == with_ws(
        before,
        StepWizardState { input_validation_error: after.wizard_state.input_validation_error, ..ws },
    )
    &&& ws.target_mode_idx == 0 ==> match validation(ws.url_input@) {
        Ok(_) => ok && after.wizard_state.input_validation_error is None,
        Err(e) => !ok && (after.wizard_state.input_validation_error matches Some(x) && x@ == e),
    }
    &&& ws.target_mode_idx != 0 ==> {
        ||| ok && after.wizard_state.input_validation_error is None
        ||| !ok && (after.wizard_state.input_validation_error matches Some(x) && x@ == "File not found."@)
    }
}

/// The input is edited to `text` and then checked.
pub open spec fn edited_and_checked(before: App, after: App, text: Seq<char>) -> bool {
    exists|mid: App, ok: bool| input_edited(before, mid, text) && #[trigger] step1_checked(mid, after, ok)
}

/// The message for an input that does not pass the first step.
pub open spec fn step1_refusal(mode: usize) -> Seq<char> {
    if mode == 0 {
        "Please enter a valid HTTP/HTTPS URL."@
    } else {
        "Photo file not found! Drag & drop an existing image file."@
    }
}

/// Enter at the first step: the input is checked; the wizard moves on if it
/// passes, and a toast says why not otherwise.
pub open spec fn step1_entered(before: App, after: App) -> bool {
    exists|mid: App, ok: bool|
        #[trigger] step1_checked(before, mid, ok) && if ok {
            after == with_ws(mid, StepWizardState { step: WizardStep::Step2Expiration, ..mid.wizard_state })
        } else {
            toasted(mid, after, step1_refusal(before.wizard_state.target_mode_idx), NotificationLevel::Error)
        }
}

/// A key at the first step: typing edits the URL or the photo path (and
/// checks it), Ctrl+V or Cmd+V asks for the clipboard, Up and Down switch
/// between URL and photo, Enter moves on once the input passes, Esc clears.
pub open spec fn step1_outcome(before: App, after: App, effects: Seq<Effect>, key: KeyInput) -> bool {
    let ws = before.wizard_state;
    if (key.ctrl || key.super_key) && key.code == KeyCode::Char('v') {
        after == before && effects =~= seq![Effect::ReadClipboard]
    } else {
        &&& effects.len() == 0
        &&& match key.code {
            KeyCode::Up | KeyCode::Down => after == with_ws(
                before,
                StepWizardState { target_mode_idx: (1 - ws.target_mode_idx) as usize, ..ws },
            ),
            KeyCode::Char(c) => edited_and_checked(before, after, current_input(ws).push(c)),
            KeyCode::Backspace => edited_and_checked(before, after, popped(current_input(ws))),
            KeyCode::Enter => step1_entered(before, after),
            KeyCode::Esc => {
                &&& after == with_ws(
                    before,
                    StepWizardState {
                        url_input: after.wizard_state.url_input,
                        photo_path_input: after.wizard_state.photo_path_input,
                        input_validation_error: None,
                        ..ws
                    },
                )
                &&& after.wizard_state.url_input@.len() == 0
                &&& after.wizard_state.photo_path_input@.len() == 0
            },
            _ => after == before,
        }
    }
}

impl App {
    // -----------------------------------------------------------------------
    // The wizard: the first step
    // -----------------------------------------------------------------------
    /// Sets the first step's input for the current mode to `text`.
    fn set_input(&mut self, text: String)
        ensures
            input_edited(*old(self), *final(self), text@),
    {
        if self.wizard_state.target_mode_idx == 0 {
            self.wizard_state.url_input = text;
        } else {
            self.wizard_state.photo_path_input = text;
        }
    }

    /// The first step's input for the current mode.
    fn input_text(&self) -> (r: &str)
        ensures
            r@ == current_input(self.wizard_state),
    {
        if self.wizard_state.target_mode_idx == 0 {
            self.wizard_state.url_input.as_str()
        } else {
            self.wizard_state.photo_path_input.as_str()
        }
    }

    /// Replaces the current input by `text` and checks it.
    fn edit_input(&mut self, text: String)
        ensures
            edited_and_checked(*old(self), *final(self), text@),
    {
        self.set_input(text);
        let ghost mid = *self;
        let ok = self.validate_step1_input();
        proof {
            assert(step1_checked(mid, *self, ok));
        }
    }

    /// Enter at the first step (see `step1_entered`).
    fn step1_enter(&mut self)
        ensures
            step1_entered(*old(self), *final(self)),
    {
        let mode = self.wizard_state.target_mode_idx;
        let ok = self.validate_step1_input();
        let ghost mid = *self;
        proof {
            assert(step1_checked(*old(self), mid, ok));
        }
        if ok {
            self.wizard_state.step = WizardStep::Step2Expiration;
        } else if mode == 0 {
            self.toast("Please enter a valid HTTP/HTTPS URL.", NotificationLevel::Error);
        } else {
            self.toast(
                "Photo file not found! Drag & drop an existing image file.",
                NotificationLevel::Error,
            );
        }
    }

    /// A key at the first step (see `step1_outcome`).
    fn handle_step1_key(&mut self, key: KeyInput) -> (effects: Vec<Effect>)
        requires
            old(self).wizard_state.target_mode_idx <= 1,
        ensures
            step1_outcome(*old(self), *final(self), effects@, key),
    {
        if (key.ctrl || key.super_key) && key.code == KeyCode::Char('v') {
            return vec![Effect::ReadClipboard];
        }
        match key.code {
            KeyCode::Up | KeyCode::Down => {
                self.wizard_state.target_mode_idx = 1 - self.wizard_state.target_mode_idx;
            },
            KeyCode::Char(c) => {
                let text = with_char(self.input_text(), c);
                self.edit_input(text);
            },
            KeyCode::Backspace => {
                let text = without_last(self.input_text());
                self.edit_input(text);
            },
            KeyCode::Enter => {
                self.step1_enter();
            },
            KeyCode::Esc => {
                self.wizard_state.url_input = String::new();
                self.wizard_state.photo_path_input = String::new();
                self.wizard_state.input_validation_error = None;
            },
            _ => {},
        }
        Vec::new()
    }

    /// The clipboard's text for a paste at the first step: the trimmed text
    /// is appended to the input, the input checked and a toast raised.
    /// Nothing happens when the clipboard could not be read.
    pub fn pasted(&mut self, text: Option<String>)
        ensures
            match text {
                Some(t) => exists|mid: App, mid2: App, ok: bool|
                    input_edited(*old(self), mid, current_input(old(self).wizard_state) + trim(t@))
                        && #[trigger] step1_checked(mid, mid2, ok) && toasted(
                        mid2,
                        *final(self),
                        "Pasted into input field."@,
                        NotificationLevel::Info,
                    ),
                None => *final(self) == *old(self),
            },
    {
        match text {
            Some(t) => {
                let mut v = chars_of(self.input_text());
                let cut = trimmed_str(t.as_str());
                push_all(&mut v, cut.as_slice());
                let joined = string_of(v.as_slice());
                self.set_input(joined);
                let ghost mid = *self;
                let ok = self.validate_step1_input();
                let ghost mid2 = *self;
                self.toast("Pasted into input field.", NotificationLevel::Info);
                proof {
                    assert(step1_checked(mid, mid2, ok));
                }
            },
            None => {},
        }
    }

    // -----------------------------------------------------------------------
    // The redirect server's answers
    // -----------------------------------------------------------------------
    /// The server is up on `port`, reachable at `lan_ip`: the settings point
    /// at it and are saved, a toast says so, and a pending preview is made.
    pub fn server_started(&mut self, store: &mut HistoryStore, port: u16, lan_ip: &str) -> (effects: Vec<Effect>)
        ensures
            effects@.len() >= 1,
            effects@[0] == Effect::SaveConfig,
            exists|mid: App|
                #[trigger] resumed(mid, *final(self), old(store)@, final(store)@, effects@.skip(1))
                    && mid == (App {
                    config: AppConfig {
                        dynamic_server_port: port,
                        dynamic_server_host: mid.config.dynamic_server_host,
                        ..old(self).config
                    },
                    server_running: true,
                    current_toast: mid.current_toast,
                    ..*old(self)
                }) && mid.config.dynamic_server_host@ == server_url(lan_ip@, port as nat)
                    && toast_is(
                    mid.current_toast,
                    "Server active on "@ + server_url(lan_ip@, port as nat),
                    NotificationLevel::Success,
                ),
    {
        self.config.dynamic_server_port = port;
        self.config.dynamic_server_host = server_host(lan_ip, port);
        self.server_running = true;
        let host = self.config.dynamic_server_host.clone();
        self.toast_with("Server active on ", host.as_str(), NotificationLevel::Success);
        let ghost mid = *self;
        let mut effects = vec![Effect::SaveConfig];
        let mut more = self.resume(store);
        let ghost rest = more@;
        effects.append(&mut more);
        proof {
            assert(effects@.skip(1) =~= rest);
            assert(resumed(mid, *self, old(store)@, store@, effects@.skip(1)));
        }
        effects
    }

    /// The server could not start, for `reason`: a toast says so, and a
    /// pending preview is made all the same.
    pub fn server_failed(&mut self, store: &mut HistoryStore, reason: &str) -> (effects: Vec<Effect>)
        ensures
            exists|mid: App|
                #[trigger] resumed(mid, *final(self), old(store)@, final(store)@, effects@) && toasted(
                    App { server_running: false, ..*old(self) },
                    mid,
                    "Failed to start server: "@ + reason@,
                    NotificationLevel::Error,
                ),
    {
        self.server_running = false;
        self.toast_with("Failed to start server: ", reason, NotificationLevel::Error);
        let ghost mid = *self;
        let effects = self.resume(store);
        proof {
            assert(resumed(mid, *self, old(store)@, store@, effects@));
        }
        effects
    }
}

/// A key at the expiration menu: 1 to 7 pick a preset and make the preview,
/// 8 opens the custom period, Up and Down move the selection, Enter takes
/// the selection, Esc goes back.
pub open spec fn step2_outcome(before: App, after: App, sb: Seq<QrItem>, sa: Seq<QrItem>, effects: Seq<Effect>, key: KeyInput) -> bool {
    let ws = before.wizard_state;
    let unchanged = after == before && sa == sb && effects.len() == 0;
    match key.code {
        KeyCode::Char(c) => if 49 <= (c as u32) <= 55 {
            preview_outcome(
                with_ws(before, StepWizardState { selected_expiration_idx: ((c as u32) - 49) as usize, ..ws }),
                after,
                sb,
                sa,
                effects,
                AfterPreview::ToPreview,
            )
        } else if c == '8' {
            after == with_ws(
                before,
                StepWizardState {
                    selected_expiration_idx: 7,
                    step: WizardStep::Step2CustomInput,
                    ..ws
                },
            ) && sa == sb && effects.len() == 0
        } else {
            unchanged
        },
        KeyCode::Up => after == with_ws(
            before,
            StepWizardState { selected_expiration_idx: dec(ws.selected_expiration_idx), ..ws },
        ) && sa == sb && effects.len() == 0,
        KeyCode::Down => after == with_ws(
            before,
            StepWizardState { selected_expiration_idx: inc_to(ws.selected_expiration_idx, 7), ..ws },
        ) && sa == sb && effects.len() == 0,
        KeyCode::Enter => if ws.selected_expiration_idx == 7 {
            after == with_ws(before, StepWizardState { step: WizardStep::Step2CustomInput, ..ws }) && sa
                == sb && effects.len() == 0
        } else {
            preview_outcome(before, after, sb, sa, effects, AfterPreview::ToPreview)
        },
        KeyCode::Esc => after == with_ws(before, StepWizardState { step: WizardStep::Step1Input, ..ws })
            && sa == sb && effects.len() == 0,
        _ => unchanged,
    }
}

/// A key at the custom period: digits and Backspace edit the value, Left
/// and Right move the unit, Enter makes the preview, Esc goes back.
pub open spec fn custom_outcome(before: App, after: App, sb: Seq<QrItem>, sa: Seq<QrItem>, effects: Seq<Effect>, key: KeyInput) -> bool {
    let ws = before.wizard_state;
    let unchanged = after == before && sa == sb && effects.len() == 0;
    let value_is = |t: Seq<char>|
        after == with_ws(
            before,
            StepWizardState { custom_expiration_value: after.wizard_state.custom_expiration_value, ..ws },
        ) && after.wizard_state.custom_expiration_value@ == t && sa == sb && effects.len() == 0;
    match key.code {
        KeyCode::Char(c) => if is_digit(c) {
            value_is(ws.custom_expiration_value@.push(c))
        } else {
            unchanged
        },
        KeyCode::Backspace => value_is(popped(ws.custom_expiration_value@)),
        KeyCode::Left => after == with_ws(
            before,
            StepWizardState { custom_expiration_unit_idx: dec(ws.custom_expiration_unit_idx), ..ws },
        ) && sa == sb && effects.len() == 0,
        KeyCode::Right => after == with_ws(
            before,
            StepWizardState {
                custom_expiration_unit_idx: inc_to(ws.custom_expiration_unit_idx, 4),
                ..ws
            },
        ) && sa == sb && effects.len() == 0,
        KeyCode::Enter => preview_outcome(before, after, sb, sa, effects, AfterPreview::ToPreview),
        KeyCode::Esc => after == with_ws(before, StepWizardState { step: WizardStep::Step2Expiration, ..ws })
            && sa == sb && effects.len() == 0,
        _ => unchanged,
    }
}

/// A key at the preview: E, D, Q and B change the error correction, the
/// redirect mode, the quiet zone and the background and make the preview
/// again; F changes the format; C and I copy the link and the image; Enter
/// moves on; Esc goes back.
pub open spec fn step3_outcome(before: App, after: App, sb: Seq<QrItem>, sa: Seq<QrItem>, effects: Seq<Effect>, key: KeyInput) -> bool {
    let ws = before.wizard_state;
    let unchanged = after == before && sa == sb && effects.len() == 0;
    if pressed(key, 'e', 'E') {
        preview_outcome(
            with_ws(before, StepWizardState { ecc_level: ws.ecc_level.spec_next(), ..ws }),
            after,
            sb,
            sa,
            effects,
            AfterPreview::EccToast,
        )
    } else if pressed(key, 'f', 'F') {
        &&& toasted(
            with_ws(before, StepWizardState { export_format: ws.export_format.spec_next(), ..ws }),
            after,
            "Format: "@ + ws.export_format.spec_next().label_text(),
            NotificationLevel::Info,
        )
        &&& sa == sb
        &&& effects.len() == 0
    } else if pressed(key, 'd', 'D') {
        preview_outcome(
            with_ws(before, StepWizardState { use_dynamic_qr: !ws.use_dynamic_qr, ..ws }),
            after,
            sb,
            sa,
            effects,
            AfterPreview::DynamicToast,
        )
    } else if pressed(key, 'q', 'Q') {
        preview_outcome(
            with_ws(before, StepWizardState { quiet_zone: !ws.quiet_zone, ..ws }),
            after,
            sb,
            sa,
            effects,
            AfterPreview::Nothing,
        )
    } else if pressed(key, 'b', 'B') {
        preview_outcome(
            with_ws(before, StepWizardState { transparent_bg: !ws.transparent_bg, ..ws }),
            after,
            sb,
            sa,
            effects,
            AfterPreview::Nothing,
        )
    } else if pressed(key, 'c', 'C') {
        &&& after == before
        &&& sa == sb
        &&& match ws.generated_item {
            Some(item) => effects.len() == 1 && (effects[0] matches Effect::CopyText { text, report }
                && text@ == item.encoded_text() && reports(
                report,
                "Link copied to system clipboard!"@,
                NotificationLevel::Success,
                "Failed to copy link to clipboard."@,
                NotificationLevel::Error,
            )),
            None => effects.len() == 0,
        }
    } else if pressed(key, 'i', 'I') {
        &&& after == before
        &&& sa == sb
        &&& match ws.generated_qr {
            Some(qr) => effects.len() == 1 && image_copy_of(effects[0], qr, before.config.theme) && (
            effects[0] matches Effect::CopyImage { image, report } && reports(
                report,
                "QR Image copied to system clipboard!"@,
                NotificationLevel::Success,
                "Failed to copy image to clipboard."@,
                NotificationLevel::Error,
            )),
            None => effects.len() == 0,
        }
    } else if key.code == KeyCode::Enter {
        after == with_ws(before, StepWizardState { step: WizardStep::Step4SaveOption, ..ws }) && sa == sb
            && effects.len() == 0
    } else if key.code == KeyCode::Esc {
        after == with_ws(before, StepWizardState { step: WizardStep::Step2Expiration, ..ws }) && sa
            == sb && effects.len() == 0
    } else {
        unchanged
    }
}

impl App {
    /// A key at the expiration menu (see `step2_outcome`).
    fn handle_step2_key(&mut self, store: &mut HistoryStore, key: KeyInput) -> (effects: Vec<Effect>)
        ensures
            step2_outcome(*old(self), *final(self), old(store)@, final(store)@, effects@, key),
    {
        match key.code {
            KeyCode::Char(c) => {
                let u = c as u32;
                if 49 <= u && u <= 55 {
                    self.wizard_state.selected_expiration_idx = (u - 49) as usize;
                    return self.generate_qr_preview(store, AfterPreview::ToPreview);
                } else if c == '8' {
                    self.wizard_state.selected_expiration_idx = 7;
                    self.wizard_state.step = WizardStep::Step2CustomInput;
                }
                Vec::new()
            },
            KeyCode::Up => {
                self.wizard_state.selected_expiration_idx = dec_exec(self.wizard_state.selected_expiration_idx);
                Vec::new()
            },
            KeyCode::Down => {
                self.wizard_state.selected_expiration_idx = inc_to_exec(
                    self.wizard_state.selected_expiration_idx,
                    7,
                );
                Vec::new()
            },
            KeyCode::Enter => {
                if self.wizard_state.selected_expiration_idx == 7 {
                    self.wizard_state.step = WizardStep::Step2CustomInput;
                    Vec::new()
                } else {
                    self.generate_qr_preview(store, AfterPreview::ToPreview)
                }
            },
            KeyCode::Esc => {
                self.wizard_state.step = WizardStep::Step1Input;
                Vec::new()
            },
            _ => Vec::new(),
        }
    }

    /// A key at the custom period (see `custom_outcome`).
    fn handle_custom_key(&mut self, store: &mut HistoryStore, key: KeyInput) -> (effects: Vec<Effect>)
        ensures
            custom_outcome(*old(self), *final(self), old(store)@, final(store)@, effects@, key),
    {
        match key.code {
            KeyCode::Char(c) => {
                if is_digit_char(c) {
                    self.wizard_state.custom_expiration_value = with_char(
                        self.wizard_state.custom_expiration_value.as_str(),
                        c,
                    );
                }
                Vec::new()
            },
            KeyCode::Backspace => {
                self.wizard_state.custom_expiration_value = without_last(
                    self.wizard_state.custom_expiration_value.as_str(),
                );
                Vec::new()
            },
            KeyCode::Left => {
                self.wizard_state.custom_expiration_unit_idx = dec_exec(
                    self.wizard_state.custom_expiration_unit_idx,
                );
                Vec::new()
            },
            KeyCode::Right => {
                self.wizard_state.custom_expiration_unit_idx = inc_to_exec(
                    self.wizard_state.custom_expiration_unit_idx,
                    4,
                );
                Vec::new()
            },
            KeyCode::Enter => self.generate_qr_preview(store, AfterPreview::ToPreview),
            KeyCode::Esc => {
                self.wizard_state.step = WizardStep::Step2Expiration;
                Vec::new()
            },
            _ => Vec::new(),
        }
    }

    /// A key at the preview (see `step3_outcome`).
    fn handle_step3_key(&mut self, store: &mut HistoryStore, key: KeyInput) -> (effects: Vec<Effect>)
        ensures
            step3_outcome(*old(self), *final(self), old(store)@, final(store)@, effects@, key),
    {
        match key.code {
            KeyCode::Char(c) => {
                if c == 'e' || c == 'E' {
                    self.wizard_state.ecc_level = self.wizard_state.ecc_level.next();
                    self.generate_qr_preview(store, AfterPreview::EccToast)
                } else if c == 'f' || c == 'F' {
                    self.wizard_state.export_format = self.wizard_state.export_format.next();
                    let label = self.wizard_state.export_format.label();
                    self.toast_with("Format: ", label, NotificationLevel::Info);
                    Vec::new()
                } else if c == 'd' || c == 'D' {
                    self.wizard_state.use_dynamic_qr = !self.wizard_state.use_dynamic_qr;
                    self.generate_qr_preview(store, AfterPreview::DynamicToast)
                } else if c == 'q' || c == 'Q' {
                    self.wizard_state.quiet_zone = !self.wizard_state.quiet_zone;
                    self.generate_qr_preview(store, AfterPreview::Nothing)
                } else if c == 'b' || c == 'B' {
                    self.wizard_state.transparent_bg = !self.wizard_state.transparent_bg;
                    self.generate_qr_preview(store, AfterPreview::Nothing)
                } else if c == 'c' || c == 'C' {
                    match &self.wizard_state.generated_item {
                        Some(item) => vec![
                            Effect::CopyText {
                                text: item.encoded_url().to_owned(),
                                report: Report {
                                    on_success: notice(
                                        "Link copied to system clipboard!",
                                        NotificationLevel::Success,
                                    ),
                                    on_failure: notice(
                                        "Failed to copy link to clipboard.",
                                        NotificationLevel::Error,
                                    ),
                                },
                            },
                        ],
                        None => Vec::new(),
                    }
                } else if c == 'i' || c == 'I' {
                    match &self.wizard_state.generated_qr {
                        Some(qr) => {
                            // The width's contract bounds the code's size, so the image fits.
                            qr.width();
                            proof {
                                lemma_clipboard_image_fits(*qr);
                            }
                            let img = QrGenerator::render_image(qr, 512, true, self.config.theme, false);
                            vec![
                                Effect::CopyImage {
                                    image: img,
                                    report: Report {
                                        on_success: notice(
                                            "QR Image copied to system clipboard!",
                                            NotificationLevel::Success,
                                        ),
                                        on_failure: notice(
                                            "Failed to copy image to clipboard.",
                                            NotificationLevel::Error,
                                        ),
                                    },
                                },
                            ]
                        },
                        None => Vec::new(),
                    }
                } else {
                    Vec::new()
                }
            },
            KeyCode::Enter => {
                self.wizard_state.step = WizardStep::Step4SaveOption;
                Vec::new()
            },
            KeyCode::Esc => {
                self.wizard_state.step = WizardStep::Step2Expiration;
                Vec::new()
            },
            _ => Vec::new(),
        }
    }
}

/// `name` is the file name a save uses: the typed one, or else the default
/// name for the format at some instant of the calendar.
pub open spec fn file_name_fits(ws: StepWizardState, name: Seq<char>) -> bool {
    if ws.custom_filename@.len() > 0 {
        name == ws.custom_filename@
    } else {
        exists|now: i64|
            0 <= now <= MAX_UTC_MILLIS && #[trigger] utc_format(now, file_pattern()) is Some && name
                == default_name(ws.export_format, utc_format(now, file_pattern()).unwrap())
    }
}

/// The effects of saving the wizard's code to `target`: one export with the
/// wizard's format, quiet zone and background and the configured size and
/// theme, provided there is a code; none otherwise.
pub open spec fn save_effects(a: App, effects: Seq<Effect>, target: Seq<char>) -> bool {
    let ws = a.wizard_state;
    if ws.generated_qr is Some && ws.generated_item is Some {
        effects.len() == 1 && (effects[0] matches Effect::SaveFile {
            path,
            format,
            target_size,
            quiet_zone,
            theme,
            transparent_bg,
        } && path@ == target && format == ws.export_format && target_size == a.config.default_qr_size
            && quiet_zone == ws.quiet_zone && theme == a.config.theme && transparent_bg
            == ws.transparent_bg)
    } else {
        effects.len() == 0
    }
}

/// A save request: the output folder is made sure of, then a file already
/// at the target opens the overwrite question, and otherwise the code is
/// saved there.
pub open spec fn save_requested(before: App, after: App, effects: Seq<Effect>) -> bool {
    exists|name: Seq<char>|
        #[trigger] file_name_fits(before.wizard_state, name) && {
            let target = joined_path(before.config.default_output_dir@, name);
            &&& effects.len() >= 1
            &&& effects[0] matches Effect::EnsureDir { path } && path@ == before.config.default_output_dir@
            &&& {
                ||| after == (App { active_modal: after.active_modal, ..before }) && (after.active_modal matches Some(
                    ModalDialog::ConfirmOverwrite { target_path },
                ) && target_path@ == target) && effects.len() == 1
                ||| after == before && save_effects(before, effects.skip(1), target)
            }
        }
}

/// A key at the save menu: S or Enter saves, P asks for a file name, C and
/// I copy the link and the image, O and R (or F) open or reveal the saved
/// file, Esc goes back.
pub open spec fn step4_outcome(before: App, after: App, effects: Seq<Effect>, key: KeyInput) -> bool {
    let ws = before.wizard_state;
    let unchanged = after == before && effects.len() == 0;
    if pressed(key, 's', 'S') || key.code == KeyCode::Enter {
        save_requested(before, after, effects)
    } else if pressed(key, 'p', 'P') {
        after == with_ws(before, StepWizardState { step: WizardStep::Step4CustomPathInput, ..ws })
            && effects.len() == 0
    } else if pressed(key, 'c', 'C') {
        match ws.generated_item {
            Some(item) => toasted(before, after, "Link copied to clipboard!"@, NotificationLevel::Success)
                && effects.len() == 1 && (effects[0] matches Effect::CopyText { text, report } && text@
                == item.encoded_text() && silent(report)),
            None => unchanged,
        }
    } else if pressed(key, 'i', 'I') {
        match ws.generated_qr {
            Some(qr) => toasted(before, after, "QR Image copied to clipboard!"@, NotificationLevel::Success)
                && effects.len() == 1 && image_copy_of(effects[0], qr, before.config.theme) && (
            effects[0] matches Effect::CopyImage { image, report } && silent(report)),
            None => unchanged,
        }
    } else if pressed(key, 'o', 'O') || pressed(key, 'r', 'R') || pressed(key, 'f', 'F') {
        match before.last_saved_file {
            Some(p) => after == before && effects.len() == 1 && if pressed(key, 'o', 'O') {
                effects[0] matches Effect::OpenFile { path, report } && path == p && reports(
                    report,
                    "Opened QR file in default viewer."@,
                    NotificationLevel::Info,
                    "Failed to open file."@,
                    NotificationLevel::Error,
                )
            } else {
                effects[0] matches Effect::RevealFile { path, report } && path == p && reports(
                    report,
                    "Revealed QR file in Finder."@,
                    NotificationLevel::Info,
                    "Failed to reveal file."@,
                    NotificationLevel::Error,
                )
            },
            None => toasted(before, after, "Please save the QR code first."@, NotificationLevel::Warning)
                && effects.len() == 0,
        }
    } else if key.code == KeyCode::Esc {
        after == with_ws(before, StepWizardState { step: WizardStep::Step3Preview, ..ws }) && effects.len()
            == 0
    } else {
        unchanged
    }
}

/// A key while typing a file name: characters and Backspace edit it, Enter
/// and Esc go back to the save menu.
pub open spec fn path_input_outcome(before: App, after: App, effects: Seq<Effect>, key: KeyInput) -> bool {
    let ws = before.wizard_state;
    let name_is = |t: Seq<char>|
        after == with_ws(before, StepWizardState { custom_filename: after.wizard_state.custom_filename, ..ws })
            && after.wizard_state.custom_filename@ == t && effects.len() == 0;
    match key.code {
        KeyCode::Char(c) => name_is(ws.custom_filename@.push(c)),
        KeyCode::Backspace => name_is(popped(ws.custom_filename@)),
        KeyCode::Enter | KeyCode::Esc => after == with_ws(
            before,
            StepWizardState { step: WizardStep::Step4SaveOption, ..ws },
        ) && effects.len() == 0,
        _ => after == before && effects.len() == 0,
    }
}

impl App {
    /// Asks for the wizard's code to be saved to `path`, if there is a code
    /// (see `save_effects`).
    pub fn perform_save_file(&mut self, path: String) -> (effects: Vec<Effect>)
        ensures
            *final(self) == *old(self),
            save_effects(*old(self), effects@, path@),
    {
        if self.wizard_state.generated_qr.is_some() && self.wizard_state.generated_item.is_some() {
            vec![
                Effect::SaveFile {
                    path,
                    format: self.wizard_state.export_format,
                    target_size: self.config.default_qr_size,
                    quiet_zone: self.wizard_state.quiet_zone,
                    theme: self.config.theme,
                    transparent_bg: self.wizard_state.transparent_bg,
                },
            ]
        } else {
            Vec::new()
        }
    }

    /// A save request (see `save_requested`).
    fn request_save(&mut self) -> (effects: Vec<Effect>)
        ensures
            save_requested(*old(self), *final(self), effects@),
    {
        let dir = self.config.default_output_dir.clone();
        let name = if self.wizard_state.custom_filename.as_str().is_empty() {
            FileOps::default_filename(self.wizard_state.export_format)
        } else {
            self.wizard_state.custom_filename.clone()
        };
        proof {
            assert(file_name_fits(self.wizard_state, name@));
        }
        let target = FileOps::join(dir.as_str(), name.as_str());
        let mut effects = vec![Effect::EnsureDir { path: dir }];
        if FileOps::path_exists(target.as_str()) {
            self.active_modal = Some(ModalDialog::ConfirmOverwrite { target_path: target });
        } else {
            let mut more = self.perform_save_file(target);
            let ghost rest = more@;
            effects.append(&mut more);
            proof {
                assert(effects@.skip(1) =~= rest);
            }
        }
        effects
    }

    /// A key at the save menu (see `step4_outcome`).
    fn handle_step4_key(&mut self, key: KeyInput) -> (effects: Vec<Effect>)
        ensures
            step4_outcome(*old(self), *final(self), effects@, key),
    {
        if key.code == KeyCode::Enter {
            return self.request_save();
        }
        if key.code == KeyCode::Esc {
            self.wizard_state.step = WizardStep::Step3Preview;
            return Vec::new();
        }
        let c = match key.code {
            KeyCode::Char(c) => c,
            _ => {
                return Vec::new();
            },
        };
        if c == 's' || c == 'S' {
            self.request_save()
        } else if c == 'p' || c == 'P' {
            self.wizard_state.step = WizardStep::Step4CustomPathInput;
            Vec::new()
        } else if c == 'c' || c == 'C' {
            match &self.wizard_state.generated_item {
                Some(item) => {
                    let text = item.encoded_url().to_owned();
                    self.toast("Link copied to clipboard!", NotificationLevel::Success);
                    vec![Effect::CopyText { text, report: Report { on_success: None, on_failure: None } }]
                },
                None => Vec::new(),
            }
        } else if c == 'i' || c == 'I' {
            match &self.wizard_state.generated_qr {
                Some(qr) => {
                    // The width's contract bounds the code's size, so the image fits.
                    qr.width();
                    proof {
                        lemma_clipboard_image_fits(*qr);
                    }
                    let img = QrGenerator::render_image(qr, 512, true, self.config.theme, false);
                    self.toast("QR Image copied to clipboard!", NotificationLevel::Success);
                    vec![
                        Effect::CopyImage {
                            image: img,
                            report: Report { on_success: None, on_failure: None },
                        },
                    ]
                },
                None => Vec::new(),
            }
        } else if c == 'o' || c == 'O' || c == 'r' || c == 'R' || c == 'f' || c == 'F' {
            match &self.last_saved_file {
                Some(p) => {
                    let path = p.clone();
                    if c == 'o' || c == 'O' {
                        vec![
                            Effect::OpenFile {
                                path,
                                report: Report {
                                    on_success: notice("Opened QR file in default viewer.", NotificationLevel::Info),
                                    on_failure: notice("Failed to open file.", NotificationLevel::Error),
                                },
                            },
                        ]
                    } else {
                        vec![
                            Effect::RevealFile {
                                path,
                                report: Report {
                                    on_success: notice("Revealed QR file in Finder.", NotificationLevel::Info),
                                    on_failure: notice("Failed to reveal file.", NotificationLevel::Error),
                                },
                            },
                        ]
                    }
                },
                None => {
                    self.toast("Please save the QR code first.", NotificationLevel::Warning);
                    Vec::new()
                },
            }
        } else {
            Vec::new()
        }
    }

    /// A key while typing a file name (see `path_input_outcome`).
    fn handle_path_input_key(&mut self, key: KeyInput) -> (effects: Vec<Effect>)
        ensures
            path_input_outcome(*old(self), *final(self), effects@, key),
    {
        match key.code {
            KeyCode::Char(c) => {
                self.wizard_state.custom_filename = with_char(self.wizard_state.custom_filename.as_str(), c);
            },
            KeyCode::Backspace => {
                self.wizard_state.custom_filename = without_last(self.wizard_state.custom_filename.as_str());
            },
            KeyCode::Enter | KeyCode::Esc => {
                self.wizard_state.step = WizardStep::Step4SaveOption;
            },
            _ => {},
        }
        Vec::new()
    }

    /// The outcome of saving the wizard's code to `path`: on success the
    /// file is remembered, the item is recorded with its path and a toast
    /// names the file; on failure a toast gives the error.
    pub fn file_saved(&mut self, store: &mut HistoryStore, path: &str, outcome: Result<(), String>) -> (effects: Vec<Effect>)
        ensures
            match outcome {
                Ok(_) => match old(self).wizard_state.generated_item {
                    Some(item) => {
                        &&& *final(self) == (App {
                            last_saved_file: final(self).last_saved_file,
                            current_toast: final(self).current_toast,
                            ..*old(self)
                        })
                        &&& final(self).last_saved_file matches Some(p) && p@ == path@
                        &&& toast_is(
                            final(self).current_toast,
                            "Saved QR to "@ + path_debug(
                                match final_component(path@) {
                                    Some(n) => n,
                                    None => Seq::<char>::empty(),
                                },
                            ),
                            NotificationLevel::Success,
                        )
                        &&& exists|g: QrItem|
                            #[trigger] added(old(store)@, g) == final(store)@ && g == (QrItem {
                                last_saved_path: g.last_saved_path,
                                ..item
                            }) && (g.last_saved_path matches Some(x) && x@ == path@)
                        &&& effects@ =~= seq![Effect::SaveHistory]
                    },
                    None => *final(self) == *old(self) && final(store)@ == old(store)@ && effects@.len() == 0,
                },
                Err(e) => {
                    &&& toasted(*old(self), *final(self), "Error saving file: "@ + e@, NotificationLevel::Error)
                    &&& final(store)@ == old(store)@
                    &&& effects@.len() == 0
                },
            },
    {
        match outcome {
            Ok(_) => {
                let saved = match &self.wizard_state.generated_item {
                    Some(item) => {
                        let mut s = item.duplicate();
                        s.last_saved_path = Some(path.to_owned());
                        s
                    },
                    None => {
                        return Vec::new();
                    },
                };
                let ghost g = saved;
                store.add(saved);
                self.last_saved_file = Some(path.to_owned());
                let name = FileOps::file_name(path);
                let shown = path_debug_text(name.as_str());
                self.toast_with("Saved QR to ", shown.as_str(), NotificationLevel::Success);
                proof {
                    assert(added(old(store)@, g) == store@);
                }
                vec![Effect::SaveHistory]
            },
            Err(e) => {
                self.toast_with("Error saving file: ", e.as_str(), NotificationLevel::Error);
                Vec::new()
            },
        }
    }
}

/// A key while a dialog is open: the overwrite question saves on Y or Enter
/// and cancels on N or Esc; the help closes on Esc, `?`, H or Enter.
pub open spec fn modal_outcome(before: App, after: App, effects: Seq<Effect>, key: KeyInput) -> bool {
    match before.active_modal {
        Some(ModalDialog::ConfirmOverwrite { target_path }) => if pressed(key, 'y', 'Y') || key.code
            == KeyCode::Enter {
            let mid = App { active_modal: None, ..before };
            after == mid && save_effects(mid, effects, target_path@)
        } else if pressed(key, 'n', 'N') || key.code == KeyCode::Esc {
            toasted(
                App { active_modal: None, ..before },
                after,
                "Save operation cancelled."@,
                NotificationLevel::Info,
            ) && effects.len() == 0
        } else {
            after == before && effects.len() == 0
        },
        Some(ModalDialog::HelpOverlay) => effects.len() == 0 && if key.code == KeyCode::Esc || pressed(
            key,
            '?',
            '?',
        ) || pressed(key, 'h', 'H') || key.code == KeyCode::Enter {
            after == (App { active_modal: None, ..before })
        } else {
            after == before
        },
        None => after == before && effects.len() == 0,
    }
}

/// A key in the History search box: Esc and Enter close it, Backspace and
/// characters edit the query.
pub open spec fn search_outcome(before: App, after: App, key: KeyInput) -> bool {
    let hs = before.history_state;
    let query_is = |t: Seq<char>|
        after == (App {
            history_state: HistoryViewState { search_query: after.history_state.search_query, ..hs },
            ..before
        }) && after.history_state.search_query@ == t;
    match key.code {
        KeyCode::Esc | KeyCode::Enter => after == (App {
            history_state: HistoryViewState { is_searching: false, ..hs },
            ..before
        }),
        KeyCode::Backspace => query_is(popped(hs.search_query@)),
        KeyCode::Char(c) => query_is(hs.search_query@.push(c)),
        _ => after == before,
    }
}

/// A key on the Wizard tab, by step.
pub open spec fn wizard_outcome(before: App, after: App, sb: Seq<QrItem>, sa: Seq<QrItem>, effects: Seq<Effect>, key: KeyInput) -> bool {
    match before.wizard_state.step {
        WizardStep::Step1Input => step1_outcome(before, after, effects, key) && sa == sb,
        WizardStep::Step2Expiration => step2_outcome(before, after, sb, sa, effects, key),
        WizardStep::Step2CustomInput => custom_outcome(before, after, sb, sa, effects, key),
        WizardStep::Step3Preview => step3_outcome(before, after, sb, sa, effects, key),
        WizardStep::Step4SaveOption => step4_outcome(before, after, effects, key) && sa == sb,
        WizardStep::Step4CustomPathInput => path_input_outcome(before, after, effects, key) && sa == sb,
    }
}

/// The global shortcuts, off while the wizard takes text: 1 to 5 pick a
/// tab, T moves to the next theme (saved, with a toast), `?` and H open
/// the help.
pub open spec fn shortcut_outcome(before: App, after: App, effects: Seq<Effect>, key: KeyInput) -> bool {
    let same = after == before && effects.len() == 0;
    if before.wizard_state.step.is_typing() {
        same
    } else {
        match key.code {
            KeyCode::Char(c) => if 49 <= (c as u32) <= 53 {
                after == (App {
                    active_tab: AppTab::spec_from_index(((c as u32) - 49) as nat),
                    ..before
                }) && effects.len() == 0
            } else if c == 't' || c == 'T' {
                let theme = before.config.theme.spec_next();
                &&& toasted(
                    App { config: AppConfig { theme, ..before.config }, ..before },
                    after,
                    "Theme changed to "@ + theme.name_text(),
                    NotificationLevel::Info,
                )
                &&& effects =~= seq![Effect::SaveConfig]
            } else if c == '?' || c == 'h' || c == 'H' {
                after == (App { active_modal: Some(ModalDialog::HelpOverlay), ..before }) && effects.len()
                    == 0
            } else {
                same
            },
            _ => same,
        }
    }
}

/// A key for the active tab.
pub open spec fn tab_outcome(before: App, after: App, sb: Seq<QrItem>, sa: Seq<QrItem>, effects: Seq<Effect>, key: KeyInput) -> bool {
    match before.active_tab {
        AppTab::Wizard => wizard_outcome(before, after, sb, sa, effects, key),
        AppTab::History => history_outcome(before, after, sb, sa, effects, key),
        AppTab::Batch => batch_outcome(before, after, effects, key) && sa == sb,
        AppTab::Server => sa == sb && if key.code == KeyCode::Char(' ') {
            server_toggled(before, after, effects)
        } else {
            after == before && effects.len() == 0
        },
        AppTab::Settings => config_outcome(before, after, effects, key) && sa == sb,
    }
}

/// What a key does, in order: Ctrl+C quits; an open dialog takes the key;
/// the History search box takes it while open; Tab and Shift+Tab move
/// between tabs; outside text boxes Q and Esc quit; otherwise the global
/// shortcuts apply and then the active tab's keys.
pub open spec fn key_outcome(before: App, after: App, sb: Seq<QrItem>, sa: Seq<QrItem>, effects: Seq<Effect>, key: KeyInput) -> bool {
    if key.ctrl && key.code == KeyCode::Char('c') {
        after == (App { should_quit: true, ..before }) && sa == sb && effects.len() == 0
    } else if before.active_modal is Some {
        modal_outcome(before, after, effects, key) && sa == sb
    } else if before.active_tab == AppTab::History && before.history_state.is_searching {
        search_outcome(before, after, key) && sa == sb && effects.len() == 0
    } else if key.code == KeyCode::Tab {
        after == (App { active_tab: before.active_tab.spec_after(), ..before }) && sa == sb
            && effects.len() == 0
    } else if key.code == KeyCode::BackTab {
        after == (App { active_tab: before.active_tab.spec_before(), ..before }) && sa == sb
            && effects.len() == 0
    } else if !before.wizard_state.step.is_typing() && (pressed(key, 'q', 'Q') || key.code
        == KeyCode::Esc) {
        after == (App { should_quit: true, ..before }) && sa == sb && effects.len() == 0
    } else {
        exists|mid: App, e1: Seq<Effect>, e2: Seq<Effect>|
            #![trigger shortcut_outcome(before, mid, e1, key), tab_outcome(mid, after, sb, sa, e2, key)]
            shortcut_outcome(before, mid, e1, key) && tab_outcome(mid, after, sb, sa, e2, key)
                && effects == e1 + e2
    }
}

impl App {
    /// A key while a dialog is open (see `modal_outcome`).
    fn handle_modal_key(&mut self, key: KeyInput) -> (effects: Vec<Effect>)
        ensures
            modal_outcome(*old(self), *final(self), effects@, key),
    {
        let target = match &self.active_modal {
            Some(ModalDialog::ConfirmOverwrite { target_path }) => Some(target_path.clone()),
            Some(ModalDialog::HelpOverlay) => None,
            None => {
                return Vec::new();
            },
        };
        match target {
            Some(t) => {
                if key.code == KeyCode::Enter || key.code == KeyCode::Char('y') || key.code
                    == KeyCode::Char('Y') {
                    self.active_modal = None;
                    self.perform_save_file(t)
                } else if key.code == KeyCode::Esc || key.code == KeyCode::Char('n') || key.code
                    == KeyCode::Char('N') {
                    self.active_modal = None;
                    self.toast("Save operation cancelled.", NotificationLevel::Info);
                    Vec::new()
                } else {
                    Vec::new()
                }
            },
            None => {
                if key.code == KeyCode::Esc || key.code == KeyCode::Char('?') || key.code
                    == KeyCode::Char('h') || key.code == KeyCode::Char('H') || key.code
                    == KeyCode::Enter {
                    self.active_modal = None;
                }
                Vec::new()
            },
        }
    }

    /// A key in the History search box (see `search_outcome`).
    fn handle_search_key(&mut self, key: KeyInput)
        ensures
            search_outcome(*old(self), *final(self), key),
    {
        match key.code {
            KeyCode::Esc | KeyCode::Enter => {
                self.history_state.is_searching = false;
            },
            KeyCode::Backspace => {
                self.history_state.search_query = without_last(self.history_state.search_query.as_str());
            },
            KeyCode::Char(c) => {
                self.history_state.search_query = with_char(self.history_state.search_query.as_str(), c);
            },
            _ => {},
        }
    }

    /// A key on the Wizard tab, by step.
    pub fn handle_wizard_key(&mut self, store: &mut HistoryStore, key: KeyInput) -> (effects: Vec<Effect>)
        requires
            old(self).wizard_state.target_mode_idx <= 1,
        ensures
            wizard_outcome(*old(self), *final(self), old(store)@, final(store)@, effects@, key),
    {
        match self.wizard_state.step {
            WizardStep::Step1Input => self.handle_step1_key(key),
            WizardStep::Step2Expiration => self.handle_step2_key(store, key),
            WizardStep::Step2CustomInput => self.handle_custom_key(store, key),
            WizardStep::Step3Preview => self.handle_step3_key(store, key),
            WizardStep::Step4SaveOption => self.handle_step4_key(key),
            WizardStep::Step4CustomPathInput => self.handle_path_input_key(key),
        }
    }

    /// Whether the wizard takes text, which turns the global shortcuts off.
    fn typing(&self) -> (r: bool)
        ensures
            r == self.wizard_state.step.is_typing(),
    {
        match self.wizard_state.step {
            WizardStep::Step1Input | WizardStep::Step2CustomInput | WizardStep::Step4CustomPathInput => true,
            _ => false,
        }
    }

    /// The global shortcuts (see `shortcut_outcome`).
    fn apply_shortcut(&mut self, key: KeyInput) -> (effects: Vec<Effect>)
        ensures
            shortcut_outcome(*old(self), *final(self), effects@, key),
    {
        if self.typing() {
            return Vec::new();
        }
        match key.code {
            KeyCode::Char(c) => {
                let u = c as u32;
                if 49 <= u && u <= 53 {
                    self.active_tab = AppTab::from_index((u - 49) as usize);
                    Vec::new()
                } else if c == 't' || c == 'T' {
                    self.config.theme = self.config.theme.next();
                    let name = self.config.theme.name();
                    self.toast_with("Theme changed to ", name, NotificationLevel::Info);
                    vec![Effect::SaveConfig]
                } else if c == '?' || c == 'h' || c == 'H' {
                    self.active_modal = Some(ModalDialog::HelpOverlay);
                    Vec::new()
                } else {
                    Vec::new()
                }
            },
            _ => Vec::new(),
        }
    }

    /// A key for the active tab (see `tab_outcome`).
    fn handle_tab_key(&mut self, store: &mut HistoryStore, key: KeyInput) -> (effects: Vec<Effect>)
        requires
            old(self).wizard_state.target_mode_idx <= 1,
        ensures
            tab_outcome(*old(self), *final(self), old(store)@, final(store)@, effects@, key),
    {
        match self.active_tab {
            AppTab::Wizard => self.handle_wizard_key(store, key),
            AppTab::History => self.handle_history_key(store, key),
            AppTab::Batch => self.handle_batch_key(key),
            AppTab::Server => {
                if key.code == KeyCode::Char(' ') {
                    self.toggle_server()
                } else {
                    Vec::new()
                }
            },
            AppTab::Settings => self.handle_config_key(key),
        }
    }

    /// What a key does (see `key_outcome`). The first step's mode is 0 (URL)
    /// or 1 (photo).
    pub fn handle_key_event(&mut self, store: &mut HistoryStore, key: KeyInput) -> (effects: Vec<Effect>)
        requires
            old(self).wizard_state.target_mode_idx <= 1,
        ensures
            key_outcome(*old(self), *final(self), old(store)@, final(store)@, effects@, key),
    {
        if key.ctrl && key.code == KeyCode::Char('c') {
            self.should_quit = true;
            return Vec::new();
        }
        if self.active_modal.is_some() {
            return self.handle_modal_key(key);
        }
        if self.active_tab == AppTab::History && self.history_state.is_searching {
            self.handle_search_key(key);
            return Vec::new();
        }
        if key.code == KeyCode::Tab {
            self.active_tab = self.active_tab.after();
            return Vec::new();
        }
        if key.code == KeyCode::BackTab {
            self.active_tab = self.active_tab.before();
            return Vec::new();
        }
        if !self.typing() && (key.code == KeyCode::Char('q') || key.code == KeyCode::Char('Q')
            || key.code == KeyCode::Esc) {
            self.should_quit = true;
            return Vec::new();
        }
        let ghost before = *self;
        let mut effects = self.apply_shortcut(key);
        let ghost mid = *self;
        let ghost e1 = effects@;
        let mut more = self.handle_tab_key(store, key);
        let ghost e2 = more@;
        effects.append(&mut more);
        proof {
            assert(effects@ =~= e1 + e2);
            assert(shortcut_outcome(before, mid, e1, key));
            assert(tab_outcome(mid, *self, old(store)@, store@, e2, key));
        }
        effects
    }
}
/// Ctrl+C always quits at once, whatever is on screen, and touches nothing
/// else.
pub proof fn law_ctrl_c_quits(before: App, after: App, sb: Seq<QrItem>, sa: Seq<QrItem>, effects: Seq<Effect>, key: KeyInput)
    requires
        key.ctrl && key.code == KeyCode::Char('c'),
        key_outcome(before, after, sb, sa, effects, key),
    ensures
        after == (App { should_quit: true, ..before }),
        sa == sb,
        effects.len() == 0,
{
}

/// Shift+Tab undoes Tab: outside dialogs and the search box, Tab then
/// Shift+Tab gives back the state it started from, history untouched.
pub proof fn law_tab_then_back(
    a: App,
    b: App,
    c: App,
    s0: Seq<QrItem>,
    s1: Seq<QrItem>,
    s2: Seq<QrItem>,
    e1: Seq<Effect>,
    e2: Seq<Effect>,
    k1: KeyInput,
    k2: KeyInput,
)
    requires
        a.active_modal is None,
        !a.history_state.is_searching,
        k1.code == KeyCode::Tab && !k1.ctrl,
        k2.code == KeyCode::BackTab && !k2.ctrl,
        key_outcome(a, b, s0, s1, e1, k1),
        key_outcome(b, c, s1, s2, e2, k2),
    ensures
        c == a,
        s2 == s0,
        e1.len() == 0 && e2.len() == 0,
{
    crate::ui::tabs::law_tab_cycle(a.active_tab);
}

/// At the first step, with no dialog open, a key goes to the first step's
/// handler.
proof fn lemma_first_step_key(a: App, b: App, s0: Seq<QrItem>, s1: Seq<QrItem>, e: Seq<Effect>, key: KeyInput)
    requires
        a.active_modal is None,
        a.active_tab == AppTab::Wizard,
        a.wizard_state.step == WizardStep::Step1Input,
        key.code == KeyCode::Up || key.code == KeyCode::Down,
        key_outcome(a, b, s0, s1, e, key),
    ensures
        step1_outcome(a, b, e, key),
        s1 == s0,
{
    let (m, x, y) = choose|mid: App, ea: Seq<Effect>, eb: Seq<Effect>|
        #![trigger shortcut_outcome(a, mid, ea, key), tab_outcome(mid, b, s0, s1, eb, key)]
        shortcut_outcome(a, mid, ea, key) && tab_outcome(mid, b, s0, s1, eb, key) && e == ea + eb;
    assert(m == a && x.len() == 0);
    assert(e =~= y);
}

/// Up or Down at the first step switches between URL and photo input, so
/// that two presses give back the state they started from.
pub proof fn law_mode_switch_twice(
    a: App,
    b: App,
    c: App,
    s0: Seq<QrItem>,
    s1: Seq<QrItem>,
    s2: Seq<QrItem>,
    e1: Seq<Effect>,
    e2: Seq<Effect>,
    key: KeyInput,
)
    requires
        a.active_modal is None,
        a.active_tab == AppTab::Wizard,
        a.wizard_state.step == WizardStep::Step1Input,
        a.wizard_state.target_mode_idx <= 1,
        key.code == KeyCode::Up || key.code == KeyCode::Down,
        key_outcome(a, b, s0, s1, e1, key),
        key_outcome(b, c, s1, s2, e2, key),
    ensures
        b.wizard_state.target_mode_idx == 1 - a.wizard_state.target_mode_idx,
        c == a,
        s2 == s0,
        e1.len() == 0 && e2.len() == 0,
{
    lemma_first_step_key(a, b, s0, s1, e1, key);
    lemma_first_step_key(b, c, s1, s2, e2, key);
}

/// A preview leaves the first step's mode and the chosen period as they
/// were.
proof fn lemma_preview_keeps_mode(before: App, after: App, sb: Seq<QrItem>, sa: Seq<QrItem>, effects: Seq<Effect>, follow: AfterPreview)
    requires
        preview_outcome(before, after, sb, sa, effects, follow),
    ensures
        after.wizard_state.target_mode_idx == before.wizard_state.target_mode_idx,
        after.wizard_state.selected_expiration_idx == before.wizard_state.selected_expiration_idx,
        after.wizard_state.custom_expiration_unit_idx == before.wizard_state.custom_expiration_unit_idx,
        after.wizard_state.custom_expiration_value == before.wizard_state.custom_expiration_value,
{
    let ws = before.wizard_state;
    if ws.target_mode_idx == 0 && validation(ws.url_input@) is Err {
    } else {
        let now = choose|now: int|
            0 <= now <= MAX_UTC_MILLIS && #[trigger] preview_at(before, after, sb, sa, effects, follow, now);
        assert(preview_at(before, after, sb, sa, effects, follow, now));
        if !chosen_expiration(ws).fits_at(now) {
        } else if ws.use_dynamic_qr && !before.server_running {
        } else {
            let item = choose|item: QrItem|
                item_fits(item, ws, before.home, now) && #[trigger] made_then(before, after, sb, sa, effects, item, follow);
            assert(made_then(before, after, sb, sa, effects, item, follow));
        }
    }
}

/// A key for the active tab leaves the first step's mode 0 or 1.
proof fn lemma_tab_keeps_mode(before: App, after: App, sb: Seq<QrItem>, sa: Seq<QrItem>, effects: Seq<Effect>, key: KeyInput)
    requires
        before.wizard_state.target_mode_idx <= 1,
        tab_outcome(before, after, sb, sa, effects, key),
    ensures
        after.wizard_state.target_mode_idx <= 1,
{
    let ws = before.wizard_state;
    if before.active_tab == AppTab::Wizard {
        match ws.step {
            WizardStep::Step1Input => {
                if let KeyCode::Char(c) = key.code {
                    if !((key.ctrl || key.super_key) && key.code == KeyCode::Char('v')) {
                        let (mid, ok) = choose|mid: App, ok: bool|
                            input_edited(before, mid, current_input(ws).push(c)) && #[trigger] step1_checked(mid, after, ok);
                        assert(step1_checked(mid, after, ok));
                    }
                } else if key.code == KeyCode::Backspace {
                    let (mid, ok) = choose|mid: App, ok: bool|
                        input_edited(before, mid, popped(current_input(ws))) && #[trigger] step1_checked(mid, after, ok);
                    assert(step1_checked(mid, after, ok));
                } else if key.code == KeyCode::Enter {
                    let (mid, ok) = choose|mid: App, ok: bool| #[trigger] step1_checked(before, mid, ok) && if ok {
                        after == with_ws(mid, StepWizardState { step: WizardStep::Step2Expiration, ..mid.wizard_state })
                    } else {
                        toasted(mid, after, step1_refusal(ws.target_mode_idx), NotificationLevel::Error)
                    };
                    assert(step1_checked(before, mid, ok));
                }
            },
            WizardStep::Step2Expiration => {
                if let KeyCode::Char(c) = key.code {
                    if 49 <= (c as u32) <= 55 {
                        lemma_preview_keeps_mode(
                            with_ws(before, StepWizardState { selected_expiration_idx: ((c as u32) - 49) as usize, ..ws }),
                            after, sb, sa, effects, AfterPreview::ToPreview);
                    }
                } else if key.code == KeyCode::Enter && ws.selected_expiration_idx != 7 {
                    lemma_preview_keeps_mode(before, after, sb, sa, effects, AfterPreview::ToPreview);
                }
            },
            WizardStep::Step2CustomInput => {
                if key.code == KeyCode::Enter {
                    lemma_preview_keeps_mode(before, after, sb, sa, effects, AfterPreview::ToPreview);
                }
            },
            WizardStep::Step3Preview => {
                if pressed(key, 'e', 'E') {
                    lemma_preview_keeps_mode(
                        with_ws(before, StepWizardState { ecc_level: ws.ecc_level.spec_next(), ..ws }),
                        after, sb, sa, effects, AfterPreview::EccToast);
                } else if pressed(key, 'f', 'F') {
                } else if pressed(key, 'd', 'D') {
                    lemma_preview_keeps_mode(
                        with_ws(before, StepWizardState { use_dynamic_qr: !ws.use_dynamic_qr, ..ws }),
                        after, sb, sa, effects, AfterPreview::DynamicToast);
                } else if pressed(key, 'q', 'Q') {
                    lemma_preview_keeps_mode(
                        with_ws(before, StepWizardState { quiet_zone: !ws.quiet_zone, ..ws }),
                        after, sb, sa, effects, AfterPreview::Nothing);
                } else if pressed(key, 'b', 'B') {
                    lemma_preview_keeps_mode(
                        with_ws(before, StepWizardState { transparent_bg: !ws.transparent_bg, ..ws }),
                        after, sb, sa, effects, AfterPreview::Nothing);
                }
            },
            WizardStep::Step4SaveOption => {
                if pressed(key, 's', 'S') || key.code == KeyCode::Enter {
                    let name = choose|name: Seq<char>| #[trigger] file_name_fits(ws, name) && {
                        let target = joined_path(before.config.default_output_dir@, name);
                        &&& effects.len() >= 1
                        &&& effects[0] matches Effect::EnsureDir { path } && path@ == before.config.default_output_dir@
                        &&& {
                            ||| after == (App { active_modal: after.active_modal, ..before }) && (after.active_modal matches Some(
                                ModalDialog::ConfirmOverwrite { target_path },
                            ) && target_path@ == target) && effects.len() == 1
                            ||| after == before && save_effects(before, effects.skip(1), target)
                        }
                    };
                    assert(file_name_fits(ws, name));
                }
            },
            WizardStep::Step4CustomPathInput => {},
        }
    }
}

/// The wizard's choices within what its menus offer: one of the eight
/// expiration entries, one of the five custom units, URL or photo input, and
/// a typed custom period of digits only.
pub open spec fn wizard_in_range(ws: StepWizardState) -> bool {
    &&& ws.selected_expiration_idx <= 7
    &&& ws.custom_expiration_unit_idx <= 4
    &&& ws.target_mode_idx <= 1
    &&& all_digits(ws.custom_expiration_value@)
}

/// A key for the active tab keeps the wizard's choices in range.
proof fn lemma_tab_keeps_range(before: App, after: App, sb: Seq<QrItem>, sa: Seq<QrItem>, effects: Seq<Effect>, key: KeyInput)
    requires
        wizard_in_range(before.wizard_state),
        tab_outcome(before, after, sb, sa, effects, key),
    ensures
        wizard_in_range(after.wizard_state),
{
    let ws = before.wizard_state;
    if before.active_tab == AppTab::Wizard {
        match ws.step {
            WizardStep::Step1Input => {
                if let KeyCode::Char(c) = key.code {
                    if !((key.ctrl || key.super_key) && key.code == KeyCode::Char('v')) {
                        let (mid, ok) = choose|mid: App, ok: bool|
                            input_edited(before, mid, current_input(ws).push(c)) && #[trigger] step1_checked(mid, after, ok);
                        assert(step1_checked(mid, after, ok));
                    }
                } else if key.code == KeyCode::Backspace {
                    let (mid, ok) = choose|mid: App, ok: bool|
                        input_edited(before, mid, popped(current_input(ws))) && #[trigger] step1_checked(mid, after, ok);
                    assert(step1_checked(mid, after, ok));
                } else if key.code == KeyCode::Enter {
                    let (mid, ok) = choose|mid: App, ok: bool| #[trigger] step1_checked(before, mid, ok) && if ok {
                        after == with_ws(mid, StepWizardState { step: WizardStep::Step2Expiration, ..mid.wizard_state })
                    } else {
                        toasted(mid, after, step1_refusal(ws.target_mode_idx), NotificationLevel::Error)
                    };
                    assert(step1_checked(before, mid, ok));
                }
            },
            WizardStep::Step2Expiration => {
                if let KeyCode::Char(c) = key.code {
                    if 49 <= (c as u32) <= 55 {
                        lemma_preview_keeps_mode(
                            with_ws(before, StepWizardState { selected_expiration_idx: ((c as u32) - 49) as usize, ..ws }),
                            after, sb, sa, effects, AfterPreview::ToPreview);
                    }
                } else if key.code == KeyCode::Enter && ws.selected_expiration_idx != 7 {
                    lemma_preview_keeps_mode(before, after, sb, sa, effects, AfterPreview::ToPreview);
                }
            },
            WizardStep::Step2CustomInput => {
                if key.code == KeyCode::Enter {
                    lemma_preview_keeps_mode(before, after, sb, sa, effects, AfterPreview::ToPreview);
                }
            },
            WizardStep::Step3Preview => {
                if pressed(key, 'e', 'E') {
                    lemma_preview_keeps_mode(
                        with_ws(before, StepWizardState { ecc_level: ws.ecc_level.spec_next(), ..ws }),
                        after, sb, sa, effects, AfterPreview::EccToast);
                } else if pressed(key, 'f', 'F') {
                } else if pressed(key, 'd', 'D') {
                    lemma_preview_keeps_mode(
                        with_ws(before, StepWizardState { use_dynamic_qr: !ws.use_dynamic_qr, ..ws }),
                        after, sb, sa, effects, AfterPreview::DynamicToast);
                } else if pressed(key, 'q', 'Q') {
                    lemma_preview_keeps_mode(
                        with_ws(before, StepWizardState { quiet_zone: !ws.quiet_zone, ..ws }),
                        after, sb, sa, effects, AfterPreview::Nothing);
                } else if pressed(key, 'b', 'B') {
                    lemma_preview_keeps_mode(
                        with_ws(before, StepWizardState { transparent_bg: !ws.transparent_bg, ..ws }),
                        after, sb, sa, effects, AfterPreview::Nothing);
                }
            },
            WizardStep::Step4SaveOption => {
                if pressed(key, 's', 'S') || key.code == KeyCode::Enter {
                    let name = choose|name: Seq<char>| #[trigger] file_name_fits(ws, name) && {
                        let target = joined_path(before.config.default_output_dir@, name);
                        &&& effects.len() >= 1
                        &&& effects[0] matches Effect::EnsureDir { path } && path@ == before.config.default_output_dir@
                        &&& {
                            ||| after == (App { active_modal: after.active_modal, ..before }) && (after.active_modal matches Some(
                                ModalDialog::ConfirmOverwrite { target_path },
                            ) && target_path@ == target) && effects.len() == 1
                            ||| after == before && save_effects(before, effects.skip(1), target)
                        }
                    };
                    assert(file_name_fits(ws, name));
                }
            },
            WizardStep::Step4CustomPathInput => {},
        }
    }
}

/// Every key keeps the wizard's choices in range: the expiration entry at
/// most 7, the custom unit at most 4, the input mode 0 or 1 and the custom
/// period all digits. At the first step, Up and Down switch the input mode.
pub proof fn law_wizard_stays_in_range(before: App, after: App, sb: Seq<QrItem>, sa: Seq<QrItem>, effects: Seq<Effect>, key: KeyInput)
    requires
        wizard_in_range(before.wizard_state),
        key_outcome(before, after, sb, sa, effects, key),
    ensures
        wizard_in_range(after.wizard_state),
        before.active_modal is None && before.active_tab == AppTab::Wizard
            && before.wizard_state.step == WizardStep::Step1Input && (key.code == KeyCode::Up
            || key.code == KeyCode::Down) ==> after.wizard_state.target_mode_idx == 1
            - before.wizard_state.target_mode_idx,
{
    if before.active_modal is None && before.active_tab == AppTab::Wizard
        && before.wizard_state.step == WizardStep::Step1Input && (key.code == KeyCode::Up
        || key.code == KeyCode::Down) {
        lemma_first_step_key(before, after, sb, sa, effects, key);
    }
    if key.ctrl && key.code == KeyCode::Char('c') {
    } else if before.active_modal is Some {
    } else if before.active_tab == AppTab::History && before.history_state.is_searching {
    } else if key.code == KeyCode::Tab || key.code == KeyCode::BackTab {
    } else if !before.wizard_state.step.is_typing() && (pressed(key, 'q', 'Q') || key.code == KeyCode::Esc) {
    } else {
        let (m, x, y) = choose|mid: App, ea: Seq<Effect>, eb: Seq<Effect>|
            #![trigger shortcut_outcome(before, mid, ea, key), tab_outcome(mid, after, sb, sa, eb, key)]
            shortcut_outcome(before, mid, ea, key) && tab_outcome(mid, after, sb, sa, eb, key) && effects == ea + eb;
        assert(m.wizard_state == before.wizard_state);
        lemma_tab_keeps_range(m, after, sb, sa, y, key);
    }
}

/// Every key leaves the first step's mode 0 (URL) or 1 (photo), as
/// `handle_key_event` asks of the state it is given.
pub proof fn law_mode_stays_binary(before: App, after: App, sb: Seq<QrItem>, sa: Seq<QrItem>, effects: Seq<Effect>, key: KeyInput)
    requires
        before.wizard_state.target_mode_idx <= 1,
        key_outcome(before, after, sb, sa, effects, key),
    ensures
        after.wizard_state.target_mode_idx <= 1,
{
    if key.ctrl && key.code == KeyCode::Char('c') {
    } else if before.active_modal is Some {
    } else if before.active_tab == AppTab::History && before.history_state.is_searching {
    } else if key.code == KeyCode::Tab || key.code == KeyCode::BackTab {
    } else if !before.wizard_state.step.is_typing() && (pressed(key, 'q', 'Q') || key.code == KeyCode::Esc) {
    } else {
        let (m, x, y) = choose|mid: App, ea: Seq<Effect>, eb: Seq<Effect>|
            #![trigger shortcut_outcome(before, mid, ea, key), tab_outcome(mid, after, sb, sa, eb, key)]
            shortcut_outcome(before, mid, ea, key) && tab_outcome(mid, after, sb, sa, eb, key) && effects == ea + eb;
        assert(m.wizard_state.target_mode_idx == before.wizard_state.target_mode_idx);
        lemma_tab_keeps_mode(m, after, sb, sa, y, key);
    }
}

/// The server never closes itself while a redirect link is live: a
/// periodic check with some unexpired redirect link at `now` leaves a
/// running server running and asks for nothing.
pub proof fn law_live_link_keeps_server(
    before: App,
    after: App,
    effects: Seq<Effect>,
    store: Seq<QrItem>,
    now: int,
    done: bool,
)
    requires
        ticked(before, after, effects, store, now, done),
        before.server_running,
        has_live_dynamic(store, now),
    ensures
        after.server_running,
        effects.len() == 0,
{
}

/// The server closes itself once its links have run out: with redirect
/// links and all of them expired at `now`, a periodic check stops a running
/// server and says so.
pub proof fn law_expired_links_stop_server(
    before: App,
    after: App,
    effects: Seq<Effect>,
    store: Seq<QrItem>,
    now: int,
    done: bool,
)
    requires
        ticked(before, after, effects, store, now, done),
        before.server_running,
        has_dynamic(store),
        forall|i: int|
            0 <= i < store.len() && (#[trigger] store[i]).dynamic_url is Some ==> expired_at(
                store[i].expiration_time,
                now,
            ),
    ensures
        !after.server_running,
        effects =~= seq![Effect::StopServer],
{
}

} // verus!
