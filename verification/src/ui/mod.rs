//! The interactive terminal interface: its state and the decisions taken on
//! each key. Drawing and the terminal itself are the application's business.
pub mod app;
pub mod dialogs;
pub mod keys;
pub mod notification;
pub mod tabs;
pub mod views;
pub mod wizard;

pub use app::{App, Effect, Report};
pub use dialogs::ModalDialog;
pub use keys::{KeyCode, KeyInput};
pub use notification::{NotificationLevel, ToastNotification};
pub use tabs::AppTab;
pub use views::{BatchViewState, ConfigViewState, HistoryViewState};
pub use wizard::{StepWizardState, WizardStep};
