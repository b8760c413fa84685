//! The modal dialogs that can stand over the interface.
use vstd::prelude::*;

verus! {

/// A dialog that takes every key until it is closed.
#[derive(Debug)]
pub enum ModalDialog {
    /// Asks before a save replaces the file at `target_path`.
    ConfirmOverwrite { target_path: String },
    /// The keyboard help.
    HelpOverlay,
}

} // verus!
