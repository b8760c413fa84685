//! The state of the four-step wizard that makes one QR code.
use vstd::prelude::*;

use crate::generator::qr::QrMatrix;
use crate::models::qr_item::{EccLevel, ExportFormat, QrItem};

verus! {

/// The step the wizard stands at.
#[derive(Debug, Clone, Copy, PartialEq, Eq, Structural)]
pub enum WizardStep {
    /// Typing the URL or the photo path.
    Step1Input,
    /// Choosing an expiration preset.
    Step2Expiration,
    /// Typing a custom expiration.
    Step2CustomInput,
    /// Looking at the preview and its options.
    Step3Preview,
    /// Choosing what to do with the code.
    Step4SaveOption,
    /// Typing a file name.
    Step4CustomPathInput,
}

impl WizardStep {
    /// A step where keys go into a text box, so that the global shortcuts
    /// stay off.
    pub open spec fn is_typing(self) -> bool {
        self == WizardStep::Step1Input || self == WizardStep::Step2CustomInput || self
            == WizardStep::Step4CustomPathInput
    }
}

/// The wizard's inputs, choices and last preview.
pub struct StepWizardState {
    pub step: WizardStep,
    /// 0 for a URL, 1 for a photo file.
    pub target_mode_idx: usize,
    pub url_input: String,
    pub photo_path_input: String,
    pub input_validation_error: Option<String>,
    /// 0 to 6 for the presets, 7 for a custom period.
    pub selected_expiration_idx: usize,
    pub custom_expiration_value: String,
    /// 0 to 4: minutes, hours, days, weeks, months.
    pub custom_expiration_unit_idx: usize,
    pub ecc_level: EccLevel,
    pub export_format: ExportFormat,
    pub use_dynamic_qr: bool,
    pub custom_filename: String,
    pub generated_qr: Option<QrMatrix>,
    pub generated_item: Option<QrItem>,
    pub qr_unicode_preview: String,
    pub quiet_zone: bool,
    pub transparent_bg: bool,
    pub target_size: u32,
}

impl Default for StepWizardState {
    fn default() -> (r: StepWizardState)
        ensures
            r.step == WizardStep::Step1Input,
            r.target_mode_idx == 0,
            r.url_input@ == Seq::<char>::empty(),
            r.photo_path_input@ == Seq::<char>::empty(),
            r.input_validation_error is None,
            r.selected_expiration_idx == 2,
            r.custom_expiration_value@ == "45"@,
            r.custom_expiration_unit_idx == 0,
            r.ecc_level == EccLevel::Medium,
            r.export_format == ExportFormat::Png,
            r.use_dynamic_qr,
            r.custom_filename@ == Seq::<char>::empty(),
            r.generated_qr is None,
            r.generated_item is None,
            r.qr_unicode_preview@ == Seq::<char>::empty(),
            r.quiet_zone,
            !r.transparent_bg,
            r.target_size == 512,
    {
        StepWizardState {
            step: WizardStep::Step1Input,
            target_mode_idx: 0,
            url_input: String::new(),
            photo_path_input: String::new(),
            input_validation_error: None,
            selected_expiration_idx: 2,
            custom_expiration_value: "45".to_owned(),
            custom_expiration_unit_idx: 0,
            ecc_level: EccLevel::Medium,
            export_format: ExportFormat::Png,
            use_dynamic_qr: true,
            custom_filename: String::new(),
            generated_qr: None,
            generated_item: None,
            qr_unicode_preview: String::new(),
            quiet_zone: true,
            transparent_bg: false,
            target_size: 512,
        }
    }
}

} // verus!
