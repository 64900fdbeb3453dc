//! The settings record and the policy that a record is held to before it
//! is saved.

use vstd::prelude::*;
use vstd::string::StringExecFns;
use crate::text::same_text;
use crate::request::{
    check_dimension,
    check_guidance,
    check_steps,
    dimension_in_bounds,
    guidance_in_bounds,
    steps_in_bounds,
    DEFAULT_DIMENSION,
    DEFAULT_GUIDANCE_BITS,
    DEFAULT_STEPS,
};

verus! {

/// What was found at a path when the file system was asked.
#[derive(Debug)]
pub struct FileProbe {
    /// Whether a file stands at the path.
    pub exists: bool,
    /// The extension of the file's name, without the dot, where it has one.
    pub extension: Option<String>,
}

/// A probe as the contracts see it.
pub struct FileProbeView {
    pub exists: bool,
    pub extension: Option<Seq<char>>,
}

impl View for FileProbe {
    type V = FileProbeView;

    open spec fn view(&self) -> FileProbeView {
        FileProbeView {
            exists: self.exists,
            extension: match self.extension {
                Some(e) => Some(e@),
                None => None,
            },
        }
    }
}

/// The extension that the name of a model file ends with.
pub open spec fn model_extension() -> Seq<char> {
    "tdict"@
}

impl FileProbeView {
    /// Whether the name of the file carries the extension of model files.
    pub open spec fn is_model_file(self) -> bool {
        self.extension == Some(model_extension())
    }
}

impl FileProbe {
    /// Decides whether the name of the file carries the extension of model
    /// files.
    pub fn has_model_extension(&self) -> (yes: bool)
        ensures
            yes == self@.is_model_file(),
    {
        match &self.extension {
            Some(e) => same_text(e.as_str(), "tdict"),
            None => false,
        }
    }
}

/// The defaults of new requests, where images are written, and the model
/// in use.
#[derive(Debug)]
pub struct AppSettings {
    /// Width of a request that names none.
    pub default_width: u32,
    /// Height of a request that names none.
    pub default_height: u32,
    /// Number of inference steps of a request that names none.
    pub default_inference_steps: u32,
    /// Guidance scale of a request that names none, as the bit pattern of a
    /// single-precision number.
    pub default_guidance_scale_bits: u32,
    /// Directory that images are written to.
    pub output_directory: String,
    /// Path of the model file in use; empty where none is configured.
    pub model_path: String,
}

/// A settings record as the contracts see it.
pub struct SettingsView {
    pub default_width: u32,
    pub default_height: u32,
    pub default_inference_steps: u32,
    pub default_guidance_scale_bits: u32,
    pub output_directory: Seq<char>,
    pub model_path: Seq<char>,
}

impl View for AppSettings {
    type V = SettingsView;

    open spec fn view(&self) -> SettingsView {
        SettingsView {
            default_width: self.default_width,
            default_height: self.default_height,
            default_inference_steps: self.default_inference_steps,
            default_guidance_scale_bits: self.default_guidance_scale_bits,
            output_directory: self.output_directory@,
            model_path: self.model_path@,
        }
    }
}

/// The constraints of a settings record, in the order in which they are
/// checked.
#[derive(Debug, Clone, Copy, PartialEq, Eq, Structural)]
pub enum SettingsViolation {
    /// The default width is out of bounds.
    Width,
    /// The default height is out of bounds.
    Height,
    /// The default number of inference steps is out of bounds.
    Steps,
    /// The default guidance scale is out of bounds.
    Guidance,
    /// A model path is given and no file stands there.
    ModelMissing,
    /// A model path is given and the file's name lacks the extension of
    /// model files.
    ModelExtension,
}

impl SettingsView {
    /// The first constraint, in the order of checking, that the record
    /// breaks, given what was found at its model path. The bounds are those
    /// of requests. The model is looked at only where a path is given.
    pub open spec fn first_violation(self, model: FileProbeView) -> Option<SettingsViolation> {
        if !dimension_in_bounds(self.default_width) {
            Some(SettingsViolation::Width)
        } else if !dimension_in_bounds(self.default_height) {
            Some(SettingsViolation::Height)
        } else if !steps_in_bounds(self.default_inference_steps) {
            Some(SettingsViolation::Steps)
        } else if !guidance_in_bounds(self.default_guidance_scale_bits) {
            Some(SettingsViolation::Guidance)
        } else if self.model_path.len() == 0 {
            None
        } else if !model.exists {
            Some(SettingsViolation::ModelMissing)
        } else if !model.is_model_file() {
            Some(SettingsViolation::ModelExtension)
        } else {
            None
        }
    }

    /// The text that a violated constraint is reported with.
    pub open spec fn violation_text(self, violation: SettingsViolation) -> Seq<char> {
        match violation {
            SettingsViolation::Width => "Default width must be between 256 and 1024"@,
            SettingsViolation::Height => "Default height must be between 256 and 1024"@,
            SettingsViolation::Steps => "Default inference steps must be between 10 and 50"@,
            SettingsViolation::Guidance => "Default guidance scale must be between 1.0 and 20.0"@,
            SettingsViolation::ModelMissing => model_missing_text(self.model_path),
            SettingsViolation::ModelExtension => model_extension_text(),
        }
    }
}

/// The text that a model path without a file is reported with.
pub open spec fn model_missing_text(path: Seq<char>) -> Seq<char> {
    "Model file not found at: "@ + path
}

/// The text that a model file with another extension is reported with.
pub open spec fn model_extension_text() -> Seq<char> {
    "Model file must have .tdict extension"@
}

impl AppSettings {
    /// The settings of a fresh installation, given the directory to write
    /// images to and the model that was found, if any.
    pub fn new(output_directory: String, model_path: String) -> (settings: Self)
        ensures
            settings@ == (SettingsView {
                default_width: DEFAULT_DIMENSION,
                default_height: DEFAULT_DIMENSION,
                default_inference_steps: DEFAULT_STEPS,
                default_guidance_scale_bits: DEFAULT_GUIDANCE_BITS,
                output_directory: output_directory@,
                model_path: model_path@,
            }),
            settings@.first_violation(FileProbeView { exists: true, extension: Some(model_extension()) })
                is None,
    {
        AppSettings {
            default_width: DEFAULT_DIMENSION,
            default_height: DEFAULT_DIMENSION,
            default_inference_steps: DEFAULT_STEPS,
            default_guidance_scale_bits: DEFAULT_GUIDANCE_BITS,
            output_directory,
            model_path,
        }
    }

    /// Finds the first constraint that the record breaks. `model` is what
    /// was found at the model path of the record.
    pub fn check(&self, model: &FileProbe) -> (found: Option<SettingsViolation>)
        ensures
            found == self@.first_violation(model@),
    {
        if !check_dimension(self.default_width) {
            Some(SettingsViolation::Width)
        } else if !check_dimension(self.default_height) {
            Some(SettingsViolation::Height)
        } else if !check_steps(self.default_inference_steps) {
            Some(SettingsViolation::Steps)
        } else if !check_guidance(self.default_guidance_scale_bits) {
            Some(SettingsViolation::Guidance)
        } else if self.model_path.as_str().is_empty() {
            None
        } else if !model.exists {
            Some(SettingsViolation::ModelMissing)
        } else if !model.has_model_extension() {
            Some(SettingsViolation::ModelExtension)
        } else {
            None
        }
    }

    /// Writes the text that a violated constraint is reported with.
    pub fn describe(&self, violation: SettingsViolation) -> (text: String)
        ensures
            text@ == self@.violation_text(violation),
    {
        match violation {
            SettingsViolation::Width => String::from_str(
                "Default width must be between 256 and 1024",
            ),
            SettingsViolation::Height => String::from_str(
                "Default height must be between 256 and 1024",
            ),
            SettingsViolation::Steps => String::from_str(
                "Default inference steps must be between 10 and 50",
            ),
            SettingsViolation::Guidance => String::from_str(
                "Default guidance scale must be between 1.0 and 20.0",
            ),
            SettingsViolation::ModelMissing => String::from_str("Model file not found at: ").concat(
                self.model_path.as_str(),
            ),
            SettingsViolation::ModelExtension => String::from_str(
                "Model file must have .tdict extension",
            ),
        }
    }
}

/// Decides whether a settings record may be saved. `model` is what was
/// found at the model path of the record. A record that breaks no
/// constraint passes; any other is answered with the text of the first
/// constraint it breaks, and is not to be saved.
pub fn save_settings(settings: &AppSettings, model: &FileProbe) -> (outcome: Result<(), String>)
    ensures
        outcome is Ok <==> settings@.first_violation(model@) is None,
        outcome matches Err(text) ==> settings@.first_violation(model@) matches Some(v) && text@
            == settings@.violation_text(v),
{
    match settings.check(model) {
        None => Ok(()),
        Some(v) => Err(settings.describe(v)),
    }
}

/// Chooses the directory that images are written to by default: the desktop
/// folder of the user where there is one, else the working directory of
/// the process, else the directory `.`.
pub fn get_default_output_directory(
    desktop: Option<String>,
    working_directory: Option<String>,
) -> (directory: String)
    ensures
        directory@ == match (desktop, working_directory) {
            (Some(d), _) => d@,
            (None, Some(w)) => w@,
            (None, None) => "."@,
        },
{
    match desktop {
        Some(d) => d,
        None => match working_directory {
            Some(w) => w,
            None => String::from_str("."),
        },
    }
}

} // verus!
