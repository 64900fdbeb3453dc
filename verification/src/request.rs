//! Generation requests and the bounds policy that they are held to.

use vstd::prelude::*;
use vstd::string::StringExecFns;
use crate::text::{is_blank, text_is_blank};

verus! {

/// Smallest width and height, in pixels, that may be asked for.
pub const MIN_DIMENSION: u32 = 256;

/// Largest width and height, in pixels, that may be asked for.
pub const MAX_DIMENSION: u32 = 1024;

/// Largest number of images of one request.
pub const MAX_IMAGES: u32 = 10;

/// Smallest number of inference steps.
pub const MIN_STEPS: u32 = 10;

/// Largest number of inference steps.
pub const MAX_STEPS: u32 = 50;

/// Bit pattern of the single-precision number 1.0, the smallest guidance scale.
pub const GUIDANCE_MIN_BITS: u32 = 0x3F80_0000;

/// Bit pattern of the single-precision number 20.0, the largest guidance scale.
pub const GUIDANCE_MAX_BITS: u32 = 0x41A0_0000;

/// Bit pattern of the single-precision number 7.5, the default guidance scale.
pub const DEFAULT_GUIDANCE_BITS: u32 = 0x40F0_0000;

/// Width and height of a request that names none.
pub const DEFAULT_DIMENSION: u32 = 512;

/// Number of inference steps of a request that names none.
pub const DEFAULT_STEPS: u32 = 20;

/// Whether a width or a height lies within the bounds.
pub open spec fn dimension_in_bounds(pixels: u32) -> bool {
    MIN_DIMENSION <= pixels <= MAX_DIMENSION
}

/// Whether a number of images lies within the bounds.
pub open spec fn image_count_in_bounds(count: u32) -> bool {
    1 <= count <= MAX_IMAGES
}

/// Whether a number of inference steps lies within the bounds.
pub open spec fn steps_in_bounds(steps: u32) -> bool {
    MIN_STEPS <= steps <= MAX_STEPS
}

/// Whether a guidance scale, given by the bit pattern of a single-precision
/// number, lies between 1.0 and 20.0. Among the patterns with a clear sign
/// bit the order of the patterns is the order of the numbers, and every
/// negative number, infinity and not-a-number has a pattern above that of
/// 20.0, so the range of numbers is a range of patterns.
pub open spec fn guidance_in_bounds(bits: u32) -> bool {
    GUIDANCE_MIN_BITS <= bits <= GUIDANCE_MAX_BITS
}

/// Decides `dimension_in_bounds`.
pub fn check_dimension(pixels: u32) -> (ok: bool)
    ensures
        ok == dimension_in_bounds(pixels),
{
    MIN_DIMENSION <= pixels && pixels <= MAX_DIMENSION
}

/// Decides `steps_in_bounds`.
pub fn check_steps(steps: u32) -> (ok: bool)
    ensures
        ok == steps_in_bounds(steps),
{
    MIN_STEPS <= steps && steps <= MAX_STEPS
}

/// Decides `guidance_in_bounds`.
pub fn check_guidance(bits: u32) -> (ok: bool)
    ensures
        ok == guidance_in_bounds(bits),
{
    GUIDANCE_MIN_BITS <= bits && bits <= GUIDANCE_MAX_BITS
}

/// The constraints of a request, in the order in which they are checked.
#[derive(Debug, Clone, Copy, PartialEq, Eq, Structural)]
pub enum Violation {
    /// The prompt is empty or holds white space only.
    EmptyPrompt,
    /// The width is out of bounds.
    Width,
    /// The height is out of bounds.
    Height,
    /// The number of images is out of bounds.
    ImageCount,
    /// The number of inference steps is out of bounds.
    Steps,
    /// The guidance scale is out of bounds.
    Guidance,
}

impl Violation {
    /// The text that a violated constraint is reported with.
    pub open spec fn text(self) -> Seq<char> {
        match self {
            Violation::EmptyPrompt => "Prompt cannot be empty"@,
            Violation::Width => "Width must be between 256 and 1024"@,
            Violation::Height => "Height must be between 256 and 1024"@,
            Violation::ImageCount => "Number of images must be between 1 and 10"@,
            Violation::Steps => "Inference steps must be between 10 and 50"@,
            Violation::Guidance => "Guidance scale must be between 1.0 and 20.0"@,
        }
    }

    /// Returns the text that the violated constraint is reported with.
    pub fn describe(self) -> (text: String)
        ensures
            text@ == self.text(),
    {
        match self {
            Violation::EmptyPrompt => String::from_str("Prompt cannot be empty"),
            Violation::Width => String::from_str("Width must be between 256 and 1024"),
            Violation::Height => String::from_str("Height must be between 256 and 1024"),
            Violation::ImageCount => String::from_str("Number of images must be between 1 and 10"),
            Violation::Steps => String::from_str("Inference steps must be between 10 and 50"),
            Violation::Guidance => String::from_str("Guidance scale must be between 1.0 and 20.0"),
        }
    }
}

/// What the user asks the model for.
#[derive(Debug)]
pub struct ImageGenerationRequest {
    /// The text to draw.
    pub prompt: String,
    /// Width of each image, in pixels.
    pub img_width: u32,
    /// Height of each image, in pixels.
    pub img_height: u32,
    /// Number of images.
    pub num_imgs: u32,
    /// Number of inference steps.
    pub num_inference_steps: u32,
    /// Guidance scale, as the bit pattern of a single-precision number.
    pub guidance_scale_bits: u32,
}

/// A request as the contracts see it.
pub struct RequestView {
    pub prompt: Seq<char>,
    pub img_width: u32,
    pub img_height: u32,
    pub num_imgs: u32,
    pub num_inference_steps: u32,
    pub guidance_scale_bits: u32,
}

impl RequestView {
    /// The first constraint, in the order of checking, that the request
    /// breaks, if it breaks any.
    pub open spec fn first_violation(self) -> Option<Violation> {
        if is_blank(self.prompt) {
            Some(Violation::EmptyPrompt)
        } else if !dimension_in_bounds(self.img_width) {
            Some(Violation::Width)
        } else if !dimension_in_bounds(self.img_height) {
            Some(Violation::Height)
        } else if !image_count_in_bounds(self.num_imgs) {
            Some(Violation::ImageCount)
        } else if !steps_in_bounds(self.num_inference_steps) {
            Some(Violation::Steps)
        } else if !guidance_in_bounds(self.guidance_scale_bits) {
            Some(Violation::Guidance)
        } else {
            None
        }
    }

    /// A request is valid when it breaks no constraint.
    pub open spec fn is_valid(self) -> bool {
        &&& !is_blank(self.prompt)
        &&& dimension_in_bounds(self.img_width)
        &&& dimension_in_bounds(self.img_height)
        &&& image_count_in_bounds(self.num_imgs)
        &&& steps_in_bounds(self.num_inference_steps)
        &&& guidance_in_bounds(self.guidance_scale_bits)
    }
}

impl View for ImageGenerationRequest {
    type V = RequestView;

    open spec fn view(&self) -> RequestView {
        RequestView {
            prompt: self.prompt@,
            img_width: self.img_width,
            img_height: self.img_height,
            num_imgs: self.num_imgs,
            num_inference_steps: self.num_inference_steps,
            guidance_scale_bits: self.guidance_scale_bits,
        }
    }
}

impl ImageGenerationRequest {
    /// Finds the first constraint that the request breaks.
    pub fn check(&self) -> (found: Option<Violation>)
        ensures
            found == self@.first_violation(),
    {
        if text_is_blank(self.prompt.as_str()) {
            Some(Violation::EmptyPrompt)
        } else if !check_dimension(self.img_width) {
            Some(Violation::Width)
        } else if !check_dimension(self.img_height) {
            Some(Violation::Height)
        } else if self.num_imgs == 0 || self.num_imgs > MAX_IMAGES {
            Some(Violation::ImageCount)
        } else if !check_steps(self.num_inference_steps) {
            Some(Violation::Steps)
        } else if !check_guidance(self.guidance_scale_bits) {
            Some(Violation::Guidance)
        } else {
            None
        }
    }

    /// Holds the request to the bounds policy. A valid request passes; any
    /// other is answered with the text of the first constraint it breaks.
    pub fn validate(&self) -> (outcome: Result<(), String>)
        ensures
            outcome is Ok <==> self@.is_valid(),
            outcome matches Err(text) ==> self@.first_violation() matches Some(v) && text@
                == v.text(),
    {
        match self.check() {
            None => Ok(()),
            Some(v) => Err(v.describe()),
        }
    }

    /// A request for one image of the default size, steps and guidance.
    pub fn new(prompt: String) -> (request: Self)
        ensures
            request@ == (RequestView {
                prompt: prompt@,
                img_width: DEFAULT_DIMENSION,
                img_height: DEFAULT_DIMENSION,
                num_imgs: 1,
                num_inference_steps: DEFAULT_STEPS,
                guidance_scale_bits: DEFAULT_GUIDANCE_BITS,
            }),
    {
        ImageGenerationRequest {
            prompt,
            img_width: DEFAULT_DIMENSION,
            img_height: DEFAULT_DIMENSION,
            num_imgs: 1,
            num_inference_steps: DEFAULT_STEPS,
            guidance_scale_bits: DEFAULT_GUIDANCE_BITS,
        }
    }
}

/// A request is valid exactly when no constraint is found broken.
pub proof fn lemma_valid_iff_no_violation(request: RequestView)
    ensures
        request.is_valid() <==> request.first_violation() is None,
{
}

/// A request with a blank prompt, with a width or a height outside 256 to
/// 1024, with a number of images outside 1 to 10, with a number of steps
/// outside 10 to 50, or with a guidance scale outside 1.0 to 20.0 breaks a
/// constraint.
pub proof fn lemma_out_of_bounds_is_refused(request: RequestView)
    requires
        is_blank(request.prompt) || request.img_width < 256 || request.img_width > 1024
            || request.img_height < 256 || request.img_height > 1024 || request.num_imgs < 1
            || request.num_imgs > 10 || request.num_inference_steps < 10
            || request.num_inference_steps > 50 || !guidance_in_bounds(
            request.guidance_scale_bits,
        ),
    ensures
        !request.is_valid(),
        request.first_violation() is Some,
{
}

} // verus!
