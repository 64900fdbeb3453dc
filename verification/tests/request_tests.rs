use diffusionbee_core::request::{ImageGenerationRequest, Violation, DEFAULT_GUIDANCE_BITS};
use diffusionbee_core::text::{char_is_space, decimal_text, same_text, text_is_blank};

fn request(prompt: &str) -> ImageGenerationRequest {
    ImageGenerationRequest::new(prompt.to_string())
}

#[test]
fn new_request_has_the_defaults() {
    let r = request("a cat");
    assert_eq!(r.prompt, "a cat");
    assert_eq!(r.img_width, 512);
    assert_eq!(r.img_height, 512);
    assert_eq!(r.num_imgs, 1);
    assert_eq!(r.num_inference_steps, 20);
    assert_eq!(r.guidance_scale_bits, 7.5f32.to_bits());
    assert_eq!(DEFAULT_GUIDANCE_BITS, 0x40F0_0000);
}

#[test]
fn default_request_is_valid() {
    assert_eq!(request("a cat").validate(), Ok(()));
    assert_eq!(request("a cat").check(), None);
}

#[test]
fn empty_prompt_is_refused() {
    assert_eq!(request("").validate(), Err("Prompt cannot be empty".to_string()));
    assert_eq!(request("").check(), Some(Violation::EmptyPrompt));
}

#[test]
fn blank_prompt_is_refused() {
    assert_eq!(request("  \t\n ").validate(), Err("Prompt cannot be empty".to_string()));
    assert_eq!(request("\u{2003}\u{3000}").validate(), Err("Prompt cannot be empty".to_string()));
    assert_eq!(request(" a ").validate(), Ok(()));
}

#[test]
fn width_bounds() {
    let mut r = request("a cat");
    r.img_width = 255;
    assert_eq!(r.validate(), Err("Width must be between 256 and 1024".to_string()));
    r.img_width = 256;
    assert_eq!(r.validate(), Ok(()));
    r.img_width = 1024;
    assert_eq!(r.validate(), Ok(()));
    r.img_width = 1025;
    assert_eq!(r.validate(), Err("Width must be between 256 and 1024".to_string()));
}

#[test]
fn height_bounds() {
    let mut r = request("a cat");
    r.img_height = 255;
    assert_eq!(r.validate(), Err("Height must be between 256 and 1024".to_string()));
    r.img_height = 256;
    assert_eq!(r.validate(), Ok(()));
    r.img_height = 1024;
    assert_eq!(r.validate(), Ok(()));
    r.img_height = 1025;
    assert_eq!(r.validate(), Err("Height must be between 256 and 1024".to_string()));
}

#[test]
fn image_count_bounds() {
    let mut r = request("a cat");
    r.num_imgs = 0;
    assert_eq!(r.validate(), Err("Number of images must be between 1 and 10".to_string()));
    r.num_imgs = 10;
    assert_eq!(r.validate(), Ok(()));
    r.num_imgs = 11;
    assert_eq!(r.validate(), Err("Number of images must be between 1 and 10".to_string()));
}

#[test]
fn step_bounds() {
    let mut r = request("a cat");
    r.num_inference_steps = 9;
    assert_eq!(r.validate(), Err("Inference steps must be between 10 and 50".to_string()));
    r.num_inference_steps = 10;
    assert_eq!(r.validate(), Ok(()));
    r.num_inference_steps = 50;
    assert_eq!(r.validate(), Ok(()));
    r.num_inference_steps = 51;
    assert_eq!(r.validate(), Err("Inference steps must be between 10 and 50".to_string()));
}

#[test]
fn guidance_bounds() {
    let refused = Err("Guidance scale must be between 1.0 and 20.0".to_string());
    let mut r = request("a cat");
    for ok in [1.0f32, 1.0000001, 7.5, 19.999998, 20.0] {
        r.guidance_scale_bits = ok.to_bits();
        assert_eq!(r.validate(), Ok(()));
    }
    for bad in [0.99999994f32, 20.000002, 0.0, -0.0, -7.5, 1.0e-40, f32::INFINITY, f32::NEG_INFINITY, f32::NAN, -f32::NAN] {
        r.guidance_scale_bits = bad.to_bits();
        assert_eq!(r.validate(), refused);
    }
}

#[test]
fn guidance_range_of_patterns_is_the_range_of_numbers() {
    // every pattern in steps of a prime, so that all exponents are met
    let mut bits: u32 = 0;
    let mut r = request("a cat");
    loop {
        let g = f32::from_bits(bits);
        r.guidance_scale_bits = bits;
        assert_eq!(r.validate().is_ok(), g >= 1.0 && g <= 20.0);
        match bits.checked_add(104_729) {
            Some(next) => bits = next,
            None => break,
        }
    }
}

#[test]
fn first_violation_wins() {
    let mut r = request(" ");
    r.img_width = 0;
    r.img_height = 0;
    r.num_imgs = 0;
    r.num_inference_steps = 0;
    r.guidance_scale_bits = 0;
    assert_eq!(r.check(), Some(Violation::EmptyPrompt));
    r.prompt = "a cat".to_string();
    assert_eq!(r.check(), Some(Violation::Width));
    r.img_width = 512;
    assert_eq!(r.check(), Some(Violation::Height));
    r.img_height = 512;
    assert_eq!(r.check(), Some(Violation::ImageCount));
    r.num_imgs = 1;
    assert_eq!(r.check(), Some(Violation::Steps));
    r.num_inference_steps = 20;
    assert_eq!(r.check(), Some(Violation::Guidance));
    r.guidance_scale_bits = 7.5f32.to_bits();
    assert_eq!(r.check(), None);
}

#[test]
fn violation_texts() {
    assert_eq!(Violation::EmptyPrompt.describe(), "Prompt cannot be empty");
    assert_eq!(Violation::Width.describe(), "Width must be between 256 and 1024");
    assert_eq!(Violation::Height.describe(), "Height must be between 256 and 1024");
    assert_eq!(Violation::ImageCount.describe(), "Number of images must be between 1 and 10");
    assert_eq!(Violation::Steps.describe(), "Inference steps must be between 10 and 50");
    assert_eq!(Violation::Guidance.describe(), "Guidance scale must be between 1.0 and 20.0");
}

#[test]
fn white_space_is_what_std_calls_white_space() {
    let mut n: u32 = 0;
    while n <= 0x11_0000 {
        if let Some(c) = char::from_u32(n) {
            assert_eq!(char_is_space(c), c.is_whitespace());
        }
        n += 1;
    }
}

#[test]
fn blank_is_what_trimming_leaves_empty() {
    for s in ["", " ", "\r\n\t", "a", " a", "a ", "\u{a0}", "\u{85}x", "\u{200b}"] {
        assert_eq!(text_is_blank(s), s.trim().is_empty());
    }
}

#[test]
fn decimal_text_writes_numbers() {
    assert_eq!(decimal_text(0), "0");
    assert_eq!(decimal_text(7), "7");
    assert_eq!(decimal_text(10), "10");
    assert_eq!(decimal_text(512), "512");
    assert_eq!(decimal_text(1_700_000_000), "1700000000");
    assert_eq!(decimal_text(u64::MAX), "18446744073709551615");
}

#[test]
fn same_text_compares_characters() {
    assert!(same_text("tdict", "tdict"));
    assert!(!same_text("tdict", "TDICT"));
    assert!(!same_text("tdict", "tdic"));
    assert!(same_text("", ""));
}
