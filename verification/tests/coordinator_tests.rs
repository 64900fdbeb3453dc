use diffusionbee_core::coordinator::{
    write_fallback_failure, write_fallback_file_name, Action, Event, GenerationCoordinator,
};
use diffusionbee_core::png::create_placeholder_image;
use diffusionbee_core::progress::{GenerationProgress, ProgressStore};
use diffusionbee_core::request::ImageGenerationRequest;
use diffusionbee_core::settings::FileProbe;

fn fields(p: &GenerationProgress) -> (u32, u32, &str, bool, bool) {
    (p.current_step, p.total_steps, p.status.as_str(), p.is_complete, p.is_cancelled)
}

fn model_file() -> FileProbe {
    FileProbe { exists: true, extension: Some("tdict".to_string()) }
}

fn start(request: ImageGenerationRequest) -> Event {
    Event::Start {
        request,
        model_path: "/models/sd.tdict".to_string(),
        model: model_file(),
        output_directory: "/out".to_string(),
    }
}

fn a_cat() -> ImageGenerationRequest {
    ImageGenerationRequest::new("a cat".to_string())
}

fn error_of(action: Action) -> String {
    match action {
        Action::Finish { outcome: Err(text) } => text,
        other => panic!("{:?}", other),
    }
}

/// Runs a generation up to the point where the inference process is running.
fn invoking(store: &mut ProgressStore, request: ImageGenerationRequest) -> GenerationCoordinator {
    let (c, action) = GenerationCoordinator::new().step(store, start(request));
    assert!(matches!(action, Action::CreateOutputDirectory { .. }));
    let (c, action) = c.step(store, Event::DirectoryReady);
    assert!(matches!(action, Action::InvokeBackend { .. }));
    c
}

#[test]
fn unreachable_backend_falls_back_to_the_placeholder() {
    let mut store = ProgressStore::new();
    let (c, action) = GenerationCoordinator::new().step(&mut store, start(a_cat()));
    match action {
        Action::CreateOutputDirectory { path } => assert_eq!(path, "/out"),
        other => panic!("{:?}", other),
    }
    assert_eq!(fields(&store.read()), (0, 20, "Initializing...", false, false));
    let (c, action) = c.step(&mut store, Event::DirectoryReady);
    match action {
        Action::InvokeBackend { request, model_path } => {
            assert_eq!(request.prompt, "a cat");
            assert_eq!(request.img_width, 512);
            assert_eq!(request.img_height, 512);
            assert_eq!(request.num_imgs, 1);
            assert_eq!(request.num_inference_steps, 20);
            assert_eq!(request.guidance_scale_bits, 7.5f32.to_bits());
            assert_eq!(model_path, "/models/sd.tdict");
        }
        other => panic!("{:?}", other),
    }
    assert_eq!(fields(&store.read()), (0, 20, "Initializing...", false, false));
    let (c, action) = c.step(
        &mut store,
        Event::BackendUnreachable {
            reason: "Failed to find backend script".to_string(),
            clock: Ok(1_700_000_000),
        },
    );
    match action {
        Action::WriteFallback { directory, file_name, image } => {
            assert_eq!(directory, "/out");
            assert_eq!(file_name, "diffusionbee_fallback_1700000000_512x512.png");
            assert_eq!(&image[0..8], &[0x89, 0x50, 0x4E, 0x47, 0x0D, 0x0A, 0x1A, 0x0A]);
            assert_eq!(&image[12..16], b"IHDR");
            assert_eq!(&image[16..24], &[0, 0, 2, 0, 0, 0, 2, 0]);
            assert_eq!(image, create_placeholder_image(512, 512));
        }
        other => panic!("{:?}", other),
    }
    assert!(!c.is_done());
    assert_eq!(fields(&store.read()), (0, 20, "Initializing...", false, false));
    let (c, action) = c.step(
        &mut store,
        Event::FallbackWritten { path: "/out/diffusionbee_fallback_1700000000_512x512.png".to_string() },
    );
    match action {
        Action::Finish { outcome: Ok(response) } => {
            assert_eq!(response.generated_img_path, "/out/diffusionbee_fallback_1700000000_512x512.png");
            assert_eq!(response.aux_output_image_path, None);
        }
        other => panic!("{:?}", other),
    }
    assert!(c.is_done());
    assert_eq!(fields(&store.read()), (0, 20, "Complete (Fallback)", true, false));
}

#[test]
fn empty_prompt_is_refused_before_anything_is_published() {
    let mut store = ProgressStore::new();
    let (c, action) =
        GenerationCoordinator::new().step(&mut store, start(ImageGenerationRequest::new(String::new())));
    assert_eq!(error_of(action), "Prompt cannot be empty");
    assert!(c.is_done());
    assert_eq!(fields(&store.read()), (0, 0, "No generation in progress", false, false));
}

#[test]
fn refused_request_leaves_the_previous_record() {
    let mut store = ProgressStore::new();
    store.reset(30);
    store.update(7, "earlier run".to_string());
    store.request_cancel();
    let mut bad = a_cat();
    bad.num_inference_steps = 51;
    let (_, action) = GenerationCoordinator::new().step(&mut store, start(bad));
    assert_eq!(error_of(action), "Inference steps must be between 10 and 50");
    assert_eq!(fields(&store.read()), (7, 30, "Cancelling...", false, false));
    assert!(store.cancel_requested());
    let mut bad = a_cat();
    bad.guidance_scale_bits = 20.5f32.to_bits();
    let (_, action) = GenerationCoordinator::new().step(&mut store, start(bad));
    assert_eq!(error_of(action), "Guidance scale must be between 1.0 and 20.0");
    assert_eq!(fields(&store.read()), (7, 30, "Cancelling...", false, false));
}

#[test]
fn model_must_be_configured_present_and_a_model_file() {
    let mut store = ProgressStore::new();
    let event = Event::Start {
        request: a_cat(),
        model_path: String::new(),
        model: FileProbe { exists: false, extension: None },
        output_directory: "/out".to_string(),
    };
    let (_, action) = GenerationCoordinator::new().step(&mut store, event);
    assert_eq!(error_of(action), "No Stable Diffusion model found. Please download a model first.");
    let event = Event::Start {
        request: a_cat(),
        model_path: "/models/gone.tdict".to_string(),
        model: FileProbe { exists: false, extension: Some("tdict".to_string()) },
        output_directory: "/out".to_string(),
    };
    let (_, action) = GenerationCoordinator::new().step(&mut store, event);
    assert_eq!(error_of(action), "Model file not found at: /models/gone.tdict");
    let event = Event::Start {
        request: a_cat(),
        model_path: "/models/sd.ckpt".to_string(),
        model: FileProbe { exists: true, extension: Some("ckpt".to_string()) },
        output_directory: "/out".to_string(),
    };
    let (_, action) = GenerationCoordinator::new().step(&mut store, event);
    assert_eq!(error_of(action), "Model file must have .tdict extension");
    assert_eq!(fields(&store.read()), (0, 0, "No generation in progress", false, false));
}

#[test]
fn start_withdraws_an_earlier_cancellation() {
    let mut store = ProgressStore::new();
    store.request_cancel();
    let mut r = a_cat();
    r.num_inference_steps = 37;
    let (c, _) = GenerationCoordinator::new().step(&mut store, start(r));
    assert!(!store.cancel_requested());
    assert_eq!(fields(&store.read()), (0, 37, "Initializing...", false, false));
    let (_, action) = c.step(&mut store, Event::DirectoryReady);
    assert!(matches!(action, Action::InvokeBackend { .. }));
}

#[test]
fn directory_failure_ends_the_generation() {
    let mut store = ProgressStore::new();
    let (c, _) = GenerationCoordinator::new().step(&mut store, start(a_cat()));
    let (c, action) = c.step(&mut store, Event::DirectoryFailed { reason: "permission denied".to_string() });
    assert_eq!(error_of(action), "Failed to create output directory: permission denied");
    assert!(c.is_done());
    assert_eq!(fields(&store.read()), (0, 20, "Initializing...", false, false));
}

#[test]
fn response_of_the_backend_completes_the_run() {
    let mut store = ProgressStore::new();
    let c = invoking(&mut store, a_cat());
    let output = b"loading model\nsdbk nwim {\"generated_img_path\":\"/out/cat.png\",\"aux_output_image_path\":\"/out/cat_aux.png\"}\n".to_vec();
    let (c, action) = c.step(
        &mut store,
        Event::BackendExited { success: true, status: "exit status: 0".to_string(), output, clock: Ok(5) },
    );
    match action {
        Action::Finish { outcome: Ok(response) } => {
            assert_eq!(response.generated_img_path, "/out/cat.png");
            assert_eq!(response.aux_output_image_path, Some("/out/cat_aux.png".to_string()));
        }
        other => panic!("{:?}", other),
    }
    assert!(c.is_done());
    assert_eq!(fields(&store.read()), (0, 20, "Complete", true, false));
}

#[test]
fn response_is_delivered_even_if_cancellation_came_while_the_backend_ran() {
    let mut store = ProgressStore::new();
    let c = invoking(&mut store, a_cat());
    store.request_cancel();
    let output = b"sdbk nwim {\"generated_img_path\":\"/out/cat.png\"}".to_vec();
    let (_, action) = c.step(
        &mut store,
        Event::BackendExited {
            success: true,
            status: "exit status: 0".to_string(),
            output,
            clock: Err("clock went backwards".to_string()),
        },
    );
    assert!(matches!(action, Action::Finish { outcome: Ok(_) }));
    assert_eq!(fields(&store.read()), (0, 20, "Complete", true, false));
}

#[test]
fn failed_exit_falls_back() {
    let mut store = ProgressStore::new();
    let mut r = a_cat();
    r.img_width = 256;
    r.img_height = 1024;
    let c = invoking(&mut store, r);
    let output = b"sdbk nwim {\"generated_img_path\":\"/out/cat.png\"}".to_vec();
    let (c, action) = c.step(
        &mut store,
        Event::BackendExited { success: false, status: "exit status: 1".to_string(), output, clock: Ok(42) },
    );
    match action {
        Action::WriteFallback { directory, file_name, image } => {
            assert_eq!(directory, "/out");
            assert_eq!(file_name, "diffusionbee_fallback_42_256x1024.png");
            assert_eq!(image, create_placeholder_image(256, 1024));
        }
        other => panic!("{:?}", other),
    }
    let (_, action) = c.step(&mut store, Event::FallbackFailed { reason: "disk full".to_string() });
    assert_eq!(
        error_of(action),
        "Failed to create fallback image: disk full (backend error: Python backend failed with status: exit status: 1)"
    );
    assert_eq!(fields(&store.read()), (0, 20, "Initializing...", false, false));
}

#[test]
fn output_without_response_falls_back() {
    for output in ["", "only logs\n", "sdbk nwim not json\n", "sdbk nwim {\"x\":1}\n"] {
        let mut store = ProgressStore::new();
        let c = invoking(&mut store, a_cat());
        let (c, action) = c.step(
            &mut store,
            Event::BackendExited {
                success: true,
                status: "exit status: 0".to_string(),
                output: output.as_bytes().to_vec(),
                clock: Ok(1),
            },
        );
        assert!(matches!(action, Action::WriteFallback { .. }));
        let (_, action) = c.step(&mut store, Event::FallbackFailed { reason: "no".to_string() });
        assert_eq!(
            error_of(action),
            "Failed to create fallback image: no (backend error: No valid response received from Python backend)"
        );
    }
}

#[test]
fn unreadable_clock_fails_the_fallback() {
    let mut store = ProgressStore::new();
    let c = invoking(&mut store, a_cat());
    let (c, action) = c.step(
        &mut store,
        Event::BackendUnreachable {
            reason: "spawn failed".to_string(),
            clock: Err("time before the epoch".to_string()),
        },
    );
    assert_eq!(
        error_of(action),
        "Failed to create fallback image: Failed to get timestamp: time before the epoch (backend error: spawn failed)"
    );
    assert!(c.is_done());
    assert!(!store.read().is_complete);
}

#[test]
fn cancellation_before_the_backend_starts() {
    let mut store = ProgressStore::new();
    let (c, _) = GenerationCoordinator::new().step(&mut store, start(a_cat()));
    store.request_cancel();
    assert_eq!(fields(&store.read()), (0, 20, "Cancelling...", false, false));
    let (c, action) = c.step(&mut store, Event::DirectoryReady);
    assert_eq!(error_of(action), "Generation cancelled");
    assert!(c.is_done());
    assert_eq!(fields(&store.read()), (0, 20, "Cancelled", false, true));
    let (c, action) = c.step(&mut store, Event::DirectoryReady);
    assert!(matches!(action, Action::Ignore));
    assert!(c.is_done());
    assert_eq!(fields(&store.read()), (0, 20, "Cancelled", false, true));
    // the next generation resets the record
    let (_, _) = GenerationCoordinator::new().step(&mut store, start(a_cat()));
    assert_eq!(fields(&store.read()), (0, 20, "Initializing...", false, false));
    assert!(!store.cancel_requested());
}

#[test]
fn cancellation_before_the_fallback() {
    let mut store = ProgressStore::new();
    let c = invoking(&mut store, a_cat());
    store.update(3, "Generating".to_string());
    store.request_cancel();
    let (c, action) = c.step(
        &mut store,
        Event::BackendUnreachable { reason: "gone".to_string(), clock: Ok(9) },
    );
    assert_eq!(error_of(action), "Generation cancelled");
    assert!(c.is_done());
    assert_eq!(fields(&store.read()), (3, 20, "Cancelled", false, true));
}

#[test]
fn cancellation_during_the_fallback_does_not_stop_it() {
    let mut store = ProgressStore::new();
    let c = invoking(&mut store, a_cat());
    let (c, _) = c.step(&mut store, Event::BackendUnreachable { reason: "gone".to_string(), clock: Ok(9) });
    store.request_cancel();
    let (_, action) = c.step(&mut store, Event::FallbackWritten { path: "/out/f.png".to_string() });
    assert!(matches!(action, Action::Finish { outcome: Ok(_) }));
    assert_eq!(fields(&store.read()), (0, 20, "Complete (Fallback)", true, false));
}

#[test]
fn events_out_of_place_are_ignored() {
    let mut store = ProgressStore::new();
    let c = GenerationCoordinator::new();
    let (c, action) = c.step(&mut store, Event::DirectoryReady);
    assert!(matches!(action, Action::Ignore));
    let (c, action) = c.step(&mut store, Event::FallbackWritten { path: "x".to_string() });
    assert!(matches!(action, Action::Ignore));
    assert!(!c.is_done());
    assert_eq!(fields(&store.read()), (0, 0, "No generation in progress", false, false));
    let (c, _) = c.step(&mut store, start(a_cat()));
    let (c, action) = c.step(&mut store, start(a_cat()));
    assert!(matches!(action, Action::Ignore));
    let (c, action) =
        c.step(&mut store, Event::BackendUnreachable { reason: "r".to_string(), clock: Ok(1) });
    assert!(matches!(action, Action::Ignore));
    let (_, action) = c.step(&mut store, Event::DirectoryReady);
    assert!(matches!(action, Action::InvokeBackend { .. }));
}

#[test]
fn fallback_texts() {
    assert_eq!(write_fallback_file_name(0, 1, 2), "diffusionbee_fallback_0_1x2.png");
    assert_eq!(
        write_fallback_file_name(u64::MAX, u32::MAX, 1024),
        "diffusionbee_fallback_18446744073709551615_4294967295x1024.png"
    );
    assert_eq!(write_fallback_failure("a", "b"), "Failed to create fallback image: a (backend error: b)");
}
