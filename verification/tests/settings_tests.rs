use diffusionbee_core::error::DiffusionError;
use diffusionbee_core::locator::{find_backend_script, get_backend, Candidate, PythonBackend};
use diffusionbee_core::models::{get_default_model_path, get_models, ModelEntry};
use diffusionbee_core::settings::{
    get_default_output_directory, save_settings, AppSettings, FileProbe, SettingsViolation,
};

fn settings(model_path: &str) -> AppSettings {
    AppSettings::new("/home/u/Desktop".to_string(), model_path.to_string())
}

fn probe(exists: bool, extension: Option<&str>) -> FileProbe {
    FileProbe { exists, extension: extension.map(|e| e.to_string()) }
}

fn entry(path: &str, file_name: Option<&str>, extension: Option<&str>) -> ModelEntry {
    ModelEntry {
        path: path.to_string(),
        file_name: file_name.map(|s| s.to_string()),
        extension: extension.map(|s| s.to_string()),
    }
}

#[test]
fn fresh_settings_have_the_defaults() {
    let s = settings("/m/sd.tdict");
    assert_eq!(s.default_width, 512);
    assert_eq!(s.default_height, 512);
    assert_eq!(s.default_inference_steps, 20);
    assert_eq!(s.default_guidance_scale_bits, 7.5f32.to_bits());
    assert_eq!(s.output_directory, "/home/u/Desktop");
    assert_eq!(s.model_path, "/m/sd.tdict");
    assert_eq!(save_settings(&s, &probe(true, Some("tdict"))), Ok(()));
}

#[test]
fn existing_file_without_the_extension_is_refused() {
    let s = settings("/m/model.ckpt");
    assert_eq!(
        save_settings(&s, &probe(true, Some("ckpt"))),
        Err("Model file must have .tdict extension".to_string())
    );
    assert_eq!(s.check(&probe(true, Some("ckpt"))), Some(SettingsViolation::ModelExtension));
    assert_eq!(
        save_settings(&settings("/m/model"), &probe(true, None)),
        Err("Model file must have .tdict extension".to_string())
    );
    assert_eq!(
        save_settings(&settings("/m/model.TDICT"), &probe(true, Some("TDICT"))),
        Err("Model file must have .tdict extension".to_string())
    );
}

#[test]
fn missing_model_file_is_refused() {
    assert_eq!(
        save_settings(&settings("/m/gone.tdict"), &probe(false, Some("tdict"))),
        Err("Model file not found at: /m/gone.tdict".to_string())
    );
}

#[test]
fn settings_without_a_model_pass() {
    assert_eq!(save_settings(&settings(""), &probe(false, None)), Ok(()));
}

#[test]
fn settings_bounds_are_those_of_requests() {
    let ok = probe(true, Some("tdict"));
    let mut s = settings("/m/sd.tdict");
    s.default_width = 255;
    assert_eq!(save_settings(&s, &ok), Err("Default width must be between 256 and 1024".to_string()));
    s.default_width = 1024;
    s.default_height = 1025;
    assert_eq!(save_settings(&s, &ok), Err("Default height must be between 256 and 1024".to_string()));
    s.default_height = 256;
    s.default_inference_steps = 9;
    assert_eq!(
        save_settings(&s, &ok),
        Err("Default inference steps must be between 10 and 50".to_string())
    );
    s.default_inference_steps = 50;
    s.default_guidance_scale_bits = 20.5f32.to_bits();
    assert_eq!(
        save_settings(&s, &ok),
        Err("Default guidance scale must be between 1.0 and 20.0".to_string())
    );
    s.default_guidance_scale_bits = f32::NAN.to_bits();
    assert_eq!(
        save_settings(&s, &ok),
        Err("Default guidance scale must be between 1.0 and 20.0".to_string())
    );
    s.default_guidance_scale_bits = 1.0f32.to_bits();
    assert_eq!(save_settings(&s, &ok), Ok(()));
}

#[test]
fn bounds_are_checked_before_the_model() {
    let mut s = settings("/m/model.ckpt");
    s.default_inference_steps = 0;
    assert_eq!(
        save_settings(&s, &probe(false, None)),
        Err("Default inference steps must be between 10 and 50".to_string())
    );
}

#[test]
fn default_output_directory() {
    assert_eq!(
        get_default_output_directory(Some("/home/u/Desktop".to_string()), Some("/cwd".to_string())),
        "/home/u/Desktop"
    );
    assert_eq!(get_default_output_directory(None, Some("/cwd".to_string())), "/cwd");
    assert_eq!(get_default_output_directory(None, None), ".");
}

#[test]
fn models_are_the_entries_with_the_extension() {
    let entries = vec![
        entry("/m/readme.txt", Some("readme.txt"), Some("txt")),
        entry("/m/b.tdict", Some("b.tdict"), Some("tdict")),
        entry("/m/noext", Some("noext"), None),
        entry("/m/a.tdict", Some("a.tdict"), Some("tdict")),
        entry("/m/..", None, Some("tdict")),
        entry("/m/c.TDICT", Some("c.TDICT"), Some("TDICT")),
    ];
    assert_eq!(get_models(&entries), vec!["b.tdict".to_string(), "a.tdict".to_string()]);
    assert_eq!(get_models(&Vec::new()), Vec::<String>::new());
}

#[test]
fn default_model() {
    let entries = vec![
        entry("/m/readme.txt", Some("readme.txt"), Some("txt")),
        entry("/m/b.tdict", Some("b.tdict"), Some("tdict")),
        entry("/m/a.tdict", Some("a.tdict"), Some("tdict")),
    ];
    assert_eq!(
        get_default_model_path(Some("/m/sd-v1-5_fp16.tdict".to_string()), &entries),
        "/m/sd-v1-5_fp16.tdict"
    );
    assert_eq!(get_default_model_path(None, &entries), "/m/b.tdict");
    assert_eq!(get_default_model_path(None, &vec![entry("/m/readme.txt", Some("readme.txt"), Some("txt"))]), "");
    assert_eq!(get_default_model_path(None, &Vec::new()), "");
}

#[test]
fn first_candidate_with_a_file_is_the_backend() {
    let candidates = vec![
        Candidate { path: "/dev/backend.py".to_string(), is_file: false },
        Candidate { path: "/bundle/backend.py".to_string(), is_file: true },
        Candidate { path: "/other/backend.py".to_string(), is_file: true },
    ];
    assert_eq!(find_backend_script(&candidates).unwrap(), "/bundle/backend.py");
    let none = vec![
        Candidate { path: "/dev/backend.py".to_string(), is_file: false },
        Candidate { path: "/bundle/backend.py".to_string(), is_file: false },
    ];
    match find_backend_script(&none) {
        Err(DiffusionError::PythonBackend(text)) => {
            assert_eq!(text, "Backend script not found in any expected location")
        }
        other => panic!("{:?}", other),
    }
    assert!(matches!(find_backend_script(&Vec::new()), Err(DiffusionError::PythonBackend(_))));
}

#[test]
fn backend_starts_only_where_it_is_present() {
    let backend = PythonBackend::new("/root/backends/stable_diffusion/diffusionbee_backend.py".to_string());
    assert!(backend.start_backend(true).is_ok());
    match backend.start_backend(false) {
        Err(DiffusionError::PythonBackend(text)) => assert_eq!(
            text,
            "Python backend not found at /root/backends/stable_diffusion/diffusionbee_backend.py"
        ),
        other => panic!("{:?}", other),
    }
}

#[test]
fn backend_is_resolved_once() {
    let nowhere = vec![Candidate { path: "/a/backend.py".to_string(), is_file: false }];
    let there = vec![
        Candidate { path: "/a/backend.py".to_string(), is_file: false },
        Candidate { path: "/b/backend.py".to_string(), is_file: true },
    ];
    let moved = vec![Candidate { path: "/c/backend.py".to_string(), is_file: true }];
    let mut slot: Option<PythonBackend> = None;
    match get_backend(&mut slot, &nowhere) {
        Err(DiffusionError::PythonBackend(text)) => {
            assert_eq!(text, "Backend script not found in any expected location")
        }
        other => panic!("{:?}", other),
    }
    assert!(slot.is_none());
    let first = get_backend(&mut slot, &there).unwrap();
    assert_eq!(first.backend_path, "/b/backend.py");
    assert_eq!(slot.as_ref().unwrap().backend_path, "/b/backend.py");
    let second = get_backend(&mut slot, &moved).unwrap();
    assert_eq!(second.backend_path, "/b/backend.py");
    let third = get_backend(&mut slot, &nowhere).unwrap();
    assert_eq!(third.backend_path, "/b/backend.py");
    assert_eq!(slot.as_ref().unwrap().backend_path, "/b/backend.py");
}

#[test]
fn error_reports() {
    let cases = [
        (DiffusionError::PythonBackend("a".to_string()), "Python backend error: a"),
        (DiffusionError::FileSystem("b".to_string()), "File system error: b"),
        (DiffusionError::JsonError("c".to_string()), "JSON serialization error: c"),
        (DiffusionError::ProcessError("d".to_string()), "Process error: d"),
        (DiffusionError::Validation("".to_string()), "Validation error: "),
    ];
    for (error, report) in cases {
        assert_eq!(error.message(), report);
        assert!(report.ends_with(error.detail().as_str()));
    }
    assert_eq!(DiffusionError::ProcessError("d".to_string()).detail(), "d");
}
