use dlc_engine::capture::list_cameras;
use dlc_engine::error::{decimal_string, DlcError, SessionStage};
use dlc_engine::launcher::{
    get_backend_url, resolve_server_exe, server_exe_beside, server_exe_candidates,
    sidecar_target_triple, HostOs,
};
use dlc_engine::models::{detector_model, model_file_path, required_models, PipelineConfig};
use dlc_engine::onnx::OptimizationLevel;
use dlc_engine::provider::{ExecutionTarget, GpuProvider, SessionStep};
use dlc_engine::models::{ModelCheck, ModelValidation};
use dlc_engine::imaging::DecodeOutcome;
use dlc_engine::launcher::{launcher_exit_code, sidecar_layout};
use dlc_engine::server::{health, AppState, SettingsUpdate};

fn jpeg_bytes() -> Vec<u8> {
    let img = image::RgbImage::from_pixel(8, 8, image::Rgb([200, 100, 50]));
    let mut out = std::io::Cursor::new(Vec::new());
    img.write_to(&mut out, image::ImageFormat::Jpeg).unwrap();
    out.into_inner()
}

fn png_bytes() -> Vec<u8> {
    let img = image::RgbImage::new(2, 2);
    let mut out = std::io::Cursor::new(Vec::new());
    img.write_to(&mut out, image::ImageFormat::Png).unwrap();
    out.into_inner()
}

#[test]
fn test_health_returns_ok() {
    let h = health();
    assert_eq!(h.status, "ok");
    assert_eq!(h.backend, "rust");
}

#[test]
fn test_cameras_returns_json_array() {
    let cams = list_cameras().unwrap();
    assert_eq!(cams.len(), 1);
}

#[test]
fn test_cameras_has_at_least_one_entry() {
    let cams = list_cameras().unwrap();
    assert!(!cams.is_empty());
    assert_eq!(cams[0].index, 0);
    assert_eq!(cams[0].name, "Default Camera");
}

#[test]
fn test_get_settings_has_fp_ui() {
    let s = AppState::default();
    let v = s.settings();
    assert!(!v.face_enhancer);
    assert!(!v.face_enhancer_gpen256);
    assert!(!v.face_enhancer_gpen512);
    assert_eq!(v.frame_processors, vec!["face_swapper".to_string()]);
}

#[test]
fn test_post_settings_toggles_enhancer() {
    let mut s = AppState::default();
    s.update_settings(&SettingsUpdate {
        face_enhancer: Some(true),
        face_enhancer_gpen256: None,
        face_enhancer_gpen512: None,
    });
    let v = s.settings();
    assert!(v.face_enhancer);
    assert!(!v.face_enhancer_gpen256);
    assert!(!v.face_enhancer_gpen512);
}

#[test]
fn settings_update_is_idempotent_and_partial() {
    let mut s = AppState::default();
    let u = SettingsUpdate {
        face_enhancer: None,
        face_enhancer_gpen256: Some(true),
        face_enhancer_gpen512: Some(false),
    };
    s.update_settings(&u);
    let once = s.settings();
    s.update_settings(&u);
    let twice = s.settings();
    assert_eq!(once.face_enhancer_gpen256, twice.face_enhancer_gpen256);
    assert!(twice.face_enhancer_gpen256);
    assert!(!twice.face_enhancer);
    assert_eq!(s.active_camera, 0);
    s.update_settings(&SettingsUpdate { face_enhancer: None, face_enhancer_gpen256: None, face_enhancer_gpen512: None });
    assert!(s.face_enhancer_gpen256);
    s.update_settings(&SettingsUpdate { face_enhancer: None, face_enhancer_gpen256: Some(false), face_enhancer_gpen512: None });
    assert!(!s.face_enhancer_gpen256);
}

#[test]
fn test_source_upload_valid_jpeg() {
    let mut s = AppState::default();
    let bytes = jpeg_bytes();
    let n = bytes.len();
    assert_eq!(s.upload_source(bytes.clone()).unwrap(), n);
    assert_eq!(s.source_image_bytes, Some(bytes));
}

#[test]
fn source_upload_valid_png() {
    let mut s = AppState::default();
    let bytes = png_bytes();
    let n = bytes.len();
    assert_eq!(s.upload_source(bytes.clone()).unwrap(), n);
    assert_eq!(s.source_image_bytes, Some(bytes));
}

#[test]
fn test_source_upload_invalid_image_returns_422() {
    let mut s = AppState::default();
    let r = s.upload_source(b"not-an-image-just-garbage-data-xyz".to_vec());
    match r {
        Err(DlcError::InvalidImage { .. }) => {}
        other => panic!("expected an invalid image error, got {:?}", other),
    }
    assert_eq!(s.source_image_bytes, None);
}

#[test]
fn test_set_camera_valid_index() {
    let mut s = AppState::default();
    let cams = list_cameras().unwrap();
    assert_eq!(s.set_camera(0, &cams).unwrap(), 0);
    assert_eq!(s.active_camera, 0);
}

#[test]
fn test_set_camera_invalid_index_returns_400() {
    let mut s = AppState::default();
    let cams = list_cameras().unwrap();
    let e = s.set_camera(99, &cams).unwrap_err();
    assert_eq!(e.text(), "Camera 99 not available");
    assert_eq!(s.active_camera, 0);
}

#[test]
fn set_camera_switches_among_listed_cameras() {
    let mut s = AppState::default();
    let cams = vec![
        dlc_engine::capture::CameraInfo { index: 0, name: "a".to_string() },
        dlc_engine::capture::CameraInfo { index: 3, name: "b".to_string() },
    ];
    assert_eq!(s.set_camera(3, &cams).unwrap(), 3);
    assert_eq!(s.active_camera, 3);
    assert!(s.set_camera(2, &cams).is_err());
    assert_eq!(s.active_camera, 3);
}

#[test]
fn app_state_default_values() {
    let s = AppState::default();
    assert_eq!(s.active_camera, 0);
    assert!(!s.face_enhancer_gfpgan);
    assert_eq!(s.frame_processors, vec!["face_swapper".to_string()]);
    assert_eq!(s.source_image_bytes, None);
}

#[test]
fn pipeline_config_default_values() {
    let c = PipelineConfig::default();
    assert!(c.face_swap_enabled);
    assert!(!c.face_enhancer_gfpgan);
    assert!(!c.face_enhancer_gpen256);
    assert!(!c.face_enhancer_gpen512);
    assert_eq!(c.jpeg_quality, 80);
}

#[test]
fn gpu_provider_default_is_auto() {
    assert!(matches!(GpuProvider::default(), GpuProvider::Auto));
}

#[test]
fn session_plan_auto_uses_directml_then_cpu() {
    let p = GpuProvider::Auto.session_plan();
    assert_eq!(p.optimization, OptimizationLevel::Level3);
    assert!(p.disable_memory_pattern);
    assert_eq!(p.targets, vec![ExecutionTarget::DirectML { device_id: 0 }, ExecutionTarget::Cpu]);
    assert!(!p.falls_back_to_cpu);
}

#[test]
fn session_plan_directml_keeps_device() {
    let p = GpuProvider::DirectML { device_id: 2 }.session_plan();
    assert!(p.disable_memory_pattern);
    assert_eq!(p.targets, vec![ExecutionTarget::DirectML { device_id: 2 }]);
    assert_eq!(GpuProvider::DirectML { device_id: 2 }.device_id(), 2);
}

#[test]
fn session_plan_cpu_and_npu_use_cpu_only() {
    let c = GpuProvider::Cpu.session_plan();
    assert!(!c.disable_memory_pattern);
    assert_eq!(c.targets, vec![ExecutionTarget::Cpu]);
    assert!(!c.falls_back_to_cpu);
    let n = GpuProvider::Npu { config_file: "vaip_config.json".to_string() }.session_plan();
    assert_eq!(n.targets, vec![ExecutionTarget::Cpu]);
    assert!(n.falls_back_to_cpu);
    assert_eq!(n.optimization, OptimizationLevel::Level3);
}

#[test]
fn fp16_variant_path_appends_suffix_to_stem() {
    assert_eq!(
        GpuProvider::fp16_variant_path("models/inswapper_128.onnx"),
        "models/inswapper_128_fp16.onnx"
    );
    assert_eq!(GpuProvider::fp16_variant_path("inswapper_128.onnx"), "inswapper_128_fp16.onnx");
    assert_eq!(GpuProvider::fp16_variant_path("models/a.b.onnx"), "models/a.b_fp16.onnx");
}

#[test]
fn fp16_variant_path_without_extension() {
    assert_eq!(GpuProvider::fp16_variant_path("models/model"), "models/model_fp16.");
}

#[test]
fn resolve_model_path_prefers_present_fp16() {
    assert_eq!(
        GpuProvider::resolve_model_path("m/inswapper_128.onnx", true),
        "m/inswapper_128_fp16.onnx"
    );
    assert_eq!(GpuProvider::resolve_model_path("m/inswapper_128.onnx", false), "m/inswapper_128.onnx");
}

#[test]
fn required_models_and_detector_path() {
    assert_eq!(
        required_models(),
        vec![
            "inswapper_128.onnx".to_string(),
            "buffalo_l/buffalo_l/det_10g.onnx".to_string(),
            "gfpgan-1024.onnx".to_string()
        ]
    );
    assert_eq!(detector_model(), "buffalo_l/buffalo_l/det_10g.onnx");
    assert_eq!(
        model_file_path("/opt/models", &detector_model()),
        "/opt/models/buffalo_l/buffalo_l/det_10g.onnx"
    );
}

#[test]
fn backend_url_is_local_port_8008() {
    assert_eq!(get_backend_url(), "http://localhost:8008");
}

#[test]
fn target_triples_per_os() {
    assert_eq!(sidecar_target_triple(HostOs::Windows), "x86_64-pc-windows-msvc");
    assert_eq!(sidecar_target_triple(HostOs::Linux), "x86_64-unknown-linux-gnu");
    assert_eq!(sidecar_target_triple(HostOs::Other), "aarch64-apple-darwin");
}

#[test]
fn server_candidates_in_priority_order() {
    let c = server_exe_candidates("/res", "x86_64-unknown-linux-gnu", "");
    assert_eq!(
        c,
        vec![
            "/res/deep-live-cam-server".to_string(),
            "/res/binaries/deep-live-cam-server-x86_64-unknown-linux-gnu".to_string()
        ]
    );
    let w = server_exe_candidates("res", "x86_64-pc-windows-msvc", ".exe");
    assert_eq!(w[0], "res/deep-live-cam-server.exe");
    assert_eq!(w[1], "res/binaries/deep-live-cam-server-x86_64-pc-windows-msvc.exe");
    assert_eq!(server_exe_beside("/usr/bin", ".exe"), "/usr/bin/deep-live-cam-server.exe");
}

#[test]
fn resolve_server_exe_picks_first_present() {
    let c = vec!["a".to_string(), "b".to_string()];
    assert_eq!(resolve_server_exe(&c, &vec![false, true], None), "b");
    assert_eq!(resolve_server_exe(&c, &vec![true, true], None), "a");
    assert_eq!(resolve_server_exe(&c, &vec![false, false], Some(("x".to_string(), true))), "x");
    assert_eq!(resolve_server_exe(&c, &vec![false, false], Some(("x".to_string(), false))), "a");
    assert_eq!(resolve_server_exe(&c, &vec![false, false], None), "a");
    assert_eq!(resolve_server_exe(&c, &vec![false, true], Some(("x".to_string(), true))), "b");
}

#[test]
fn error_texts() {
    assert_eq!(decimal_string(0), "0");
    assert_eq!(decimal_string(4096), "4096");
    assert_eq!(decimal_string(u32::MAX), "4294967295");
    let e = DlcError::Session { stage: SessionStage::CommitFromFile, message: "no file".to_string() };
    assert_eq!(e.text(), "commit_from_file: no file");
    let e = DlcError::Session { stage: SessionStage::Builder, message: "x".to_string() };
    assert_eq!(e.text(), "Session::builder: x");
    let e = DlcError::InvalidImage { message: "bad".to_string() };
    assert_eq!(e.text(), "invalid image: bad");
}

#[test]
fn accept_source_uses_the_decode_outcome() {
    let mut s = AppState::default();
    let garbage = vec![1, 2, 3];
    let e = s.accept_source(garbage.clone(), DecodeOutcome::of(&garbage)).unwrap_err();
    assert!(e.text().starts_with("invalid image: "));
    assert_eq!(s.source_image_bytes, None);
    let png = png_bytes();
    assert_eq!(s.accept_source(png.clone(), DecodeOutcome::of(&png)).unwrap(), png.len());
    assert_eq!(s.source_image_bytes, Some(png));
}

#[test]
fn session_steps_per_provider() {
    assert_eq!(
        GpuProvider::Auto.session_steps(),
        vec![
            SessionStep::Optimization(OptimizationLevel::Level3),
            SessionStep::MemoryPattern(false),
            SessionStep::Providers(vec![ExecutionTarget::DirectML { device_id: 0 }, ExecutionTarget::Cpu]),
        ]
    );
    assert_eq!(
        GpuProvider::DirectML { device_id: 1 }.session_steps(),
        vec![
            SessionStep::Optimization(OptimizationLevel::Level3),
            SessionStep::MemoryPattern(false),
            SessionStep::Providers(vec![ExecutionTarget::DirectML { device_id: 1 }]),
        ]
    );
    assert_eq!(
        GpuProvider::Cpu.session_steps(),
        vec![
            SessionStep::Optimization(OptimizationLevel::Level3),
            SessionStep::Providers(vec![ExecutionTarget::Cpu]),
        ]
    );
}

#[test]
fn validation_without_failures_succeeds() {
    let v = ModelValidation::from_checks(vec![ModelCheck::Absent, ModelCheck::Absent, ModelCheck::Absent]);
    assert!(v.outcome.is_ok());
    assert_eq!(v.checks.len(), 3);
    assert!(ModelValidation::from_checks(vec![]).outcome.is_ok());
}

#[test]
fn sidecar_layout_and_exit_code() {
    let l = sidecar_layout("/opt/dlc/bin");
    assert_eq!(l.sidecar_dir, "/opt/dlc/bin/../sidecar");
    assert_eq!(l.python, "/opt/dlc/bin/../sidecar/venv/Scripts/python.exe");
    assert_eq!(l.server_script, "/opt/dlc/bin/../sidecar/app/server.py");
    assert_eq!(l.python_home, "/opt/dlc/bin/../sidecar/python");
    assert_eq!(l.python_path, "/opt/dlc/bin/../sidecar/app");
    assert_eq!(l.models_dir, "/opt/dlc/bin/../sidecar/models");
    assert_eq!(launcher_exit_code(Some(Some(3))), 3);
    assert_eq!(launcher_exit_code(Some(None)), 1);
    assert_eq!(launcher_exit_code(None), 1);
}
