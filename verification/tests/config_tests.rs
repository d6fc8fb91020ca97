use musiccut::config::{
    default_max_gap_duration, default_model_id, device_name, requested_acceleration, uses_gpu,
    AccelerationMode, AppConfig, DetectionConfig, GpuType, LogLevel, MatchConfig, SeparationConfig,
    WindowState,
};
use musiccut::error::AppError;
use musiccut::fingerprint::Confidence;
use musiccut::system::{
    get_acceleration_options, get_cpu_info, get_cpu_info_windows, get_storage_info, gpu_capabilities,
    dependency_check, GpuCapabilities,
};
use musiccut::utils::{default_file_exists, generate_id, GpuInfo};

#[test]
fn defaults_of_the_enums() {
    assert_eq!(AccelerationMode::default(), AccelerationMode::Gpu);
    assert_eq!(GpuType::default(), GpuType::Absent);
    assert_eq!(LogLevel::default(), LogLevel::Info);
}

#[test]
fn names_of_the_log_levels() {
    assert_eq!(LogLevel::Error.as_str(), "error");
    assert_eq!(LogLevel::Warn.as_str(), "warn");
    assert_eq!(LogLevel::Info.as_str(), "info");
    assert_eq!(LogLevel::Debug.as_str(), "debug");
    assert_eq!(LogLevel::Trace.as_str(), "trace");
}

#[test]
fn default_settings() {
    let config = AppConfig::default();
    assert_eq!(config.detected_gpu, GpuType::Absent);
    assert_eq!(config.separation.selected_model_id, "mdx-inst-hq3");
    assert_eq!(config.separation.output_format, "wav");
    assert_eq!(config.matching, MatchConfig::default());
    assert_eq!(config.matching.min_confidence, Confidence::from_ratio(6, 10));
    assert_eq!(config.matching.min_segment_duration, 5_000);
    assert_eq!(config.matching.window_size, 15_000);
    assert_eq!(config.matching.hop_size, 5_000);
    assert_eq!(config.matching.max_gap_duration, 10_000);
    assert_eq!(config.detection, DetectionConfig::default());
    assert_eq!(config.detection.confidence_threshold, Confidence::from_ratio(1, 2));
    assert_eq!(config.detection.frame_interval, 5);
    assert_eq!(config.detection.min_segment_duration, 1_000);
    assert_eq!(config.detection.max_gap_duration, 2_000);
    assert_eq!(
        config.window_state,
        WindowState { width: 1400, height: 800, x: None, y: None, maximized: false }
    );
    assert_eq!(config.log_level, LogLevel::Info);
    assert_eq!(default_model_id(), "mdx-inst-hq3");
    assert_eq!(default_max_gap_duration(), 10_000);
    assert_eq!(SeparationConfig::default().output_format, "wav");
}

#[test]
fn stitch_settings_of_a_config() {
    let settings = MatchConfig::default().stitch_settings(61_500);
    assert_eq!(settings.window_size, 15_000);
    assert_eq!(settings.hop_size, 5_000);
    assert_eq!(settings.min_segment_duration, 5_000);
    assert_eq!(settings.max_gap_duration, 10_000);
    assert_eq!(settings.total_duration, 61_500);
}

#[test]
fn requested_confidence_wins_over_the_configured() {
    let config = MatchConfig::default();
    assert_eq!(config.effective_min_confidence(None), Confidence::from_ratio(6, 10));
    let asked = Confidence::from_ratio(8, 10);
    assert_eq!(config.effective_min_confidence(Some(asked)), asked);
}

#[test]
fn window_state_is_replaced_alone() {
    let mut config = AppConfig::default();
    config.log_level = LogLevel::Debug;
    config.separation.output_format = "flac".to_string();
    let state = WindowState { width: 640, height: 480, x: Some(-5), y: Some(7), maximized: true };
    let updated = config.with_window_state(state);
    assert_eq!(updated.window_state, state);
    assert_eq!(updated.log_level, LogLevel::Debug);
    assert_eq!(updated.separation.output_format, "flac");
    assert_eq!(updated.matching, MatchConfig::default());
}

#[test]
fn acceleration_of_a_request() {
    assert_eq!(requested_acceleration(Some("cpu")), AccelerationMode::Cpu);
    assert_eq!(requested_acceleration(Some("gpu")), AccelerationMode::Gpu);
    assert_eq!(requested_acceleration(Some("auto")), AccelerationMode::Gpu);
    assert_eq!(requested_acceleration(Some("hybrid")), AccelerationMode::Gpu);
    assert_eq!(requested_acceleration(Some("CPU")), AccelerationMode::Gpu);
    assert_eq!(requested_acceleration(Some("")), AccelerationMode::Gpu);
    assert_eq!(requested_acceleration(None), AccelerationMode::Gpu);
}

#[test]
fn devices_of_the_modes() {
    assert!(!uses_gpu(AccelerationMode::Cpu));
    assert!(uses_gpu(AccelerationMode::Gpu));
    assert!(uses_gpu(AccelerationMode::Hybrid));
    assert!(uses_gpu(AccelerationMode::Auto));
    assert_eq!(device_name(AccelerationMode::Cpu), "cpu");
    assert_eq!(device_name(AccelerationMode::Gpu), "gpu");
    assert_eq!(device_name(AccelerationMode::Hybrid), "auto");
    assert_eq!(device_name(AccelerationMode::Auto), "auto");
}

#[test]
fn messages_of_the_errors() {
    assert_eq!(AppError::Cancelled.message(), "task cancelled");
    assert!(AppError::Cancelled.is_cancelled());
    let error = AppError::InvalidArgument("hop".to_string());
    assert_eq!(error.message(), "invalid argument: hop");
    assert!(!error.is_cancelled());
    assert_eq!(AppError::NotFound("x".to_string()).message(), "not found: x");
    assert_eq!(AppError::Config("x".to_string()).message(), "configuration error: x");
    assert_eq!(AppError::DependencyMissing("x".to_string()).message(), "missing dependency: x");
    assert_eq!(AppError::Database("x".to_string()).message(), "database error: x");
    assert_eq!(AppError::Io("x".to_string()).message(), "I/O error: x");
    assert_eq!(AppError::Json("x".to_string()).message(), "JSON error: x");
    assert_eq!(AppError::FFmpeg("x".to_string()).message(), "FFmpeg error: x");
    assert_eq!(AppError::Fingerprint("x".to_string()).message(), "fingerprint error: x");
    assert_eq!(AppError::VocalSeparation("x".to_string()).message(), "vocal separation error: x");
    assert_eq!(AppError::Detection("x".to_string()).message(), "person detection error: x");
    assert_eq!(AppError::Video("".to_string()).message(), "video error: ");
}

#[test]
fn ids_are_uuids() {
    let a = generate_id();
    let b = generate_id();
    assert_eq!(a.len(), 36);
    assert_ne!(a, b);
    let dashes: Vec<usize> = a.char_indices().filter(|(_, c)| *c == '-').map(|(i, _)| i).collect();
    assert_eq!(dashes, vec![8, 13, 18, 23]);
    assert!(default_file_exists());
}

fn gpu(available: bool) -> GpuInfo {
    GpuInfo {
        available,
        name: "RTX".to_string(),
        gpu_type: "nvidia".to_string(),
        memory: 8,
        onnx_gpu_available: available,
    }
}

#[test]
fn acceleration_options() {
    let options = get_acceleration_options(8, gpu(true), GpuCapabilities { onnx_gpu_available: true });
    assert!(options.cpu_available);
    assert_eq!(options.cpu_threads, 8);
    assert!(options.gpu_available);
    assert_eq!(options.gpu_name, "RTX");
    assert_eq!(options.gpu_type, "nvidia");
    assert!(options.onnx_gpu_available);
    assert_eq!(options.recommended, "hybrid");
    let options = get_acceleration_options(2, gpu(true), GpuCapabilities { onnx_gpu_available: false });
    assert!(options.gpu_available);
    assert!(!options.onnx_gpu_available);
    assert_eq!(options.recommended, "cpu");
}

#[test]
fn gpu_providers() {
    assert!(gpu_capabilities(true, false, false).onnx_gpu_available);
    assert!(gpu_capabilities(false, true, false).onnx_gpu_available);
    assert!(gpu_capabilities(false, false, true).onnx_gpu_available);
    assert!(!gpu_capabilities(false, false, false).onnx_gpu_available);
}

#[test]
fn storage_total_is_the_sum() {
    let info = get_storage_info("/app".to_string(), "/app/db".to_string(), "/app/cfg".to_string(), 10, 20, 30);
    assert_eq!(info.app_dir, "/app");
    assert_eq!(info.db_path, "/app/db");
    assert_eq!(info.config_path, "/app/cfg");
    assert_eq!((info.db_size, info.config_size, info.temp_size), (10, 20, 30));
    assert_eq!(info.total_size, 60);
}

#[test]
fn cpu_info_prefers_what_the_system_reported() {
    assert_eq!(get_cpu_info(8, 4, None), ("Unknown".to_string(), 4, 8));
    assert_eq!(get_cpu_info(8, 0, None), ("Unknown".to_string(), 8, 8));
    let reported = Some(("Ryzen".to_string(), 6, 12));
    assert_eq!(get_cpu_info(8, 4, reported), ("Ryzen".to_string(), 6, 12));
    let reported = Some(("".to_string(), 0, 0));
    assert_eq!(get_cpu_info(8, 4, reported), ("Unknown".to_string(), 4, 8));
    let reported = Some(("Ryzen".to_string(), 0, 16));
    assert_eq!(get_cpu_info(8, 0, reported), ("Ryzen".to_string(), 8, 16));
}

#[test]
fn cpu_report_needs_one_field() {
    assert_eq!(get_cpu_info_windows(None, None, None), None);
    assert_eq!(get_cpu_info_windows(None, Some(4), None), Some(("Unknown".to_string(), 4, 0)));
    assert_eq!(
        get_cpu_info_windows(Some("Ryzen".to_string()), None, Some(12)),
        Some(("Ryzen".to_string(), 0, 12))
    );
}

#[test]
fn dependency_reports() {
    let found = dependency_check(
        "FFmpeg",
        Some((Some("6.0".to_string()), Some("/usr/bin/ffmpeg".to_string()))),
        "installed",
        "missing",
    );
    assert_eq!(found.name, "FFmpeg");
    assert!(found.available);
    assert_eq!(found.version.as_deref(), Some("6.0"));
    assert_eq!(found.path.as_deref(), Some("/usr/bin/ffmpeg"));
    assert_eq!(found.message, "installed");
    let missing = dependency_check("CUDA", None, "installed", "missing");
    assert!(!missing.available);
    assert_eq!(missing.version, None);
    assert_eq!(missing.path, None);
    assert_eq!(missing.message, "missing");
}
