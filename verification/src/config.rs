//! The settings of the application and their defaults. Durations are whole
//! milliseconds; confidences are fixed-point fractions.

use crate::fingerprint::{Confidence, CONFIDENCE_ONE};
use crate::stitch::StitchSettings;
use vstd::prelude::*;
use vstd::string::StringExecFns;

verus! {

/// Where heavy work runs.
#[derive(Debug, Clone, Copy, PartialEq, Eq, Structural)]
pub enum AccelerationMode {
    /// On the CPU only.
    Cpu,
    /// On the GPU only.
    Gpu,
    /// On both.
    Hybrid,
    /// Wherever is best.
    Auto,
}

impl Default for AccelerationMode {
    fn default() -> (mode: Self)
        ensures
            mode == AccelerationMode::Gpu,
    {
        AccelerationMode::Gpu
    }
}

/// The make of the GPU that was found.
#[derive(Debug, Clone, Copy, PartialEq, Eq, Structural)]
pub enum GpuType {
    Nvidia,
    Amd,
    Intel,
    /// No GPU was found.
    Absent,
}

impl Default for GpuType {
    fn default() -> (gpu: Self)
        ensures
            gpu == GpuType::Absent,
    {
        GpuType::Absent
    }
}

/// How much is logged.
#[derive(Debug, Clone, Copy, PartialEq, Eq, Structural)]
pub enum LogLevel {
    Error,
    Warn,
    Info,
    Debug,
    Trace,
}

impl Default for LogLevel {
    fn default() -> (level: Self)
        ensures
            level == LogLevel::Info,
    {
        LogLevel::Info
    }
}

impl LogLevel {
    /// The name of the level as a log filter takes it.
    pub open spec fn spec_as_str(&self) -> Seq<char> {
        match self {
            LogLevel::Error => "error"@,
            LogLevel::Warn => "warn"@,
            LogLevel::Info => "info"@,
            LogLevel::Debug => "debug"@,
            LogLevel::Trace => "trace"@,
        }
    }

    /// The name of the level as a log filter takes it.
    pub fn as_str(&self) -> (name: &'static str)
        ensures
            name@ == self.spec_as_str(),
    {
        match self {
            LogLevel::Error => "error",
            LogLevel::Warn => "warn",
            LogLevel::Info => "info",
            LogLevel::Debug => "debug",
            LogLevel::Trace => "trace",
        }
    }
}

/// Settings of vocal separation.
#[derive(Debug, Clone)]
pub struct SeparationConfig {
    /// Id of the model in use.
    pub selected_model_id: String,
    /// Format of the files written.
    pub output_format: String,
}

/// Id of the model that is used where none was chosen.
pub fn default_model_id() -> (id: String)
    ensures
        id@ == "mdx-inst-hq3"@,
{
    String::from_str("mdx-inst-hq3")
}

impl Default for SeparationConfig {
    fn default() -> (config: Self)
        ensures
            config.selected_model_id@ == "mdx-inst-hq3"@,
            config.output_format@ == "wav"@,
    {
        SeparationConfig {
            selected_model_id: default_model_id(),
            output_format: String::from_str("wav"),
        }
    }
}

/// Size and place of the main window.
#[derive(Debug, Clone, Copy, PartialEq, Eq, Structural)]
pub struct WindowState {
    pub width: u32,
    pub height: u32,
    pub x: Option<i32>,
    pub y: Option<i32>,
    pub maximized: bool,
}

impl Default for WindowState {
    fn default() -> (state: Self)
        ensures
            state == (WindowState { width: 1400, height: 800, x: None, y: None, maximized: false }),
    {
        WindowState { width: 1400, height: 800, x: None, y: None, maximized: false }
    }
}

/// Settings of person detection.
#[derive(Debug, Clone, Copy, PartialEq, Eq, Structural)]
pub struct DetectionConfig {
    /// Least confidence of a detection that counts.
    pub confidence_threshold: Confidence,
    /// One frame in this many is looked at.
    pub frame_interval: u32,
    /// Shortest segment that is kept.
    pub min_segment_duration: u64,
    /// Longest gap that a segment bridges.
    pub max_gap_duration: u64,
}

impl Default for DetectionConfig {
    fn default() -> (config: Self)
        ensures
            config == (DetectionConfig {
                confidence_threshold: Confidence { scaled: 500_000_000_000_000_000 },
                frame_interval: 5,
                min_segment_duration: 1_000,
                max_gap_duration: 2_000,
            }),
    {
        DetectionConfig {
            confidence_threshold: Confidence { scaled: 500_000_000_000_000_000 },
            frame_interval: 5,
            min_segment_duration: 1_000,
            max_gap_duration: 2_000,
        }
    }
}

/// Settings of matching.
#[derive(Debug, Clone, Copy, PartialEq, Eq, Structural)]
pub struct MatchConfig {
    /// Least confidence of a window's match that counts.
    pub min_confidence: Confidence,
    /// Shortest segment that is kept.
    pub min_segment_duration: u64,
    /// Length of a window.
    pub window_size: u64,
    /// Time between the starts of consecutive windows.
    pub hop_size: u64,
    /// Longest gap between two matches of one track that a segment bridges.
    pub max_gap_duration: u64,
}

/// The gap tolerance that is used where none was set.
pub fn default_max_gap_duration() -> (gap: u64)
    ensures
        gap == 10_000,
{
    10_000
}

impl Default for MatchConfig {
    fn default() -> (config: Self)
        ensures
            config == (MatchConfig {
                min_confidence: Confidence { scaled: 600_000_000_000_000_000 },
                min_segment_duration: 5_000,
                window_size: 15_000,
                hop_size: 5_000,
                max_gap_duration: 10_000,
            }),
    {
        MatchConfig {
            min_confidence: Confidence { scaled: 600_000_000_000_000_000 },
            min_segment_duration: 5_000,
            window_size: 15_000,
            hop_size: 5_000,
            max_gap_duration: default_max_gap_duration(),
        }
    }
}

impl MatchConfig {
    /// The sizes that govern stitching for audio of this length.
    pub fn stitch_settings(&self, total_duration: u64) -> (settings: StitchSettings)
        ensures
            settings.window_size == self.window_size,
            settings.hop_size == self.hop_size,
            settings.min_segment_duration == self.min_segment_duration,
            settings.max_gap_duration == self.max_gap_duration,
            settings.total_duration == total_duration,
    {
        StitchSettings {
            window_size: self.window_size,
            hop_size: self.hop_size,
            min_segment_duration: self.min_segment_duration,
            max_gap_duration: self.max_gap_duration,
            total_duration,
        }
    }

    /// The least confidence for a request: the one asked for, or the
    /// configured one where none was.
    pub fn effective_min_confidence(&self, requested: Option<Confidence>) -> (min: Confidence)
        ensures
            min == match requested {
                Some(c) => c,
                None => self.min_confidence,
            },
    {
        match requested {
            Some(c) => c,
            None => self.min_confidence,
        }
    }
}

/// All settings of the application.
#[derive(Debug, Clone)]
pub struct AppConfig {
    /// The GPU that was found.
    pub detected_gpu: GpuType,
    pub separation: SeparationConfig,
    pub matching: MatchConfig,
    pub detection: DetectionConfig,
    pub window_state: WindowState,
    pub log_level: LogLevel,
}

impl Default for AppConfig {
    fn default() -> (config: Self)
        ensures
            config.detected_gpu == GpuType::Absent,
            config.separation.selected_model_id@ == "mdx-inst-hq3"@,
            config.separation.output_format@ == "wav"@,
            config.matching == (MatchConfig {
                min_confidence: Confidence { scaled: 600_000_000_000_000_000 },
                min_segment_duration: 5_000,
                window_size: 15_000,
                hop_size: 5_000,
                max_gap_duration: 10_000,
            }),
            config.detection == (DetectionConfig {
                confidence_threshold: Confidence { scaled: 500_000_000_000_000_000 },
                frame_interval: 5,
                min_segment_duration: 1_000,
                max_gap_duration: 2_000,
            }),
            config.window_state == (WindowState {
                width: 1400,
                height: 800,
                x: None,
                y: None,
                maximized: false,
            }),
            config.log_level == LogLevel::Info,
    {
        AppConfig {
            detected_gpu: GpuType::Absent,
            separation: SeparationConfig::default(),
            matching: MatchConfig::default(),
            detection: DetectionConfig::default(),
            window_state: WindowState::default(),
            log_level: LogLevel::default(),
        }
    }
}

impl AppConfig {
    /// The settings with the state of the main window replaced.
    pub fn with_window_state(self, window_state: WindowState) -> (config: AppConfig)
        ensures
            config.window_state == window_state,
            config.detected_gpu == self.detected_gpu,
            config.separation == self.separation,
            config.matching == self.matching,
            config.detection == self.detection,
            config.log_level == self.log_level,
    {
        AppConfig {
            detected_gpu: self.detected_gpu,
            separation: self.separation,
            matching: self.matching,
            detection: self.detection,
            window_state,
            log_level: self.log_level,
        }
    }
}

/// The acceleration mode that a request names: the CPU where it says "cpu",
/// the GPU for any other word and where it says nothing.
pub fn requested_acceleration(acceleration: Option<&str>) -> (mode: AccelerationMode)
    ensures
        mode == match acceleration {
            Some(word) => if word@ == "cpu"@ {
                AccelerationMode::Cpu
            } else {
                AccelerationMode::Gpu
            },
            None => AccelerationMode::Gpu,
        },
{
    match acceleration {
        Some(word) => {
            if String::from_str(word) == String::from_str("cpu") {
                AccelerationMode::Cpu
            } else {
                AccelerationMode::Gpu
            }
        },
        None => AccelerationMode::Gpu,
    }
}

/// Whether work in this mode may use the GPU: in every mode but `Cpu`.
pub fn uses_gpu(mode: AccelerationMode) -> (yes: bool)
    ensures
        yes == (mode != AccelerationMode::Cpu),
{
    match mode {
        AccelerationMode::Cpu => false,
        _ => true,
    }
}

/// The word by which the detector is told the device for this mode.
pub fn device_name(mode: AccelerationMode) -> (name: &'static str)
    ensures
        name@ == match mode {
            AccelerationMode::Cpu => "cpu"@,
            AccelerationMode::Gpu => "gpu"@,
            _ => "auto"@,
        },
{
    match mode {
        AccelerationMode::Cpu => "cpu",
        AccelerationMode::Gpu => "gpu",
        _ => "auto",
    }
}

/// What the main window is seen to be.
#[derive(Debug, Clone, Copy, PartialEq, Eq, Structural)]
pub struct ObservedWindow {
    pub width: u32,
    pub height: u32,
    pub x: i32,
    pub y: i32,
    pub maximized: bool,
    pub minimized: bool,
}

/// The state of the main window to save with the settings.
///
/// The size and place of a window in its normal state are saved as seen. A
/// window that is maximized or minimized has the size and place of that
/// state, not its own: the saved ones are kept, and only whether it is
/// maximized is taken from what is seen. Where the window cannot be seen,
/// the saved state is kept as it is.
pub fn window_state_to_save(saved: WindowState, observed: Option<ObservedWindow>) -> (state:
    WindowState)
    ensures
        state == match observed {
            None => saved,
            Some(seen) => if seen.minimized || seen.maximized {
                WindowState {
                    width: saved.width,
                    height: saved.height,
                    x: saved.x,
                    y: saved.y,
                    maximized: seen.maximized,
                }
            } else {
                WindowState {
                    width: seen.width,
                    height: seen.height,
                    x: Some(seen.x),
                    y: Some(seen.y),
                    maximized: seen.maximized,
                }
            },
        },
{
    match observed {
        None => saved,
        Some(seen) => {
            if seen.minimized || seen.maximized {
                WindowState {
                    width: saved.width,
                    height: saved.height,
                    x: saved.x,
                    y: saved.y,
                    maximized: seen.maximized,
                }
            } else {
                WindowState {
                    width: seen.width,
                    height: seen.height,
                    x: Some(seen.x),
                    y: Some(seen.y),
                    maximized: seen.maximized,
                }
            }
        },
    }
}

} // verus!
