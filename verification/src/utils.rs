//! The records that the application passes around, and the ids it gives
//! them. Times and durations are whole milliseconds.

use crate::fingerprint::Confidence;
use crate::text::same_text;
use vstd::prelude::*;

verus! {

/// Whether a segment is still part of the result or was taken out by the
/// user.
#[derive(Debug, Clone, Copy, PartialEq, Eq, Structural)]
pub enum SegmentStatus {
    Detected,
    Removed,
}

impl SegmentStatus {
    /// The word under which the status is stored.
    pub open spec fn spec_as_str(&self) -> Seq<char> {
        match self {
            SegmentStatus::Detected => "detected"@,
            SegmentStatus::Removed => "removed"@,
        }
    }

    /// The word under which the status is stored.
    pub fn as_str(&self) -> (word: &'static str)
        ensures
            word@ == self.spec_as_str(),
    {
        match self {
            SegmentStatus::Detected => "detected",
            SegmentStatus::Removed => "removed",
        }
    }

    /// The status that a stored word stands for: removed for "removed",
    /// detected for any other word.
    pub fn from_stored(word: &str) -> (status: SegmentStatus)
        ensures
            status == if word@ == "removed"@ {
                SegmentStatus::Removed
            } else {
                SegmentStatus::Detected
            },
    {
        if same_text(word, "removed") {
            SegmentStatus::Removed
        } else {
            SegmentStatus::Detected
        }
    }
}

/// A stretch of a project's video that is attributed to one reference track
/// (or to none, for a stretch found by other means).
#[derive(Debug, Clone)]
pub struct Segment {
    pub id: String,
    pub project_id: String,
    pub music_id: Option<String>,
    pub music_title: Option<String>,
    pub start_time: u64,
    pub end_time: u64,
    pub confidence: Confidence,
    pub status: SegmentStatus,
}

/// A reference track that a whole file matches, and how well.
#[derive(Debug, Clone)]
pub struct MatchResult {
    pub music_id: String,
    pub music_title: String,
    pub confidence: Confidence,
    pub start_time: u64,
    pub end_time: u64,
}

/// Number of characters of an id made by [`generate_id`].
pub const ID_LENGTH: usize = 36;

/// Whether a character is a lower-case hexadecimal digit.
pub open spec fn is_lower_hex(c: char) -> bool {
    ('0' <= c <= '9') || ('a' <= c <= 'f')
}

/// Whether a text has the shape of a UUID in hyphenated form: 36
/// characters, hyphens at the places 8, 13, 18 and 23, and lower-case
/// hexadecimal digits at all others.
pub open spec fn is_uuid_text(text: Seq<char>) -> bool {
    &&& text.len() == ID_LENGTH
    &&& forall|i: int|
        0 <= i < text.len() ==> if i == 8 || i == 13 || i == 18 || i == 23 {
            #[trigger] text[i] == '-'
        } else {
            is_lower_hex(text[i])
        }
}

/// `uuid::Uuid::new_v4` and the `to_string` of its result: a random UUID in
/// hyphenated form, which is 36 characters long, with hyphens at the places
/// 8, 13, 18 and 23 and lower-case hexadecimal digits elsewhere.
#[verifier::external_body]
fn random_uuid_text() -> (text: String)
    ensures
        is_uuid_text(text@),
{
    uuid::Uuid::new_v4().to_string()
}

/// Makes a fresh id: a random UUID in hyphenated form.
pub fn generate_id() -> (id: String)
    ensures
        is_uuid_text(id@),
        id@.len() == ID_LENGTH,
{
    random_uuid_text()
}

/// Where the application keeps its files.
#[derive(Debug, Clone)]
pub struct AppState {
    pub db_path: String,
    pub config_path: String,
    pub app_dir: String,
}

/// Whether a record's file counts as present where nothing is said of it:
/// it does.
pub fn default_file_exists() -> (exists: bool)
    ensures
        exists,
{
    true
}

/// A track of the music library.
#[derive(Debug, Clone)]
pub struct MusicInfo {
    pub id: String,
    pub title: String,
    pub album: Option<String>,
    pub duration: u64,
    pub file_path: String,
    pub fingerprint_hash: String,
    pub created_at: String,
    /// Whether the track's file is still there.
    pub file_exists: bool,
}

/// What is known of a video file. The frame rate is a fraction of frames
/// per second.
#[derive(Debug, Clone)]
pub struct VideoInfo {
    pub path: String,
    pub filename: String,
    pub duration: u64,
    pub width: u32,
    pub height: u32,
    pub fps_numerator: u64,
    pub fps_denominator: u64,
    pub video_codec: String,
    pub audio_codec: String,
    pub bitrate: u64,
    pub size: u64,
    pub format: String,
}

/// A project: a video and the segments found in it.
#[derive(Debug, Clone)]
pub struct Project {
    pub id: String,
    pub name: String,
    pub source_video_path: String,
    /// The file that is played where the source cannot be.
    pub preview_video_path: Option<String>,
    pub video_info: VideoInfo,
    pub segments: Vec<Segment>,
    pub created_at: String,
    pub updated_at: String,
    /// Whether the source video is still there.
    pub file_exists: bool,
}

/// The two files that vocal separation wrote.
#[derive(Debug, Clone)]
pub struct SeparationResult {
    pub vocals_path: String,
    pub accompaniment_path: String,
    pub duration: u64,
}

/// What to cut from a project's video.
#[derive(Debug, Clone)]
pub struct CutParams {
    pub project_id: String,
    pub output_path: String,
    /// Whether the matched segments are kept, or all but them.
    pub keep_matched: bool,
}

/// What is known of the GPU.
#[derive(Debug, Clone)]
pub struct GpuInfo {
    pub available: bool,
    pub name: String,
    pub gpu_type: String,
    pub memory: u64,
    pub onnx_gpu_available: bool,
}

/// What is known of the machine.
#[derive(Debug, Clone)]
pub struct SystemInfo {
    pub os: String,
    pub cpu_model: String,
    pub cpu_cores: usize,
    pub cpu_threads: usize,
    pub memory: u64,
    pub gpu: GpuInfo,
    pub ffmpeg_version: Option<String>,
    pub fpcalc_available: bool,
    pub python_available: bool,
}

/// The outcome of looking for one external dependency.
#[derive(Debug, Clone)]
pub struct DependencyCheck {
    pub name: String,
    pub available: bool,
    pub version: Option<String>,
    pub path: Option<String>,
    pub message: String,
}

/// The ways of acceleration that the machine offers.
#[derive(Debug, Clone)]
pub struct AccelerationOptions {
    pub cpu_available: bool,
    pub cpu_threads: usize,
    pub gpu_available: bool,
    pub gpu_name: String,
    pub gpu_type: String,
    pub onnx_gpu_available: bool,
    /// The mode that is proposed to the user.
    pub recommended: String,
}

} // verus!
