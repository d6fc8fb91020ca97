//! Person detection: the course of the task, what the detector is told and
//! what becomes of its findings. Times are whole milliseconds.

use crate::fingerprint::Confidence;
use crate::gate::{GateFamily, ResourceGates};
use crate::registry::{detection_task, TaskRegistry};
use crate::task::{
    gated_task_step, next_action, next_gates, next_phase, next_registry, to_kill, TaskEvent,
    TaskPhase, TaskStep,
};
use crate::tools::texts;
use crate::utils::{generate_id, is_uuid_text, Segment, SegmentStatus};
use vstd::prelude::*;
use vstd::string::StringExecFns;

verus! {

/// A stretch of the video in which persons were seen, with the highest
/// confidence of any frame in it.
#[derive(Debug, Clone, Copy, PartialEq, Eq, Structural)]
pub struct PersonSegment {
    pub start_time: u64,
    pub end_time: u64,
    pub confidence: Confidence,
}

/// What the detector found, and how many frames it looked at.
#[derive(Debug, Clone)]
pub struct DetectionResult {
    pub segments: Vec<PersonSegment>,
    /// Frames of the video.
    pub total_frames: u64,
    /// Frames that were looked at.
    pub processed_frames: u64,
    /// Frames in which a person was seen.
    pub detection_frames: u64,
}

/// The file into which the detector writes what it finds for a project.
pub open spec fn detection_output(output_dir: Seq<char>, project_id: Seq<char>) -> Seq<char> {
    output_dir + "/"@ + project_id + "_detection.json"@
}

/// Names the file into which the detector writes what it finds for a
/// project. Each project has its own, so that two detections never write to
/// one file.
pub fn detection_output_path(output_dir: &str, project_id: &str) -> (path: String)
    ensures
        path@ == detection_output(output_dir@, project_id@),
{
    String::from_str(output_dir).concat("/").concat(project_id).concat("_detection.json")
}

/// What the detector is told, each option followed by its value.
pub open spec fn detector_command(
    video_path: Seq<char>,
    model_path: Seq<char>,
    output_json: Seq<char>,
    confidence: Seq<char>,
    frame_interval: Seq<char>,
    device: Seq<char>,
    max_gap_duration: Seq<char>,
    min_segment_duration: Seq<char>,
) -> Seq<Seq<char>> {
    seq![
        "--video_path"@,
        video_path,
        "--model_path"@,
        model_path,
        "--output_json"@,
        output_json,
        "--confidence"@,
        confidence,
        "--frame_interval"@,
        frame_interval,
        "--device"@,
        device,
        "--max_gap_duration"@,
        max_gap_duration,
        "--min_segment_duration"@,
        min_segment_duration,
    ]
}

/// Builds the arguments of the detector. The numbers are given as the text
/// that the detector reads.
pub fn detector_arguments(
    video_path: &str,
    model_path: &str,
    output_json: &str,
    confidence: &str,
    frame_interval: &str,
    device: &str,
    max_gap_duration: &str,
    min_segment_duration: &str,
) -> (arguments: Vec<String>)
    ensures
        texts(arguments@) == detector_command(
            video_path@,
            model_path@,
            output_json@,
            confidence@,
            frame_interval@,
            device@,
            max_gap_duration@,
            min_segment_duration@,
        ),
{
    let mut arguments: Vec<String> = Vec::new();
    arguments.push(String::from_str("--video_path"));
    arguments.push(String::from_str(video_path));
    arguments.push(String::from_str("--model_path"));
    arguments.push(String::from_str(model_path));
    arguments.push(String::from_str("--output_json"));
    arguments.push(String::from_str(output_json));
    arguments.push(String::from_str("--confidence"));
    arguments.push(String::from_str(confidence));
    arguments.push(String::from_str("--frame_interval"));
    arguments.push(String::from_str(frame_interval));
    arguments.push(String::from_str("--device"));
    arguments.push(String::from_str(device));
    arguments.push(String::from_str("--max_gap_duration"));
    arguments.push(String::from_str(max_gap_duration));
    arguments.push(String::from_str("--min_segment_duration"));
    arguments.push(String::from_str(min_segment_duration));
    assert(texts(arguments@) =~= detector_command(
        video_path@,
        model_path@,
        output_json@,
        confidence@,
        frame_interval@,
        device@,
        max_gap_duration@,
        min_segment_duration@,
    ));
    arguments
}

/// Whether `segment` is the detected segment of the project for the
/// stretch `found`: under an id of its own, attributed to no track.
pub open spec fn segment_shows(segment: Segment, project_id: Seq<char>, found: PersonSegment) -> bool {
    &&& is_uuid_text(segment.id@)
    &&& segment.project_id@ == project_id
    &&& segment.music_id is None
    &&& segment.music_title is None
    &&& segment.start_time == found.start_time
    &&& segment.end_time == found.end_time
    &&& segment.confidence == found.confidence
    &&& segment.status == SegmentStatus::Detected
}

/// Decides the next step of the detection of persons in a project.
///
/// The task runs under the id of the project behind "det_", apart from
/// whatever else is done with the project, and waits at the detection
/// family's gate. It is told to run when that gate admits it, at its start
/// or after a wait, and the slot is taken with that answer; where that gate
/// is busy at the start it is told once to announce that it is queued. A task whose
/// flag is set while it waits gives up without the slot, and one whose flag
/// is set while the detector runs terminates the detector and ends as
/// cancelled. However the task ends, its slot, its flag and the handles of
/// its processes are given back. See [`next_action`], [`next_gates`],
/// [`next_registry`] and [`to_kill`].
pub fn detect_persons(
    gates: &mut ResourceGates,
    registry: &mut TaskRegistry,
    project_id: &str,
    phase: TaskPhase,
    event: TaskEvent,
) -> (step: TaskStep)
    ensures
        step.action == next_action(
            phase,
            event,
            old(gates)@.of(GateFamily::Detection).admits(),
            old(registry)@.cancelled("det_"@ + project_id@),
        ),
        step.phase == next_phase(phase, step.action),
        final(gates)@ == next_gates(old(gates)@, GateFamily::Detection, phase, step.action),
        final(registry)@ == next_registry(
            old(registry)@,
            "det_"@ + project_id@,
            phase,
            event,
            step.action,
        ),
        step.kill@ == to_kill(old(registry)@, "det_"@ + project_id@, step.action),
{
    let task = detection_task(project_id);
    gated_task_step(gates, registry, GateFamily::Detection, task.as_str(), phase, event)
}

/// Turns what the detector found into the segments of the project: one for
/// each stretch, in the same order, each under a fresh id.
pub fn person_segments(project_id: &str, found: &Vec<PersonSegment>) -> (segments: Vec<Segment>)
    ensures
        segments@.len() == found@.len(),
        forall|i: int|
            0 <= i < segments@.len() ==> segment_shows(
                #[trigger] segments@[i],
                project_id@,
                found@[i],
            ),
{
    let mut segments: Vec<Segment> = Vec::new();
    let n: usize = found.len();
    let mut i: usize = 0;
    while i < n
        invariant
            i <= n,
            n == found@.len(),
            segments@.len() == i,
            forall|k: int|
                0 <= k < i ==> segment_shows(#[trigger] segments@[k], project_id@, found@[k]),
        decreases n - i,
    {
        let stretch = found[i];
        segments.push(
            Segment {
                id: generate_id(),
                project_id: String::from_str(project_id),
                music_id: None,
                music_title: None,
                start_time: stretch.start_time,
                end_time: stretch.end_time,
                confidence: stretch.confidence,
                status: SegmentStatus::Detected,
            },
        );
        i = i + 1;
    }
    segments
}

} // verus!
