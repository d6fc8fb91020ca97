//! Exporting clips each to a file of its own: how the files are named, how
//! many are written at a time, and what becomes of them when one fails.

use crate::cut::{check_custom_clips, exportable, CustomClipRange, TimeRange};
use crate::error::AppError;
use crate::matcher::logical_cores;
use crate::text::{ends_with_text, lowercase, text_ends_with, to_lowercase};
use crate::tools::texts;
use vstd::prelude::*;
use vstd::string::{StrSliceExecFns, StringExecFns};

verus! {

/// Most characters of the source's name that the name of a clip carries.
pub const MAX_SOURCE_NAME: usize = 30;

/// Most clips that are written at a time.
pub const MAX_EXPORT_WORKERS: usize = 8;

/// Number of clips to write at a time on a machine with this many logical
/// cores: one for each core, at least one and at most
/// [`MAX_EXPORT_WORKERS`].
pub fn export_workers(logical_cores: usize) -> (workers: usize)
    ensures
        workers == if logical_cores < 1 {
            1
        } else if logical_cores > MAX_EXPORT_WORKERS {
            MAX_EXPORT_WORKERS
        } else {
            logical_cores
        },
{
    if logical_cores < 1 {
        1
    } else if logical_cores > MAX_EXPORT_WORKERS {
        MAX_EXPORT_WORKERS
    } else {
        logical_cores
    }
}

/// Number of clips to write at a time on this machine.
pub fn export_workers_here() -> (workers: usize)
    ensures
        1 <= workers <= MAX_EXPORT_WORKERS,
{
    export_workers(logical_cores())
}

/// Whether a character cannot stand in the name of a file.
pub open spec fn is_forbidden(c: char) -> bool {
    c == '/' || c == '\\' || c == ':' || c == '*' || c == '?' || c == '"' || c == '<' || c == '>'
        || c == '|'
}

/// The name made safe for a file: its first [`MAX_SOURCE_NAME`] characters,
/// with an underscore for each that cannot stand in the name of a file.
pub open spec fn safe_name(name: Seq<char>) -> Seq<char> {
    Seq::new(
        if name.len() <= MAX_SOURCE_NAME {
            name.len()
        } else {
            MAX_SOURCE_NAME as nat
        },
        |i: int|
            if is_forbidden(name[i]) {
                '_'
            } else {
                name[i]
            },
    )
}

/// Makes a name safe for a file.
pub fn safe_file_name(name: &str) -> (safe: String)
    ensures
        safe@ == safe_name(name@),
{
    let length: usize = name.unicode_len();
    let n: usize = if length <= MAX_SOURCE_NAME { length } else { MAX_SOURCE_NAME };
    let mut safe = String::from_str("");
    proof {
        reveal_strlit("");
        reveal_strlit("_");
        assert(safe@ =~= safe_name(name@).take(0));
    }
    let mut i: usize = 0;
    while i < n
        invariant
            i <= n <= name@.len(),
            n == safe_name(name@).len(),
            safe@ == safe_name(name@).take(i as int),
            "_"@ == seq!['_'],
        decreases n - i,
    {
        let c = name.get_char(i);
        let forbidden = c == '/' || c == '\\' || c == ':' || c == '*' || c == '?' || c == '"' || c
            == '<' || c == '>' || c == '|';
        if forbidden {
            safe = safe.concat("_");
        } else {
            safe = safe.concat(name.substring_char(i, i + 1));
        }
        assert(safe@ =~= safe_name(name@).take(i + 1));
        i = i + 1;
    }
    assert(safe_name(name@).take(n as int) =~= safe_name(name@));
    safe
}

/// The digit for a number below ten.
pub open spec fn digit_text(d: nat) -> Seq<char> {
    if d == 0 {
        "0"@
    } else if d == 1 {
        "1"@
    } else if d == 2 {
        "2"@
    } else if d == 3 {
        "3"@
    } else if d == 4 {
        "4"@
    } else if d == 5 {
        "5"@
    } else if d == 6 {
        "6"@
    } else if d == 7 {
        "7"@
    } else if d == 8 {
        "8"@
    } else {
        "9"@
    }
}

/// A number in decimal.
pub open spec fn decimal(n: nat) -> Seq<char>
    decreases n,
{
    if n < 10 {
        digit_text(n)
    } else {
        decimal(n / 10) + digit_text(n % 10)
    }
}

/// A number in decimal with at least two digits.
pub open spec fn two_digits(n: nat) -> Seq<char> {
    if n < 10 {
        "0"@ + decimal(n)
    } else {
        decimal(n)
    }
}

/// A number in decimal with at least three digits.
pub open spec fn three_digits(n: nat) -> Seq<char> {
    if n < 10 {
        "00"@ + decimal(n)
    } else if n < 100 {
        "0"@ + decimal(n)
    } else {
        decimal(n)
    }
}

fn digit(d: u64) -> (text: &'static str)
    requires
        d < 10,
    ensures
        text@ == digit_text(d as nat),
{
    if d == 0 {
        "0"
    } else if d == 1 {
        "1"
    } else if d == 2 {
        "2"
    } else if d == 3 {
        "3"
    } else if d == 4 {
        "4"
    } else if d == 5 {
        "5"
    } else if d == 6 {
        "6"
    } else if d == 7 {
        "7"
    } else if d == 8 {
        "8"
    } else {
        "9"
    }
}

/// Writes a number in decimal.
pub fn decimal_text(n: u64) -> (text: String)
    ensures
        text@ == decimal(n as nat),
    decreases n,
{
    if n < 10 {
        String::from_str(digit(n))
    } else {
        decimal_text(n / 10).concat(digit(n % 10))
    }
}

/// Number of whole seconds in a time of this many milliseconds, cut to what
/// 32 bits hold.
pub open spec fn whole_seconds(time: u64) -> nat {
    if time / 1000 <= u32::MAX {
        (time / 1000) as nat
    } else {
        u32::MAX as nat
    }
}

/// A time as it stands in the name of a clip: minutes and seconds, each with
/// at least two digits.
pub open spec fn time_label(time: u64) -> Seq<char> {
    two_digits(whole_seconds(time) / 60) + "m"@ + two_digits(whole_seconds(time) % 60) + "s"@
}

fn two_digit_text(n: u64) -> (text: String)
    ensures
        text@ == two_digits(n as nat),
{
    if n < 10 {
        String::from_str("0").concat(decimal_text(n).as_str())
    } else {
        decimal_text(n)
    }
}

/// Writes a time, given in milliseconds, as it stands in the name of a
/// clip.
pub fn format_time(time: u64) -> (label: String)
    ensures
        label@ == time_label(time),
{
    let seconds: u64 = if time / 1000 <= 4294967295 { time / 1000 } else { 4294967295 };
    two_digit_text(seconds / 60).concat("m").concat(two_digit_text(seconds % 60).as_str()).concat(
        "s",
    )
}

/// The name of the file of the clip with this number, counted from one: the
/// safe name of the source, the number, and the times at which the clip
/// starts and ends, with the source's extension.
pub open spec fn clip_name(
    source_name: Seq<char>,
    number: nat,
    start_time: u64,
    end_time: u64,
    extension: Seq<char>,
) -> Seq<char> {
    safe_name(source_name) + "_clip_"@ + three_digits(number) + "_"@ + time_label(start_time) + "_"@
        + time_label(end_time) + "."@ + extension
}

/// Names the file of the clip with this number, counted from one.
pub fn clip_file_name(
    source_name: &str,
    number: u64,
    start_time: u64,
    end_time: u64,
    extension: &str,
) -> (name: String)
    ensures
        name@ == clip_name(source_name@, number as nat, start_time, end_time, extension@),
{
    let numbered = if number < 10 {
        String::from_str("00").concat(decimal_text(number).as_str())
    } else if number < 100 {
        String::from_str("0").concat(decimal_text(number).as_str())
    } else {
        decimal_text(number)
    };
    safe_file_name(source_name).concat("_clip_").concat(numbered.as_str()).concat("_").concat(
        format_time(start_time).as_str(),
    ).concat("_").concat(format_time(end_time).as_str()).concat(".").concat(extension)
}

/// How an export of several clips ended.
#[derive(Debug)]
pub enum ExportOutcome {
    /// Every clip was written; the files, in the order of the clips.
    Done(Vec<String>),
    /// A clip failed. The files that were written are to be deleted again,
    /// and the error is what the export fails with.
    Failed { error: AppError, written: Vec<String> },
}

/// The files written among the first `n` results, in their order.
pub open spec fn written_files(results: Seq<Result<String, AppError>>, n: nat) -> Seq<Seq<char>>
    decreases n,
{
    if n == 0 {
        Seq::empty()
    } else {
        match results[n - 1] {
            Ok(path) => written_files(results, (n - 1) as nat).push(path@),
            Err(_) => written_files(results, (n - 1) as nat),
        }
    }
}

/// Whether result `k` is a failure that is no cancellation.
pub open spec fn is_real_failure(results: Seq<Result<String, AppError>>, k: int) -> bool {
    0 <= k < results.len() && results[k] is Err && !(results[k] matches Err(AppError::Cancelled))
}

/// Whether result `k` holds the error that the export fails with: the first
/// failure that is no cancellation, or, where every failure is a
/// cancellation, the first of them.
pub open spec fn is_telling_failure(results: Seq<Result<String, AppError>>, k: int) -> bool {
    &&& 0 <= k < results.len()
    &&& results[k] is Err
    &&& forall|j: int| 0 <= j < k ==> !#[trigger] is_real_failure(results, j)
    &&& (is_real_failure(results, k) || forall|j: int|
        0 <= j < results.len() ==> !#[trigger] is_real_failure(results, j) && (j < k
            ==> results[j] is Ok))
}

/// Whether `outcome` is how an export with these results ends: done with
/// every file, in order, where every clip was written; else failed with the
/// telling error, and with the files that were written to be deleted.
pub open spec fn settles(outcome: ExportOutcome, results: Seq<Result<String, AppError>>) -> bool {
    match outcome {
        ExportOutcome::Done(files) => {
            &&& forall|i: int| 0 <= i < results.len() ==> (#[trigger] results[i]) is Ok
            &&& texts(files@) == written_files(results, results.len())
        },
        ExportOutcome::Failed { error, written } => {
            &&& exists|k: int|
                is_telling_failure(results, k) && (#[trigger] results[k]) == Err::<
                    String,
                    AppError,
                >(error)
            &&& texts(written@) == written_files(results, results.len())
        },
    }
}

/// Where a pass over the first `i` results stands: `telling` is the place of
/// the error to fail with so far, and `serious` says whether that is a
/// failure that is no cancellation.
spec fn scanned(
    results: Seq<Result<String, AppError>>,
    i: int,
    telling: Option<usize>,
    serious: bool,
) -> bool {
    match telling {
        None => !serious && forall|j: int|
            0 <= j < i ==> !#[trigger] is_real_failure(results, j) && results[j] is Ok,
        Some(k) => {
            &&& k < i
            &&& results[k as int] is Err
            &&& serious == is_real_failure(results, k as int)
            &&& forall|j: int| 0 <= j < k ==> !#[trigger] is_real_failure(results, j)
            &&& !serious ==> forall|j: int|
                0 <= j < i ==> !#[trigger] is_real_failure(results, j) && (j < k
                    ==> results[j] is Ok)
        },
    }
}

/// A pass over all results that has found an error has found the telling
/// one.
proof fn lemma_scanned_tells(results: Seq<Result<String, AppError>>, k: usize, serious: bool)
    requires
        scanned(results, results.len() as int, Some(k), serious),
    ensures
        is_telling_failure(results, k as int),
{
    if serious {
        assert(is_real_failure(results, k as int));
    } else {
        assert forall|j: int| 0 <= j < results.len() implies !#[trigger] is_real_failure(
            results,
            j,
        ) && (j < k ==> results[j] is Ok) by {}
    }
    assert forall|j: int| 0 <= j < k implies !#[trigger] is_real_failure(results, j) by {}
}

/// A pass over all results that has found no error has found every clip
/// written.
proof fn lemma_scanned_clean(results: Seq<Result<String, AppError>>)
    requires
        scanned(results, results.len() as int, None, false),
    ensures
        forall|j: int| 0 <= j < results.len() ==> (#[trigger] results[j]) is Ok,
{
    assert forall|j: int| 0 <= j < results.len() implies (#[trigger] results[j]) is Ok by {
        assert(!is_real_failure(results, j));
    }
}

/// Settles how an export of several clips ended.
///
/// Where every clip was written, the export is done. Where one failed, the
/// export fails with the first error that is no cancellation, or as
/// cancelled if there is no other error, and the files that were written
/// are handed back to be deleted.
pub fn collect_exports(results: Vec<Result<String, AppError>>) -> (outcome: ExportOutcome)
    ensures
        settles(outcome, results@),
{
    let n: usize = results.len();
    let mut files: Vec<String> = Vec::new();
    let mut telling: Option<usize> = None;
    let mut serious: bool = false;
    let mut i: usize = 0;
    while i < n
        invariant
            i <= n,
            n == results@.len(),
            texts(files@) == written_files(results@, i as nat),
            scanned(results@, i as int, telling, serious),
        decreases n - i,
    {
        let ghost before = texts(files@);
        let result = &results[i];
        assert(*result == results@[i as int]);
        match result {
            Ok(path) => {
                files.push(path.clone());
                assert(texts(files@) =~= before.push(path@));
                assert(!is_real_failure(results@, i as int));
                assert(scanned(results@, i + 1, telling, serious));
            },
            Err(error) => {
                if error.is_cancelled() {
                    assert(!is_real_failure(results@, i as int));
                    if telling.is_none() {
                        telling = Some(i);
                    }
                    assert(scanned(results@, i + 1, telling, serious));
                } else {
                    assert(is_real_failure(results@, i as int));
                    if !serious {
                        telling = Some(i);
                        serious = true;
                    }
                    assert(scanned(results@, i + 1, telling, serious));
                }
            },
        }
        i = i + 1;
    }
    match telling {
        None => {
            proof {
                lemma_scanned_clean(results@);
            }
            ExportOutcome::Done(files)
        },
        Some(k) => {
            let mut results = results;
            let ghost all = results@;
            proof {
                lemma_scanned_tells(all, k, serious);
            }
            let failed = results.remove(k);
            assert(failed == all[k as int]);
            match failed {
                Err(error) => ExportOutcome::Failed { error, written: files },
                Ok(_) => ExportOutcome::Done(files),
            }
        },
    }
}

/// One clip to export: the stretch of the video and the name of its file.
#[derive(Debug)]
pub struct ClipTask {
    pub range: TimeRange,
    pub file_name: String,
}

/// What the caller reports to an export of clips.
#[derive(Debug)]
pub enum ExportEvent {
    /// Nothing is exported yet.
    Begun,
    /// The clips were exported: for each, the file that was written or the
    /// error it failed with.
    Exported(Vec<Result<String, AppError>>),
}

/// What the caller does next for an export of clips.
#[derive(Debug)]
pub enum ExportStep {
    /// Export these clips, each to its file, and report how each went.
    Export(Vec<ClipTask>),
    /// The export is over: it is done, or it has failed and the files that
    /// were written are to be deleted before the error is handed on.
    Settled(ExportOutcome),
}

/// Whether `task` is the export of clip `i`: the clip's stretch, to the
/// file named for it, the clips being counted from one.
pub open spec fn is_task_of(
    task: ClipTask,
    clips: Seq<CustomClipRange>,
    i: int,
    source_name: Seq<char>,
    extension: Seq<char>,
) -> bool {
    &&& task.range == (TimeRange { start: clips[i].start_time, end: clips[i].end_time })
    &&& task.file_name@ == clip_name(
        source_name,
        (i + 1) as nat,
        clips[i].start_time,
        clips[i].end_time,
        extension,
    )
}

/// Decides each step of exporting clips each to a file of its own.
///
/// Whatever is reported, an export of no clip, or of a clip that does not
/// end after it starts, fails with `InvalidArgument`, and nothing is
/// exported.
///
/// An export that has begun is told its clips, in the order given, each
/// with the name of its file.
///
/// An export whose clips were exported is done, with every file in order,
/// where every clip was written. Where one failed, all is undone: the
/// export fails with the first error that is no cancellation, or as
/// cancelled if there is no other error, and the files that were written
/// are handed back to be deleted.
pub fn export_custom_clips_separately(
    clips: &Vec<CustomClipRange>,
    source_name: &str,
    extension: &str,
    event: ExportEvent,
) -> (step: Result<ExportStep, AppError>)
    ensures
        !exportable(clips@) ==> step matches Err(AppError::InvalidArgument(_)),
        exportable(clips@) ==> (match event {
            ExportEvent::Begun => step matches Ok(ExportStep::Export(tasks)) && tasks@.len()
                == clips@.len() && forall|i: int|
                0 <= i < tasks@.len() ==> is_task_of(
                    #[trigger] tasks@[i],
                    clips@,
                    i,
                    source_name@,
                    extension@,
                ),
            ExportEvent::Exported(results) => step matches Ok(ExportStep::Settled(outcome))
                && settles(outcome, results@),
        }),
{
    check_custom_clips(clips)?;
    match event {
        ExportEvent::Begun => {
            let mut tasks: Vec<ClipTask> = Vec::new();
            let n: usize = clips.len();
            let mut i: usize = 0;
            while i < n
                invariant
                    i <= n,
                    n == clips@.len(),
                    tasks@.len() == i,
                    forall|k: int|
                        0 <= k < i ==> is_task_of(
                            #[trigger] tasks@[k],
                            clips@,
                            k,
                            source_name@,
                            extension@,
                        ),
                decreases n - i,
            {
                let clip = clips[i];
                let number: u64 = i as u64 + 1;
                tasks.push(
                    ClipTask {
                        range: TimeRange { start: clip.start_time, end: clip.end_time },
                        file_name: clip_file_name(
                            source_name,
                            number,
                            clip.start_time,
                            clip.end_time,
                            extension,
                        ),
                    },
                );
                i = i + 1;
            }
            Ok(ExportStep::Export(tasks))
        },
        ExportEvent::Exported(results) => Ok(ExportStep::Settled(collect_exports(results))),
    }
}

/// Whether a file with this path, given in lower case, is written so that
/// it can be played before it is read to its end: a file of the MP4 family
/// is.
pub fn wants_faststart(lowered_path: &str) -> (yes: bool)
    ensures
        yes == (ends_with_text(lowered_path@, ".mp4"@) || ends_with_text(lowered_path@, ".m4v"@)
            || ends_with_text(lowered_path@, ".mov"@)),
{
    text_ends_with(lowered_path, ".mp4") || text_ends_with(lowered_path, ".m4v") || text_ends_with(
        lowered_path,
        ".mov",
    )
}

/// What the transcoder is told to write one stretch of a video anew, with
/// a key frame first. The start and the length of the stretch are given as
/// the text that the transcoder reads.
pub open spec fn encoder_command(
    input_path: Seq<char>,
    output_path: Seq<char>,
    start: Seq<char>,
    length: Seq<char>,
    faststart: bool,
) -> Seq<Seq<char>> {
    let head = seq![
        "-v"@,
        "warning"@,
        "-ss"@,
        start,
        "-i"@,
        input_path,
        "-t"@,
        length,
        "-c:v"@,
        "libx264"@,
        "-preset"@,
        "veryfast"@,
        "-crf"@,
        "18"@,
        "-threads"@,
        "0"@,
        "-force_key_frames"@,
        "expr:eq(n,0)"@,
        "-c:a"@,
        "aac"@,
        "-b:a"@,
        "192k"@,
        "-avoid_negative_ts"@,
        "make_zero"@,
    ];
    if faststart {
        head + seq!["-movflags"@, "+faststart"@, "-y"@, output_path]
    } else {
        head + seq!["-y"@, output_path]
    }
}

/// Builds the arguments of the transcoder for one stretch of a video.
pub fn encoder_arguments(
    input_path: &str,
    output_path: &str,
    start: &str,
    length: &str,
    faststart: bool,
) -> (arguments: Vec<String>)
    ensures
        texts(arguments@) == encoder_command(
            input_path@,
            output_path@,
            start@,
            length@,
            faststart,
        ),
{
    let mut arguments: Vec<String> = Vec::new();
    arguments.push(String::from_str("-v"));
    arguments.push(String::from_str("warning"));
    arguments.push(String::from_str("-ss"));
    arguments.push(String::from_str(start));
    arguments.push(String::from_str("-i"));
    arguments.push(String::from_str(input_path));
    arguments.push(String::from_str("-t"));
    arguments.push(String::from_str(length));
    arguments.push(String::from_str("-c:v"));
    arguments.push(String::from_str("libx264"));
    arguments.push(String::from_str("-preset"));
    arguments.push(String::from_str("veryfast"));
    arguments.push(String::from_str("-crf"));
    arguments.push(String::from_str("18"));
    arguments.push(String::from_str("-threads"));
    arguments.push(String::from_str("0"));
    arguments.push(String::from_str("-force_key_frames"));
    arguments.push(String::from_str("expr:eq(n,0)"));
    arguments.push(String::from_str("-c:a"));
    arguments.push(String::from_str("aac"));
    arguments.push(String::from_str("-b:a"));
    arguments.push(String::from_str("192k"));
    arguments.push(String::from_str("-avoid_negative_ts"));
    arguments.push(String::from_str("make_zero"));
    if faststart {
        arguments.push(String::from_str("-movflags"));
        arguments.push(String::from_str("+faststart"));
    }
    arguments.push(String::from_str("-y"));
    arguments.push(String::from_str(output_path));
    assert(texts(arguments@) =~= encoder_command(
        input_path@,
        output_path@,
        start@,
        length@,
        faststart,
    ));
    arguments
}

/// Builds the arguments of the transcoder for one stretch of a video; the
/// case of the output's ending does not matter.
pub fn segment_encoder_arguments(input_path: &str, output_path: &str, start: &str, length: &str) -> (arguments:
    Vec<String>)
    ensures
        texts(arguments@) == encoder_command(
            input_path@,
            output_path@,
            start@,
            length@,
            ends_with_text(lowercase(output_path@), ".mp4"@) || ends_with_text(
                lowercase(output_path@),
                ".m4v"@,
            ) || ends_with_text(lowercase(output_path@), ".mov"@),
        ),
{
    let lowered = to_lowercase(output_path);
    encoder_arguments(input_path, output_path, start, length, wants_faststart(lowered.as_str()))
}

} // verus!
