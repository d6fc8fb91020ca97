//! Vocal separation: the course of the task, what the separator is told,
//! where its output is looked for, and when output kept from an earlier run
//! can be used again.

use crate::error::AppError;
use crate::gate::{GateFamily, ResourceGates};
use crate::registry::{processing_task, TaskRegistry};
use crate::task::{
    gated_task_step, next_action, next_gates, next_phase, next_registry, to_kill, TaskEvent,
    TaskPhase, TaskStep,
};
use crate::models::{get_available_models, get_model_by_id, mdx_inst_hq3, ModelInfo};
use crate::text::{contains_text, lowercase, replace, replaced, text_contains, to_lowercase};
use crate::tools::texts;
use vstd::prelude::*;
use vstd::string::StringExecFns;

verus! {

/// The id of the task that processes a project: the project's id, or
/// "default" where no project is named.
pub open spec fn processing_task_id(project_id: Option<&str>) -> Seq<char> {
    match project_id {
        Some(id) => id@,
        None => "default"@,
    }
}

/// Decides the next step of the separation of vocals for a project.
///
/// The task runs under the id of the project, or under "default" where
/// none is named, and waits at the separation family's gate. It is told to
/// run when that gate admits it, at its start or after a wait, and the slot
/// is taken with that answer; where that gate is busy at the start it is told
/// once to announce that it is queued. A task whose flag is set while it
/// waits gives up without the slot, and one whose flag is set while the
/// separator runs terminates the separator and ends as cancelled. However
/// the task ends, its slot, its flag and the handles of its processes are
/// given back. See [`next_action`], [`next_gates`], [`next_registry`] and
/// [`to_kill`].
pub fn separate_vocals(
    gates: &mut ResourceGates,
    registry: &mut TaskRegistry,
    project_id: Option<&str>,
    phase: TaskPhase,
    event: TaskEvent,
) -> (step: TaskStep)
    ensures
        step.action == next_action(
            phase,
            event,
            old(gates)@.of(GateFamily::Separation).admits(),
            old(registry)@.cancelled(processing_task_id(project_id)),
        ),
        step.phase == next_phase(phase, step.action),
        final(gates)@ == next_gates(old(gates)@, GateFamily::Separation, phase, step.action),
        final(registry)@ == next_registry(
            old(registry)@,
            processing_task_id(project_id),
            phase,
            event,
            step.action,
        ),
        step.kill@ == to_kill(old(registry)@, processing_task_id(project_id), step.action),
{
    let task = processing_task(project_id);
    gated_task_step(gates, registry, GateFamily::Separation, task.as_str(), phase, event)
}

/// Chooses the model to separate with: the selected one, or the first known
/// model where the selection names none. Fails with a `Config` error where
/// no model is known.
pub fn choose_model(selected_model_id: &str) -> (model: Result<ModelInfo, AppError>)
    ensures
        model matches Ok(m) && m@ == mdx_inst_hq3(),
{
    match get_model_by_id(selected_model_id) {
        Some(m) => Ok(m),
        None => {
            let mut models = get_available_models();
            if models.len() > 0 {
                Ok(models.remove(0))
            } else {
                Err(AppError::Config(String::from_str("no separation model is available")))
            }
        },
    }
}

/// What the separator is told: the audio to separate, the model and where
/// its file is kept, and where and in what format to write.
pub open spec fn separator_command(
    audio_path: Seq<char>,
    model_filename: Seq<char>,
    output_dir: Seq<char>,
    output_format: Seq<char>,
    model_dir: Seq<char>,
) -> Seq<Seq<char>> {
    seq![
        audio_path,
        "--model_filename"@,
        model_filename,
        "--output_dir"@,
        output_dir,
        "--output_format"@,
        output_format,
        "--model_file_dir"@,
        model_dir,
    ]
}

/// Builds the arguments of the separator.
pub fn separator_arguments(
    audio_path: &str,
    model: &ModelInfo,
    output_dir: &str,
    output_format: &str,
    model_dir: &str,
) -> (arguments: Vec<String>)
    ensures
        texts(arguments@) == separator_command(
            audio_path@,
            model.filename@,
            output_dir@,
            output_format@,
            model_dir@,
        ),
{
    let mut arguments: Vec<String> = Vec::new();
    arguments.push(String::from_str(audio_path));
    arguments.push(String::from_str("--model_filename"));
    arguments.push(model.filename.clone());
    arguments.push(String::from_str("--output_dir"));
    arguments.push(String::from_str(output_dir));
    arguments.push(String::from_str("--output_format"));
    arguments.push(String::from_str(output_format));
    arguments.push(String::from_str("--model_file_dir"));
    arguments.push(String::from_str(model_dir));
    assert(texts(arguments@) =~= separator_command(
        audio_path@,
        model.filename@,
        output_dir@,
        output_format@,
        model_dir@,
    ));
    arguments
}

/// The name of a model's file without the endings of model files.
pub open spec fn model_name(filename: Seq<char>) -> Seq<char> {
    replaced(
        replaced(replaced(filename, ".onnx"@, Seq::empty()), ".ckpt"@, Seq::empty()),
        ".yaml"@,
        Seq::empty(),
    )
}

/// Takes the endings of model files out of the name of a model's file.
pub fn model_name_of(filename: &str) -> (name: String)
    ensures
        name@ == model_name(filename@),
{
    proof {
        reveal_strlit("");
        reveal_strlit(".onnx");
        reveal_strlit(".ckpt");
        reveal_strlit(".yaml");
        assert(""@ =~= Seq::<char>::empty());
    }
    let without_onnx = replace(filename, ".onnx", "");
    let without_ckpt = replace(without_onnx.as_str(), ".ckpt", "");
    replace(without_ckpt.as_str(), ".yaml", "")
}

/// The two tracks that separation writes.
#[derive(Debug, Clone, Copy, PartialEq, Eq, Structural)]
pub enum Stem {
    Vocals,
    Instrumental,
}

/// The word for a track in the names of the separator's files.
pub open spec fn stem_word(stem: Stem) -> Seq<char> {
    match stem {
        Stem::Vocals => "Vocals"@,
        Stem::Instrumental => "Instrumental"@,
    }
}

/// The names under which the separator may have written a track of the
/// audio, most likely first: with the model's name, in brackets alone, and
/// bare.
pub open spec fn stem_file_names(
    stem: Stem,
    audio_name: Seq<char>,
    model: Seq<char>,
    extension: Seq<char>,
) -> Seq<Seq<char>> {
    seq![
        audio_name + "_("@ + stem_word(stem) + ")_"@ + model + "."@ + extension,
        audio_name + "_("@ + stem_word(stem) + ")."@ + extension,
        audio_name + "_"@ + stem_word(stem) + "."@ + extension,
    ]
}

/// The name that earlier versions of the separator gave a track.
pub open spec fn legacy_stem_file_name(stem: Stem, audio_name: Seq<char>, extension: Seq<char>) -> Seq<
    char,
> {
    audio_name + "_("@ + stem_word(stem) + ")_UVR-MDX-NET-Inst_HQ_3."@ + extension
}

fn stem_word_of(stem: Stem) -> (word: &'static str)
    ensures
        word@ == stem_word(stem),
{
    match stem {
        Stem::Vocals => "Vocals",
        Stem::Instrumental => "Instrumental",
    }
}

/// Lists the names under which to look for a track of the audio, most
/// likely first. A fresh run may also have written under the name that
/// earlier versions used, which then comes last.
pub fn possible_stem_names(
    stem: Stem,
    audio_name: &str,
    model: &str,
    extension: &str,
    with_legacy: bool,
) -> (names: Vec<String>)
    ensures
        texts(names@) == if with_legacy {
            stem_file_names(stem, audio_name@, model@, extension@).push(
                legacy_stem_file_name(stem, audio_name@, extension@),
            )
        } else {
            stem_file_names(stem, audio_name@, model@, extension@)
        },
{
    let word = stem_word_of(stem);
    let mut names: Vec<String> = Vec::new();
    names.push(
        String::from_str(audio_name).concat("_(").concat(word).concat(")_").concat(model).concat(
            ".",
        ).concat(extension),
    );
    names.push(String::from_str(audio_name).concat("_(").concat(word).concat(").").concat(extension));
    names.push(String::from_str(audio_name).concat("_").concat(word).concat(".").concat(extension));
    if with_legacy {
        names.push(
            String::from_str(audio_name).concat("_(").concat(word).concat(
                ")_UVR-MDX-NET-Inst_HQ_3.",
            ).concat(extension),
        );
        assert(texts(names@) =~= stem_file_names(stem, audio_name@, model@, extension@).push(
            legacy_stem_file_name(stem, audio_name@, extension@),
        ));
    } else {
        assert(texts(names@) =~= stem_file_names(stem, audio_name@, model@, extension@));
    }
    names
}

/// Whether a file's name, given as it is and in lower case, reads like that
/// of a track of the audio: it holds the audio's name and a word for the
/// track. When output of an earlier run is looked for, "no vocal" is no word
/// for the instrumental track.
pub open spec fn reads_like_stem(
    stem: Stem,
    file_name: Seq<char>,
    lowered: Seq<char>,
    audio_name: Seq<char>,
    from_cache: bool,
) -> bool {
    contains_text(file_name, audio_name) && match stem {
        Stem::Vocals => contains_text(lowered, "vocal"@) || contains_text(lowered, "voice"@),
        Stem::Instrumental => contains_text(lowered, "instrument"@) || contains_text(
            lowered,
            "no_vocal"@,
        ) || (!from_cache && contains_text(lowered, "no vocal"@)),
    }
}

/// Whether a file's name, given as it is and in lower case, reads like that
/// of a track of the audio.
pub fn stem_name_matches(
    stem: Stem,
    file_name: &str,
    lowered: &str,
    audio_name: &str,
    from_cache: bool,
) -> (yes: bool)
    ensures
        yes == reads_like_stem(stem, file_name@, lowered@, audio_name@, from_cache),
{
    if !text_contains(file_name, audio_name) {
        return false;
    }
    match stem {
        Stem::Vocals => text_contains(lowered, "vocal") || text_contains(lowered, "voice"),
        Stem::Instrumental => text_contains(lowered, "instrument") || text_contains(
            lowered,
            "no_vocal",
        ) || (!from_cache && text_contains(lowered, "no vocal")),
    }
}

/// Whether a file's name reads like that of a track of the audio, in
/// whatever case its words for the track are written.
pub fn is_stem_file(stem: Stem, file_name: &str, audio_name: &str, from_cache: bool) -> (yes: bool)
    ensures
        yes == reads_like_stem(stem, file_name@, lowercase(file_name@), audio_name@, from_cache),
{
    let lowered = to_lowercase(file_name);
    stem_name_matches(stem, file_name, lowered.as_str(), audio_name, from_cache)
}

/// Where the instrumental track is taken to be when it was not found.
pub open spec fn default_instrumental_path(
    output_dir: Seq<char>,
    audio_name: Seq<char>,
    extension: Seq<char>,
) -> Seq<char> {
    output_dir + "/"@ + audio_name + "_(Instrumental)."@ + extension
}

/// Settles where the two tracks of a finished separation are. Fails with a
/// `VocalSeparation` error where the vocals were not found. An instrumental
/// track that was not found is taken to be under its usual name.
pub fn separation_outputs(
    vocals: Option<String>,
    instrumental: Option<String>,
    output_dir: &str,
    audio_name: &str,
    extension: &str,
) -> (paths: Result<(String, String), AppError>)
    ensures
        vocals is None ==> paths matches Err(AppError::VocalSeparation(_)),
        vocals matches Some(v) ==> (paths matches Ok(found) && found.0 == v && found.1@
            == match instrumental {
            Some(i) => i@,
            None => default_instrumental_path(output_dir@, audio_name@, extension@),
        }),
{
    match vocals {
        None => Err(
            AppError::VocalSeparation(String::from_str("the separator wrote no vocals file")),
        ),
        Some(v) => {
            let accompaniment = match instrumental {
                Some(i) => i,
                None => String::from_str(output_dir).concat("/").concat(audio_name).concat(
                    "_(Instrumental).",
                ).concat(extension),
            };
            Ok((v, accompaniment))
        },
    }
}

/// What is known of a file on disk: its size in bytes and, where it could be
/// had, the time at which it was last written.
#[derive(Debug, Clone, Copy, PartialEq, Eq, Structural)]
pub struct FileFacts {
    pub size: u64,
    pub modified: Option<u64>,
}

/// Whether a file was written no earlier than another; not so where the
/// time of either is not known.
pub open spec fn written_no_earlier(later: Option<u64>, earlier: Option<u64>) -> bool {
    later matches Some(a) && earlier matches Some(b) && a >= b
}

/// Whether audio extracted earlier can be used again: it is there and not
/// empty, the video it came from is there, and it was written no earlier
/// than the video.
pub open spec fn audio_cache_holds(audio: Option<FileFacts>, video: Option<FileFacts>) -> bool {
    match (audio, video) {
        (Some(a), Some(v)) => a.size > 0 && written_no_earlier(a.modified, v.modified),
        _ => false,
    }
}

/// Whether tracks separated earlier can be used again: the extracted audio
/// can, both tracks were found, and the instrumental track was written no
/// earlier than the audio.
pub open spec fn separation_cache_holds(
    audio: Option<FileFacts>,
    video: Option<FileFacts>,
    instrumental: Option<FileFacts>,
    vocals_found: bool,
) -> bool {
    audio_cache_holds(audio, video) && vocals_found && match (instrumental, audio) {
        (Some(i), Some(a)) => written_no_earlier(i.modified, a.modified),
        _ => false,
    }
}

fn no_earlier(later: Option<u64>, earlier: Option<u64>) -> (yes: bool)
    ensures
        yes == written_no_earlier(later, earlier),
{
    match (later, earlier) {
        (Some(a), Some(b)) => a >= b,
        _ => false,
    }
}

/// Whether audio extracted earlier can be used again.
pub fn audio_cache_valid(audio: Option<FileFacts>, video: Option<FileFacts>) -> (valid: bool)
    ensures
        valid == audio_cache_holds(audio, video),
{
    match (audio, video) {
        (Some(a), Some(v)) => a.size > 0 && no_earlier(a.modified, v.modified),
        _ => false,
    }
}

/// Which output of earlier runs can be used again, and where it is.
#[derive(Debug, Clone)]
pub struct CacheStatus {
    pub audio_valid: bool,
    pub audio_path: Option<String>,
    pub separation_valid: bool,
    pub vocals_path: Option<String>,
    pub accompaniment_path: Option<String>,
}

/// Says which output of earlier runs of a project can be used again.
///
/// The extracted audio can where [`audio_cache_holds`]; its path is then
/// reported. The separated tracks can where [`separation_cache_holds`];
/// their paths are then reported.
pub fn check_cache_status(
    audio_path: &str,
    audio: Option<FileFacts>,
    video: Option<FileFacts>,
    instrumental: Option<(String, FileFacts)>,
    vocals: Option<String>,
) -> (status: CacheStatus)
    ensures
        status.audio_valid == audio_cache_holds(audio, video),
        status.audio_path matches Some(p) ==> p@ == audio_path@,
        status.audio_path is Some == status.audio_valid,
        status.separation_valid == separation_cache_holds(
            audio,
            video,
            match instrumental {
                Some(i) => Some(i.1),
                None => None,
            },
            vocals is Some,
        ),
        status.separation_valid ==> status.vocals_path == vocals && status.accompaniment_path
            == Some(instrumental->Some_0.0),
        !status.separation_valid ==> status.vocals_path is None && status.accompaniment_path
            is None,
{
    let audio_valid = audio_cache_valid(audio, video);
    let mut status = CacheStatus {
        audio_valid,
        audio_path: if audio_valid {
            Some(String::from_str(audio_path))
        } else {
            None
        },
        separation_valid: false,
        vocals_path: None,
        accompaniment_path: None,
    };
    if audio_valid {
        match (instrumental, vocals, audio) {
            (Some(found), Some(vocals_path), Some(a)) => {
                if no_earlier(found.1.modified, a.modified) {
                    status.separation_valid = true;
                    status.vocals_path = Some(vocals_path);
                    status.accompaniment_path = Some(found.0);
                }
            },
            _ => {},
        }
    }
    status
}

} // verus!
