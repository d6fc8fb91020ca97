//! Taking files into the music library and into projects.

use crate::fingerprint::{compute_fingerprint_hash, hex_lower, sha256_digest};
use crate::text::{is_one_of, lowercase, same_text, to_lowercase};
use crate::utils::{generate_id, is_uuid_text, MusicInfo, Project, VideoInfo};
use vstd::prelude::*;
use vstd::string::StringExecFns;

verus! {

/// The extensions, in lower case, of the files that are taken for audio.
pub open spec fn audio_extensions() -> Seq<Seq<char>> {
    seq!["mp3"@, "flac"@, "wav"@, "m4a"@, "aac"@, "ogg"@, "wma"@]
}

/// The extensions, in lower case, of the files that are taken for video.
pub open spec fn video_extensions() -> Seq<Seq<char>> {
    seq!["mp4"@, "mkv"@, "avi"@, "mov"@, "wmv"@, "flv"@, "webm"@]
}

/// Whether a file with this extension, given in lower case, is taken for
/// audio.
pub fn is_audio_extension(lowered: &str) -> (yes: bool)
    ensures
        yes == is_one_of(lowered@, audio_extensions()),
{
    let yes = same_text(lowered, "mp3") || same_text(lowered, "flac") || same_text(lowered, "wav")
        || same_text(lowered, "m4a") || same_text(lowered, "aac") || same_text(lowered, "ogg")
        || same_text(lowered, "wma");
    proof {
        let words = audio_extensions();
        if yes {
            let i = if lowered@ == "mp3"@ {
                0int
            } else if lowered@ == "flac"@ {
                1
            } else if lowered@ == "wav"@ {
                2
            } else if lowered@ == "m4a"@ {
                3
            } else if lowered@ == "aac"@ {
                4
            } else if lowered@ == "ogg"@ {
                5
            } else {
                6
            };
            assert(words[i] == lowered@);
        }
    }
    yes
}

/// Whether a file with this extension, given in lower case, is taken for
/// video.
pub fn is_video_extension(lowered: &str) -> (yes: bool)
    ensures
        yes == is_one_of(lowered@, video_extensions()),
{
    let yes = same_text(lowered, "mp4") || same_text(lowered, "mkv") || same_text(lowered, "avi")
        || same_text(lowered, "mov") || same_text(lowered, "wmv") || same_text(lowered, "flv")
        || same_text(lowered, "webm");
    proof {
        let words = video_extensions();
        if yes {
            let i = if lowered@ == "mp4"@ {
                0int
            } else if lowered@ == "mkv"@ {
                1
            } else if lowered@ == "avi"@ {
                2
            } else if lowered@ == "mov"@ {
                3
            } else if lowered@ == "wmv"@ {
                4
            } else if lowered@ == "flv"@ {
                5
            } else {
                6
            };
            assert(words[i] == lowered@);
        }
    }
    yes
}

/// Whether a file is taken for audio: it has an extension, and that is, in
/// whatever case, one of the audio extensions.
pub fn is_audio_file(extension: Option<&str>) -> (yes: bool)
    ensures
        yes == match extension {
            Some(e) => is_one_of(lowercase(e@), audio_extensions()),
            None => false,
        },
{
    match extension {
        Some(e) => {
            let lowered = to_lowercase(e);
            is_audio_extension(lowered.as_str())
        },
        None => false,
    }
}

/// Whether a file is taken for video: it has an extension, and that is, in
/// whatever case, one of the video extensions.
pub fn is_video_file(extension: Option<&str>) -> (yes: bool)
    ensures
        yes == match extension {
            Some(e) => is_one_of(lowercase(e@), video_extensions()),
            None => false,
        },
{
    match extension {
        Some(e) => {
            let lowered = to_lowercase(e);
            is_video_extension(lowered.as_str())
        },
        None => false,
    }
}

/// The title of a track whose file has no name to take it from.
pub open spec fn unknown_title() -> Seq<char> {
    "未知"@
}

/// The name of a project whose video has no name to take it from.
pub open spec fn unnamed_project() -> Seq<char> {
    "未命名项目"@
}

/// Makes the record of a track that was taken into the library: under a
/// fresh id, titled by the name of its file, with the hash of its
/// fingerprint.
pub fn process_audio_file(
    file_path: &str,
    file_stem: Option<&str>,
    fingerprint: &[u8],
    duration: u64,
    created_at: &str,
) -> (music: MusicInfo)
    ensures
        is_uuid_text(music.id@),
        music.title@ == match file_stem {
            Some(stem) => stem@,
            None => unknown_title(),
        },
        music.album is None,
        music.duration == duration,
        music.file_path@ == file_path@,
        music.fingerprint_hash@ == hex_lower(sha256_digest(fingerprint@)),
        music.created_at@ == created_at@,
        music.file_exists,
{
    let title = match file_stem {
        Some(stem) => String::from_str(stem),
        None => String::from_str("未知"),
    };
    MusicInfo {
        id: generate_id(),
        title,
        album: None,
        duration,
        file_path: String::from_str(file_path),
        fingerprint_hash: compute_fingerprint_hash(fingerprint),
        created_at: String::from_str(created_at),
        file_exists: true,
    }
}

/// Makes the record of a new project for a video: under a fresh id, named
/// by the video's file, with no preview and no segments, made and updated
/// now.
pub fn create_project(
    video_path: &str,
    file_stem: Option<&str>,
    video_info: VideoInfo,
    now: &str,
) -> (project: Project)
    ensures
        is_uuid_text(project.id@),
        project.name@ == match file_stem {
            Some(stem) => stem@,
            None => unnamed_project(),
        },
        project.source_video_path@ == video_path@,
        project.preview_video_path is None,
        project.video_info == video_info,
        project.segments@.len() == 0,
        project.created_at@ == now@,
        project.updated_at@ == now@,
        project.file_exists,
{
    let name = match file_stem {
        Some(stem) => String::from_str(stem),
        None => String::from_str("未命名项目"),
    };
    Project {
        id: generate_id(),
        name,
        source_video_path: String::from_str(video_path),
        preview_video_path: None,
        video_info,
        segments: Vec::new(),
        created_at: String::from_str(now),
        updated_at: String::from_str(now),
        file_exists: true,
    }
}

/// The files and the directory that belong to a project and go when it
/// goes: its thumbnail, its preview, its extracted audio, and the directory
/// of its separated tracks.
pub open spec fn project_files(app_dir: Seq<char>, id: Seq<char>) -> Seq<Seq<char>> {
    seq![
        app_dir + "/thumbnails/"@ + id + ".jpg"@,
        app_dir + "/previews/"@ + id + ".mp4"@,
        app_dir + "/temp/"@ + id + "_audio.wav"@,
        app_dir + "/temp/"@ + id + "_separated"@,
    ]
}

/// Lists what belongs to a project and goes when it goes: three files and,
/// last, a directory.
pub fn cleanup_project_files(app_dir: &str, id: &str) -> (paths: Vec<String>)
    ensures
        paths@.map_values(|p: String| p@) == project_files(app_dir@, id@),
{
    let mut paths: Vec<String> = Vec::new();
    paths.push(String::from_str(app_dir).concat("/thumbnails/").concat(id).concat(".jpg"));
    paths.push(String::from_str(app_dir).concat("/previews/").concat(id).concat(".mp4"));
    paths.push(String::from_str(app_dir).concat("/temp/").concat(id).concat("_audio.wav"));
    paths.push(String::from_str(app_dir).concat("/temp/").concat(id).concat("_separated"));
    assert(paths@.map_values(|p: String| p@) =~= project_files(app_dir@, id@));
    paths
}

} // verus!
