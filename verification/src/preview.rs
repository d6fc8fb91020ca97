//! Whether a video can be played as it is.

use crate::text::{contains_text, lowercase, text_contains, to_lowercase};
use crate::tools::texts;
use crate::utils::VideoInfo;
use vstd::prelude::*;
use vstd::string::StringExecFns;

verus! {

/// The video codecs that a browser plays.
pub open spec fn supported_codecs() -> Seq<Seq<char>> {
    seq!["h264"@, "avc1"@, "avc"@, "vp8"@, "vp9"@, "av1"@, "theora"@]
}

/// The container formats that a browser plays.
pub open spec fn supported_formats() -> Seq<Seq<char>> {
    seq!["mp4"@, "mov"@, "m4v"@, "webm"@, "ogg"@, "ogv"@]
}

/// Whether `text` holds one of `words`.
pub open spec fn mentions_any(text: Seq<char>, words: Seq<Seq<char>>) -> bool {
    exists|i: int| 0 <= i < words.len() && contains_text(text, words[i])
}

/// Whether a video with this format and this codec, both given in lower
/// case, must be transcoded to be played: its format names no container that
/// a browser plays, or its codec none that a browser plays.
pub fn needs_transcode(format: &str, video_codec: &str) -> (needed: bool)
    ensures
        needed == (!mentions_any(format@, supported_formats()) || !mentions_any(
            video_codec@,
            supported_codecs(),
        )),
{
    let format_supported = text_contains(format, "mp4") || text_contains(format, "mov")
        || text_contains(format, "m4v") || text_contains(format, "webm") || text_contains(
        format,
        "ogg",
    ) || text_contains(format, "ogv");
    let codec_supported = text_contains(video_codec, "h264") || text_contains(video_codec, "avc1")
        || text_contains(video_codec, "avc") || text_contains(video_codec, "vp8") || text_contains(
        video_codec,
        "vp9",
    ) || text_contains(video_codec, "av1") || text_contains(video_codec, "theora");
    proof {
        let formats = supported_formats();
        if format_supported {
            let i = if contains_text(format@, "mp4"@) {
                0int
            } else if contains_text(format@, "mov"@) {
                1
            } else if contains_text(format@, "m4v"@) {
                2
            } else if contains_text(format@, "webm"@) {
                3
            } else if contains_text(format@, "ogg"@) {
                4
            } else {
                5
            };
            assert(contains_text(format@, formats[i]));
        }
        let codecs = supported_codecs();
        if codec_supported {
            let i = if contains_text(video_codec@, "h264"@) {
                0int
            } else if contains_text(video_codec@, "avc1"@) {
                1
            } else if contains_text(video_codec@, "avc"@) {
                2
            } else if contains_text(video_codec@, "vp8"@) {
                3
            } else if contains_text(video_codec@, "vp9"@) {
                4
            } else if contains_text(video_codec@, "av1"@) {
                5
            } else {
                6
            };
            assert(contains_text(video_codec@, codecs[i]));
        }
    }
    !format_supported || !codec_supported
}

/// Whether a preview must be made of the video for it to be played; the
/// case of the format and of the codec does not matter.
pub fn needs_preview_transcode(video_info: &VideoInfo) -> (needed: bool)
    ensures
        needed == (!mentions_any(lowercase(video_info.format@), supported_formats())
            || !mentions_any(lowercase(video_info.video_codec@), supported_codecs())),
{
    let format = to_lowercase(video_info.format.as_str());
    let video_codec = to_lowercase(video_info.video_codec.as_str());
    needs_transcode(format.as_str(), video_codec.as_str())
}

/// How the transcoder is told to encode the picture of a preview: by the
/// hardware encoder that was found, with the options for speed that its make
/// takes, or in software at the highest speed where none was found.
pub open spec fn preview_picture_options(encoder: Option<Seq<char>>) -> Seq<Seq<char>> {
    match encoder {
        None => seq![
            "-c:v"@,
            "libx264"@,
            "-preset"@,
            "ultrafast"@,
            "-crf"@,
            "28"@,
            "-threads"@,
            "0"@,
        ],
        Some(name) => seq!["-c:v"@, name] + (if contains_text(name, "nvenc"@) {
            seq!["-preset"@, "p1"@, "-rc"@, "vbr"@, "-cq"@, "32"@]
        } else if contains_text(name, "amf"@) {
            seq![
                "-quality"@,
                "speed"@,
                "-rc"@,
                "vbr_latency"@,
                "-qp_i"@,
                "32"@,
                "-qp_p"@,
                "32"@,
            ]
        } else if contains_text(name, "qsv"@) {
            seq!["-preset"@, "veryfast"@, "-global_quality"@, "32"@]
        } else {
            Seq::empty()
        }),
    }
}

/// What the transcoder is told to make the preview of a video: the picture
/// scaled to a height of 720, encoded as [`preview_picture_options`] say,
/// the sound as AAC, in a file that can be played before it is read to its
/// end.
pub open spec fn preview_command(
    input_path: Seq<char>,
    output_path: Seq<char>,
    encoder: Option<Seq<char>>,
) -> Seq<Seq<char>> {
    seq!["-i"@, input_path, "-vf"@, "scale=-2:720"@] + preview_picture_options(encoder) + seq![
        "-c:a"@,
        "aac"@,
        "-b:a"@,
        "128k"@,
        "-movflags"@,
        "+faststart"@,
        "-y"@,
        output_path,
    ]
}

/// Builds the arguments of the transcoder that make the preview of a video,
/// for the hardware encoder that was found, if one was.
pub fn preview_arguments(input_path: &str, output_path: &str, encoder: Option<&str>) -> (arguments:
    Vec<String>)
    ensures
        texts(arguments@) == preview_command(
            input_path@,
            output_path@,
            match encoder {
                Some(name) => Some(name@),
                None => None,
            },
        ),
{
    let mut arguments: Vec<String> = Vec::new();
    arguments.push(String::from_str("-i"));
    arguments.push(String::from_str(input_path));
    arguments.push(String::from_str("-vf"));
    arguments.push(String::from_str("scale=-2:720"));
    match encoder {
        None => {
            arguments.push(String::from_str("-c:v"));
            arguments.push(String::from_str("libx264"));
            arguments.push(String::from_str("-preset"));
            arguments.push(String::from_str("ultrafast"));
            arguments.push(String::from_str("-crf"));
            arguments.push(String::from_str("28"));
            arguments.push(String::from_str("-threads"));
            arguments.push(String::from_str("0"));
        },
        Some(name) => {
            arguments.push(String::from_str("-c:v"));
            arguments.push(String::from_str(name));
            if text_contains(name, "nvenc") {
                arguments.push(String::from_str("-preset"));
                arguments.push(String::from_str("p1"));
                arguments.push(String::from_str("-rc"));
                arguments.push(String::from_str("vbr"));
                arguments.push(String::from_str("-cq"));
                arguments.push(String::from_str("32"));
            } else if text_contains(name, "amf") {
                arguments.push(String::from_str("-quality"));
                arguments.push(String::from_str("speed"));
                arguments.push(String::from_str("-rc"));
                arguments.push(String::from_str("vbr_latency"));
                arguments.push(String::from_str("-qp_i"));
                arguments.push(String::from_str("32"));
                arguments.push(String::from_str("-qp_p"));
                arguments.push(String::from_str("32"));
            } else if text_contains(name, "qsv") {
                arguments.push(String::from_str("-preset"));
                arguments.push(String::from_str("veryfast"));
                arguments.push(String::from_str("-global_quality"));
                arguments.push(String::from_str("32"));
            }
        },
    }
    arguments.push(String::from_str("-c:a"));
    arguments.push(String::from_str("aac"));
    arguments.push(String::from_str("-b:a"));
    arguments.push(String::from_str("128k"));
    arguments.push(String::from_str("-movflags"));
    arguments.push(String::from_str("+faststart"));
    arguments.push(String::from_str("-y"));
    arguments.push(String::from_str(output_path));
    assert(texts(arguments@) =~= preview_command(
        input_path@,
        output_path@,
        match encoder {
            Some(name) => Some(name@),
            None => None,
        },
    ));
    arguments
}

} // verus!
