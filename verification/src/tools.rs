//! Choosing the external programs to run.
//!
//! A program that is shipped with the application is preferred to one of
//! the same name on the system's search path. The caller looks on disk; the
//! choice is made here.

use vstd::prelude::*;
use vstd::string::StringExecFns;

verus! {

/// Whether candidate `i` is there: `present` says so.
pub open spec fn is_present(present: Seq<bool>, i: int) -> bool {
    0 <= i < present.len() && present[i]
}

/// Whether `i` is the first of the `count` candidates that is there.
pub open spec fn is_first_present(present: Seq<bool>, count: int, i: int) -> bool {
    &&& 0 <= i < count
    &&& is_present(present, i)
    &&& forall|j: int| 0 <= j < i ==> !is_present(present, j)
}

/// Whether none of the `count` candidates is there.
pub open spec fn none_present(present: Seq<bool>, count: int) -> bool {
    forall|j: int| 0 <= j < count ==> !is_present(present, j)
}

/// Finds the first candidate that is there. `present` says of each candidate,
/// in order, whether it is; one of which it says nothing counts as absent.
pub fn first_present(candidates: &Vec<String>, present: &Vec<bool>) -> (found: Option<usize>)
    ensures
        match found {
            Some(i) => is_first_present(present@, candidates@.len() as int, i as int),
            None => none_present(present@, candidates@.len() as int),
        },
{
    let n: usize = candidates.len();
    let mut i: usize = 0;
    while i < n
        invariant
            i <= n,
            n == candidates@.len(),
            none_present(present@, i as int),
        decreases n - i,
    {
        if i < present.len() && present[i] {
            return Some(i);
        }
        i = i + 1;
    }
    None
}

/// Where a tool shipped with the application can be: in the directory
/// `ffmpeg` beside the application, then beside the application itself.
pub open spec fn tool_places(exe_dir: Seq<char>, tool_name: Seq<char>) -> Seq<Seq<char>> {
    seq![exe_dir + "/ffmpeg/"@ + tool_name + ".exe"@, exe_dir + "/"@ + tool_name + ".exe"@]
}

/// Where the separator shipped with the application can be.
pub open spec fn separator_places(exe_dir: Seq<char>) -> Seq<Seq<char>> {
    seq![
        exe_dir + "/audio-separator/audio-separator.exe"@,
        exe_dir + "/resources/audio-separator/audio-separator.exe"@,
    ]
}

/// Where the detector shipped with the application can be.
pub open spec fn detector_places(exe_dir: Seq<char>) -> Seq<Seq<char>> {
    seq![
        exe_dir + "/person-detector/person-detector.exe"@,
        exe_dir + "/resources/person-detector/person-detector.exe"@,
    ]
}

/// The texts of a list of strings.
pub open spec fn texts(list: Seq<String>) -> Seq<Seq<char>> {
    list.map_values(|s: String| s@)
}

/// Lists the places to look for a shipped tool, in order of preference.
pub fn tool_candidates(exe_dir: &str, tool_name: &str) -> (candidates: Vec<String>)
    ensures
        texts(candidates@) == tool_places(exe_dir@, tool_name@),
{
    let mut candidates: Vec<String> = Vec::new();
    candidates.push(String::from_str(exe_dir).concat("/ffmpeg/").concat(tool_name).concat(".exe"));
    candidates.push(String::from_str(exe_dir).concat("/").concat(tool_name).concat(".exe"));
    assert(texts(candidates@) =~= tool_places(exe_dir@, tool_name@));
    candidates
}

/// Lists the places to look for the shipped separator, in order of
/// preference.
pub fn separator_candidates(exe_dir: &str) -> (candidates: Vec<String>)
    ensures
        texts(candidates@) == separator_places(exe_dir@),
{
    let mut candidates: Vec<String> = Vec::new();
    candidates.push(String::from_str(exe_dir).concat("/audio-separator/audio-separator.exe"));
    candidates.push(
        String::from_str(exe_dir).concat("/resources/audio-separator/audio-separator.exe"),
    );
    assert(texts(candidates@) =~= separator_places(exe_dir@));
    candidates
}

/// Lists the places to look for the shipped detector, in order of
/// preference.
pub fn detector_candidates(exe_dir: &str) -> (candidates: Vec<String>)
    ensures
        texts(candidates@) == detector_places(exe_dir@),
{
    let mut candidates: Vec<String> = Vec::new();
    candidates.push(String::from_str(exe_dir).concat("/person-detector/person-detector.exe"));
    candidates.push(
        String::from_str(exe_dir).concat("/resources/person-detector/person-detector.exe"),
    );
    assert(texts(candidates@) =~= detector_places(exe_dir@));
    candidates
}

/// The program to run for a tool: the first candidate that is there, else
/// `fallback`.
pub open spec fn chosen_program(
    candidates: Seq<Seq<char>>,
    present: Seq<bool>,
    fallback: Seq<char>,
    program: Seq<char>,
) -> bool {
    ||| exists|i: int|
        is_first_present(present, candidates.len() as int, i) && program == candidates[i]
    ||| none_present(present, candidates.len() as int) && program == fallback
}

/// Chooses the program to run for a tool: the first candidate that is
/// there, else the tool's bare name, which the system looks up on its search
/// path.
pub fn resolve_tool_path(tool_name: &str, candidates: &Vec<String>, present: &Vec<bool>) -> (program:
    String)
    ensures
        chosen_program(texts(candidates@), present@, tool_name@, program@),
{
    match first_present(candidates, present) {
        Some(i) => {
            assert(texts(candidates@)[i as int] == candidates@[i as int]@);
            candidates[i].clone()
        },
        None => String::from_str(tool_name),
    }
}

/// Chooses the separator to run: the first candidate that is there, else
/// `audio-separator` from the system's search path.
pub fn resolve_separator_path(candidates: &Vec<String>, present: &Vec<bool>) -> (program: String)
    ensures
        chosen_program(texts(candidates@), present@, "audio-separator"@, program@),
{
    resolve_tool_path("audio-separator", candidates, present)
}

/// Chooses the command that runs the detector, as a program and the
/// arguments that come before all others.
///
/// The first candidate that is there is run as it is. Where none is there
/// and the detector's script was found in the project's tree, `python` runs
/// the script. Otherwise `person-detector` is run from the system's search
/// path.
pub fn resolve_detector_command(
    candidates: &Vec<String>,
    present: &Vec<bool>,
    script: Option<&str>,
) -> (command: (String, Vec<String>))
    ensures
        (exists|i: int|
            is_first_present(present@, candidates@.len() as int, i) && command.0@
                == candidates@[i]@ && command.1@.len() == 0) || (none_present(
            present@,
            candidates@.len() as int,
        ) && match script {
            Some(path) => command.0@ == "python"@ && command.1@.len() == 1 && command.1@[0]@
                == path@,
            None => command.0@ == "person-detector"@ && command.1@.len() == 0,
        }),
{
    match first_present(candidates, present) {
        Some(i) => (candidates[i].clone(), Vec::new()),
        None => match script {
            Some(path) => {
                let mut arguments: Vec<String> = Vec::new();
                arguments.push(String::from_str(path));
                (String::from_str("python"), arguments)
            },
            None => (String::from_str("person-detector"), Vec::new()),
        },
    }
}

} // verus!
