//! What the application reports of the machine and of its own files.

use crate::text::{
    contains_text, lowercase, starts_with_text, text_contains, text_starts_with, to_lowercase,
};
use crate::utils::{AccelerationOptions, DependencyCheck, GpuInfo};
use vstd::prelude::*;
use vstd::string::StringExecFns;

verus! {

/// What the runtime of the separation model can use.
#[derive(Debug, Clone, Copy, PartialEq, Eq, Structural)]
pub struct GpuCapabilities {
    pub onnx_gpu_available: bool,
}

/// Whether the runtime reports a GPU provider: CUDA, DirectML or TensorRT.
pub fn gpu_capabilities(has_cuda: bool, has_directml: bool, has_tensorrt: bool) -> (capabilities:
    GpuCapabilities)
    ensures
        capabilities.onnx_gpu_available == (has_cuda || has_directml || has_tensorrt),
{
    GpuCapabilities { onnx_gpu_available: has_cuda || has_directml || has_tensorrt }
}

/// The mode proposed to the user: hybrid where the runtime can use the GPU,
/// else the CPU.
pub open spec fn recommended_mode(onnx_gpu_available: bool) -> Seq<char> {
    if onnx_gpu_available {
        "hybrid"@
    } else {
        "cpu"@
    }
}

/// Puts together the ways of acceleration that the machine offers. The CPU
/// is always one of them.
pub fn get_acceleration_options(
    cpu_threads: usize,
    gpu: GpuInfo,
    capabilities: GpuCapabilities,
) -> (options: AccelerationOptions)
    ensures
        options.cpu_available,
        options.cpu_threads == cpu_threads,
        options.gpu_available == gpu.available,
        options.gpu_name == gpu.name,
        options.gpu_type == gpu.gpu_type,
        options.onnx_gpu_available == capabilities.onnx_gpu_available,
        options.recommended@ == recommended_mode(capabilities.onnx_gpu_available),
{
    let recommended = if capabilities.onnx_gpu_available {
        String::from_str("hybrid")
    } else {
        String::from_str("cpu")
    };
    AccelerationOptions {
        cpu_available: true,
        cpu_threads,
        gpu_available: gpu.available,
        gpu_name: gpu.name,
        gpu_type: gpu.gpu_type,
        onnx_gpu_available: capabilities.onnx_gpu_available,
        recommended,
    }
}

/// Where the application's files are and how much room they take, in
/// bytes.
#[derive(Debug, Clone)]
pub struct StorageInfo {
    pub app_dir: String,
    pub db_path: String,
    pub config_path: String,
    pub db_size: u64,
    pub config_size: u64,
    pub temp_size: u64,
    pub total_size: u64,
}

/// Puts together the storage report. The total is the sum of the three
/// sizes.
pub fn get_storage_info(
    app_dir: String,
    db_path: String,
    config_path: String,
    db_size: u64,
    config_size: u64,
    temp_size: u64,
) -> (info: StorageInfo)
    requires
        db_size + config_size + temp_size <= u64::MAX,
    ensures
        info.app_dir == app_dir,
        info.db_path == db_path,
        info.config_path == config_path,
        info.db_size == db_size,
        info.config_size == config_size,
        info.temp_size == temp_size,
        info.total_size == db_size + config_size + temp_size,
{
    StorageInfo {
        app_dir,
        db_path,
        config_path,
        db_size,
        config_size,
        temp_size,
        total_size: db_size + config_size + temp_size,
    }
}

/// The processor as first counted: its name is not known, and where the
/// count of physical cores is zero the count of threads stands for it.
pub open spec fn counted_cpu(threads: usize, physical: usize) -> (Seq<char>, usize, usize) {
    ("Unknown"@, if physical == 0 { threads } else { physical }, threads)
}

/// The processor's name, cores and threads: what the system reported where
/// it reported something (a name that is not empty, a count that is not
/// zero), and what was counted where it did not.
pub fn get_cpu_info(threads: usize, physical: usize, reported: Option<(String, usize, usize)>) -> (info:
    (String, usize, usize))
    ensures
        info.0@ == match reported {
            Some(r) => if r.0@.len() > 0 {
                r.0@
            } else {
                "Unknown"@
            },
            None => "Unknown"@,
        },
        info.1 == match reported {
            Some(r) => if r.1 > 0 {
                r.1
            } else {
                counted_cpu(threads, physical).1
            },
            None => counted_cpu(threads, physical).1,
        },
        info.2 == match reported {
            Some(r) => if r.2 > 0 {
                r.2
            } else {
                threads
            },
            None => threads,
        },
{
    let mut model = String::from_str("Unknown");
    let mut cores: usize = if physical == 0 { threads } else { physical };
    let mut logical: usize = threads;
    match reported {
        Some(r) => {
            if r.0.as_str().unicode_len() > 0 {
                model = r.0;
            }
            if r.1 > 0 {
                cores = r.1;
            }
            if r.2 > 0 {
                logical = r.2;
            }
        },
        None => {},
    }
    (model, cores, logical)
}

/// What the system reported of the processor, if it reported anything: the
/// name, or "Unknown"; the cores and the threads, or zero.
pub fn get_cpu_info_windows(name: Option<String>, cores: Option<usize>, threads: Option<usize>) -> (info:
    Option<(String, usize, usize)>)
    ensures
        (name is None && cores is None && threads is None) ==> info is None,
        !(name is None && cores is None && threads is None) ==> (info matches Some(r) && r.0@
            == match name {
            Some(n) => n@,
            None => "Unknown"@,
        } && r.1 == match cores {
            Some(c) => c,
            None => 0usize,
        } && r.2 == match threads {
            Some(t) => t,
            None => 0usize,
        }),
{
    if name.is_none() && cores.is_none() && threads.is_none() {
        return None;
    }
    let model = match name {
        Some(n) => n,
        None => String::from_str("Unknown"),
    };
    let cores = match cores {
        Some(c) => c,
        None => 0,
    };
    let threads = match threads {
        Some(t) => t,
        None => 0,
    };
    Some((model, cores, threads))
}

/// The report on a dependency that was looked for: found, with what is
/// known of it and the message for that, or not found, with the message for
/// that.
pub fn dependency_check(
    name: &str,
    found: Option<(Option<String>, Option<String>)>,
    found_message: &str,
    missing_message: &str,
) -> (check: DependencyCheck)
    ensures
        check.name@ == name@,
        check.available == (found is Some),
        match found {
            Some(known) => check.version == known.0 && check.path == known.1 && check.message@
                == found_message@,
            None => check.version is None && check.path is None && check.message@
                == missing_message@,
        },
{
    match found {
        Some(known) => DependencyCheck {
            name: String::from_str(name),
            available: true,
            version: known.0,
            path: known.1,
            message: String::from_str(found_message),
        },
        None => DependencyCheck {
            name: String::from_str(name),
            available: false,
            version: None,
            path: None,
            message: String::from_str(missing_message),
        },
    }
}

/// Number of days for which a log file is kept.
pub const LOG_RETENTION_DAYS: u64 = 7;

/// Number of seconds for which a log file is kept.
pub const LOG_RETENTION_SECONDS: u64 = 604_800;

/// Whether a file in the log directory is an old log to delete: its name
/// begins with `musiccut.log`, and it was last written more than
/// [`LOG_RETENTION_DAYS`] days ago. The age is given in whole seconds and
/// the nanoseconds beyond them; a file whose age is not known is kept.
pub fn is_expired_log(file_name: &str, age: Option<(u64, u32)>) -> (expired: bool)
    ensures
        expired == (starts_with_text(file_name@, "musiccut.log"@) && match age {
            Some(a) => a.0 > LOG_RETENTION_SECONDS || (a.0 == LOG_RETENTION_SECONDS && a.1 > 0),
            None => false,
        }),
{
    if !text_starts_with(file_name, "musiccut.log") {
        return false;
    }
    match age {
        Some(a) => a.0 > LOG_RETENTION_SECONDS || (a.0 == LOG_RETENTION_SECONDS && a.1 > 0),
        None => false,
    }
}

/// The make of GPU that the names of the video controllers, given in lower
/// case, tell of: AMD where they name AMD or Radeon, else Intel where they
/// name Intel, else none.
pub open spec fn named_gpu(controllers: Seq<char>) -> Option<Seq<char>> {
    if contains_text(controllers, "amd"@) || contains_text(controllers, "radeon"@) {
        Some("amd"@)
    } else if contains_text(controllers, "intel"@) {
        Some("intel"@)
    } else {
        None
    }
}

/// What is reported of a GPU of this make that was found by its name alone.
pub open spec fn is_named_gpu(info: GpuInfo, make: Seq<char>, onnx_gpu_available: bool) -> bool {
    &&& info.available
    &&& info.name@ == if make == "amd"@ {
        "AMD GPU"@
    } else {
        "Intel GPU"@
    }
    &&& info.gpu_type@ == make
    &&& info.memory == 0
    &&& info.onnx_gpu_available == onnx_gpu_available
}

/// What is reported where no GPU was found.
pub open spec fn is_no_gpu(info: GpuInfo) -> bool {
    &&& !info.available
    &&& info.name@ == "None"@
    &&& info.gpu_type@ == "none"@
    &&& info.memory == 0
    &&& !info.onnx_gpu_available
}

/// Reports the GPU that the names of the video controllers, given in lower
/// case, tell of.
pub fn gpu_from_controllers(controllers: &str, capabilities: GpuCapabilities) -> (info: GpuInfo)
    ensures
        match named_gpu(controllers@) {
            Some(make) => is_named_gpu(info, make, capabilities.onnx_gpu_available),
            None => is_no_gpu(info),
        },
{
    if text_contains(controllers, "amd") || text_contains(controllers, "radeon") {
        GpuInfo {
            available: true,
            name: String::from_str("AMD GPU"),
            gpu_type: String::from_str("amd"),
            memory: 0,
            onnx_gpu_available: capabilities.onnx_gpu_available,
        }
    } else if text_contains(controllers, "intel") {
        GpuInfo {
            available: true,
            name: String::from_str("Intel GPU"),
            gpu_type: String::from_str("intel"),
            memory: 0,
            onnx_gpu_available: capabilities.onnx_gpu_available,
        }
    } else {
        GpuInfo {
            available: false,
            name: String::from_str("None"),
            gpu_type: String::from_str("none"),
            memory: 0,
            onnx_gpu_available: false,
        }
    }
}

/// Number of bytes in a mebibyte.
pub const MEBIBYTE: u64 = 1_048_576;

/// Reports the GPU of the machine.
///
/// An NVIDIA GPU that answered is reported with its name and its memory,
/// which it gives in mebibytes. Otherwise the names of the video
/// controllers, if they could be had, decide, whatever their case; see
/// [`gpu_from_controllers`].
pub fn detect_gpu(
    nvidia: Option<(String, u64)>,
    controllers: Option<&str>,
    capabilities: GpuCapabilities,
) -> (info: GpuInfo)
    requires
        nvidia matches Some(found) ==> found.1 * MEBIBYTE <= u64::MAX,
    ensures
        match nvidia {
            Some(found) => info.available && info.name == found.0 && info.gpu_type@ == "nvidia"@
                && info.memory == found.1 * MEBIBYTE && info.onnx_gpu_available
                == capabilities.onnx_gpu_available,
            None => match controllers {
                Some(names) => match named_gpu(lowercase(names@)) {
                    Some(make) => is_named_gpu(info, make, capabilities.onnx_gpu_available),
                    None => is_no_gpu(info),
                },
                None => is_no_gpu(info),
            },
        },
{
    match nvidia {
        Some(found) => GpuInfo {
            available: true,
            name: found.0,
            gpu_type: String::from_str("nvidia"),
            memory: found.1 * MEBIBYTE,
            onnx_gpu_available: capabilities.onnx_gpu_available,
        },
        None => match controllers {
            Some(names) => {
                let lowered = to_lowercase(names);
                gpu_from_controllers(lowered.as_str(), capabilities)
            },
            None => GpuInfo {
                available: false,
                name: String::from_str("None"),
                gpu_type: String::from_str("none"),
                memory: 0,
                onnx_gpu_available: false,
            },
        },
    }
}

} // verus!
