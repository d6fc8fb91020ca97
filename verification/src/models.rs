//! The separation models that the application knows, and where their files
//! are kept.

use vstd::prelude::*;
use vstd::string::StringExecFns;

verus! {

/// The architecture of a model.
#[derive(Debug, Clone, Copy, PartialEq, Eq, Structural)]
pub enum ModelArchitecture {
    /// MDX-Net, in ONNX format.
    MdxNet,
}

/// What is known of a model.
#[derive(Debug, Clone)]
pub struct ModelInfo {
    /// The id by which the model is chosen.
    pub id: String,
    /// The name shown for it.
    pub name: String,
    pub architecture: ModelArchitecture,
    /// Name of the model's file.
    pub filename: String,
    pub description: String,
    /// Number of tracks that the model separates.
    pub stems: u8,
    /// Speed, from 1 to 5; 5 is fastest.
    pub speed_rating: u8,
    /// Quality, from 1 to 5; 5 is best.
    pub quality_rating: u8,
    /// Size of the model's file in bytes.
    pub file_size: u64,
}

/// Whether a model is on disk, and where.
#[derive(Debug, Clone)]
pub struct ModelStatus {
    pub model_id: String,
    pub downloaded: bool,
    pub local_path: Option<String>,
}

/// What a [`ModelInfo`] holds, as plain values.
pub struct ModelInfoView {
    pub id: Seq<char>,
    pub name: Seq<char>,
    pub architecture: ModelArchitecture,
    pub filename: Seq<char>,
    pub description: Seq<char>,
    pub stems: u8,
    pub speed_rating: u8,
    pub quality_rating: u8,
    pub file_size: u64,
}

impl View for ModelInfo {
    type V = ModelInfoView;

    open spec fn view(&self) -> ModelInfoView {
        ModelInfoView {
            id: self.id@,
            name: self.name@,
            architecture: self.architecture,
            filename: self.filename@,
            description: self.description@,
            stems: self.stems,
            speed_rating: self.speed_rating,
            quality_rating: self.quality_rating,
            file_size: self.file_size,
        }
    }
}

/// What a [`ModelStatus`] holds, as plain values.
pub struct ModelStatusView {
    pub model_id: Seq<char>,
    pub downloaded: bool,
    pub local_path: Option<Seq<char>>,
}

impl View for ModelStatus {
    type V = ModelStatusView;

    open spec fn view(&self) -> ModelStatusView {
        ModelStatusView {
            model_id: self.model_id@,
            downloaded: self.downloaded,
            local_path: match self.local_path {
                Some(path) => Some(path@),
                None => None,
            },
        }
    }
}

/// The one model that the application supports.
pub open spec fn mdx_inst_hq3() -> ModelInfoView {
    ModelInfoView {
        id: "mdx-inst-hq3"@,
        name: "MDX-Net Inst HQ3"@,
        architecture: ModelArchitecture::MdxNet,
        filename: "UVR-MDX-NET-Inst_HQ_3.onnx"@,
        description: "快速高质量，适合大多数场景"@,
        stems: 2,
        speed_rating: 5,
        quality_rating: 3,
        file_size: 67_000_000,
    }
}

/// The models that the application knows.
pub open spec fn available_models() -> Seq<ModelInfoView> {
    seq![mdx_inst_hq3()]
}

/// The directory under which each model has a directory of its own, where
/// the environment names none.
pub open spec fn default_cache_dir(project_root: Seq<char>) -> Seq<char> {
    project_root + "/models/audio-separator"@
}

/// The directory of a model's files: the one named by the model's id in the
/// cache directory.
pub open spec fn model_dir(cache_dir: Seq<char>, model: ModelInfoView) -> Seq<char> {
    cache_dir + "/"@ + model.id
}

/// The path of a model's file.
pub open spec fn model_file(cache_dir: Seq<char>, model: ModelInfoView) -> Seq<char> {
    model_dir(cache_dir, model) + "/"@ + model.filename
}

/// The status of a model whose file is, or is not, on disk.
pub open spec fn model_status(
    cache_dir: Seq<char>,
    model: ModelInfoView,
    exists: bool,
) -> ModelStatusView {
    ModelStatusView {
        model_id: model.id,
        downloaded: exists,
        local_path: if exists {
            Some(model_file(cache_dir, model))
        } else {
            None
        },
    }
}

/// Lists the models that the application knows.
pub fn get_available_models() -> (models: Vec<ModelInfo>)
    ensures
        models@.len() == 1,
        models@[0]@ == mdx_inst_hq3(),
        models@.map_values(|m: ModelInfo| m@) == available_models(),
{
    let mut models: Vec<ModelInfo> = Vec::new();
    models.push(
        ModelInfo {
            id: String::from_str("mdx-inst-hq3"),
            name: String::from_str("MDX-Net Inst HQ3"),
            architecture: ModelArchitecture::MdxNet,
            filename: String::from_str("UVR-MDX-NET-Inst_HQ_3.onnx"),
            description: String::from_str("快速高质量，适合大多数场景"),
            stems: 2,
            speed_rating: 5,
            quality_rating: 3,
            file_size: 67_000_000,
        },
    );
    assert(models@.map_values(|m: ModelInfo| m@) =~= available_models());
    models
}

/// Finds the model with this id among the known models.
pub fn get_model_by_id(model_id: &str) -> (model: Option<ModelInfo>)
    ensures
        match model {
            Some(m) => m@ == mdx_inst_hq3() && model_id@ == mdx_inst_hq3().id,
            None => model_id@ != mdx_inst_hq3().id,
        },
{
    let mut models = get_available_models();
    let wanted = String::from_str(model_id);
    while models.len() > 0
        invariant
            wanted@ == model_id@,
            models@.len() <= 1,
            models@.len() == 1 ==> models@[0]@ == mdx_inst_hq3(),
            models@.len() == 0 ==> model_id@ != mdx_inst_hq3().id,
        decreases models@.len(),
    {
        let candidate = models.remove(0);
        if candidate.id == wanted {
            return Some(candidate);
        }
    }
    None
}

/// The directory under which each model has a directory of its own: the one
/// that the environment names, if it names one, else `models/audio-separator`
/// in the project's directory.
pub fn get_models_cache_dir(configured: Option<&str>, project_root: &str) -> (dir: String)
    ensures
        dir@ == match configured {
            Some(named) => if named@.len() > 0 {
                named@
            } else {
                default_cache_dir(project_root@)
            },
            None => default_cache_dir(project_root@),
        },
{
    match configured {
        Some(named) => {
            if named.unicode_len() > 0 {
                return String::from_str(named);
            }
        },
        None => {},
    }
    String::from_str(project_root).concat("/models/audio-separator")
}

/// The directory of a model's files.
pub fn get_model_dir(cache_dir: &str, model: &ModelInfo) -> (dir: String)
    ensures
        dir@ == model_dir(cache_dir@, model@),
{
    String::from_str(cache_dir).concat("/").concat(model.id.as_str())
}

/// The path of a model's file.
pub fn get_model_file(cache_dir: &str, model: &ModelInfo) -> (path: String)
    ensures
        path@ == model_file(cache_dir@, model@),
{
    get_model_dir(cache_dir, model).concat("/").concat(model.filename.as_str())
}

/// The status of a model, given whether its file is on disk: a model that
/// is there is reported with the path of its file.
pub fn check_model_downloaded(cache_dir: &str, model: &ModelInfo, exists: bool) -> (status:
    ModelStatus)
    ensures
        status@ == model_status(cache_dir@, model@, exists),
{
    let local_path = if exists {
        Some(get_model_file(cache_dir, model))
    } else {
        None
    };
    ModelStatus { model_id: model.id.clone(), downloaded: exists, local_path }
}

/// The status of every known model, in the order of [`get_available_models`].
/// `on_disk` says for each model, in that order, whether its file is there;
/// a model for which it says nothing counts as absent.
pub fn get_all_models_status(cache_dir: &str, on_disk: &Vec<bool>) -> (statuses: Vec<ModelStatus>)
    ensures
        statuses@.len() == available_models().len(),
        forall|i: int|
            0 <= i < statuses@.len() ==> (#[trigger] statuses@[i])@ == model_status(
                cache_dir@,
                available_models()[i],
                i < on_disk@.len() && on_disk@[i],
            ),
{
    let models = get_available_models();
    let mut statuses: Vec<ModelStatus> = Vec::new();
    let n: usize = models.len();
    let mut i: usize = 0;
    while i < n
        invariant
            i <= n,
            n == models@.len(),
            models@.map_values(|m: ModelInfo| m@) == available_models(),
            statuses@.len() == i,
            forall|j: int|
                0 <= j < i ==> (#[trigger] statuses@[j])@ == model_status(
                    cache_dir@,
                    available_models()[j],
                    j < on_disk@.len() && on_disk@[j],
                ),
        decreases n - i,
    {
        let exists = i < on_disk.len() && on_disk[i];
        assert(models@.map_values(|m: ModelInfo| m@)[i as int] == models@[i as int]@);
        statuses.push(check_model_downloaded(cache_dir, &models[i], exists));
        i = i + 1;
    }
    statuses
}

} // verus!
