//! The models that can be downloaded, and what is known of each.

use crate::text::same_text;
use vstd::prelude::*;
use vstd::string::*;

verus! {

/// One file of a model.
#[derive(Debug, PartialEq, Eq)]
pub struct ModelFile {
    pub name: String,
    pub url: String,
    pub size_bytes: u64,
}

/// The mathematical value of a `ModelFile`.
pub struct ModelFileView {
    pub name: Seq<char>,
    pub url: Seq<char>,
    pub size_bytes: u64,
}

impl View for ModelFile {
    type V = ModelFileView;

    open spec fn view(&self) -> ModelFileView {
        ModelFileView { name: self.name@, url: self.url@, size_bytes: self.size_bytes }
    }
}

/// A model and where its files come from.
#[derive(Debug, PartialEq, Eq)]
pub struct ModelDefinition {
    pub id: String,
    pub name: String,
    pub provider_type: String,
    pub size_bytes: u64,
    pub languages: Vec<String>,
    pub speed_rating: u8,
    pub accuracy_rating: u8,
    pub files: Vec<ModelFile>,
}

/// The mathematical value of a `ModelDefinition`.
pub struct ModelView {
    pub id: Seq<char>,
    pub name: Seq<char>,
    pub provider_type: Seq<char>,
    pub size_bytes: u64,
    pub languages: Seq<Seq<char>>,
    pub speed_rating: u8,
    pub accuracy_rating: u8,
    pub files: Seq<ModelFileView>,
}

impl View for ModelDefinition {
    type V = ModelView;

    open spec fn view(&self) -> ModelView {
        ModelView {
            id: self.id@,
            name: self.name@,
            provider_type: self.provider_type@,
            size_bytes: self.size_bytes,
            languages: self.languages@.map_values(|l: String| l@),
            speed_rating: self.speed_rating,
            accuracy_rating: self.accuracy_rating,
            files: self.files@.map_values(|f: ModelFile| f@),
        }
    }
}

/// Where a model stands on this machine.
#[derive(Debug, Clone, Copy, PartialEq, Eq, Structural)]
pub enum ModelStatus {
    NotDownloaded,
    /// Being downloaded, with the part that is done in thousandths.
    Downloading { progress: u16 },
    Downloaded,
    Corrupted,
}

/// The multilingual model.
pub open spec fn v3_view() -> ModelView {
    ModelView {
        id: "parakeet-v3"@,
        name: "Parakeet v3 (Multilingual)"@,
        provider_type: "parakeet"@,
        size_bytes: 2_560_000_000,
        languages: seq!["multilingual"@],
        speed_rating: 5,
        accuracy_rating: 5,
        files: seq![
            ModelFileView { name: "encoder-model.onnx"@, url: "https://huggingface.co/istupakov/parakeet-tdt-0.6b-v3-onnx/resolve/main/encoder-model.onnx"@, size_bytes: 41_800_000 },
            ModelFileView { name: "encoder-model.onnx.data"@, url: "https://huggingface.co/istupakov/parakeet-tdt-0.6b-v3-onnx/resolve/main/encoder-model.onnx.data"@, size_bytes: 2_440_000_000 },
            ModelFileView { name: "decoder_joint-model.onnx"@, url: "https://huggingface.co/istupakov/parakeet-tdt-0.6b-v3-onnx/resolve/main/decoder_joint-model.onnx"@, size_bytes: 72_500_000 },
            ModelFileView { name: "vocab.txt"@, url: "https://huggingface.co/istupakov/parakeet-tdt-0.6b-v3-onnx/resolve/main/vocab.txt"@, size_bytes: 93_900 },
        ],
    }
}

/// The English model.
pub open spec fn v2_view() -> ModelView {
    ModelView {
        id: "parakeet-v2"@,
        name: "Parakeet v2 (English)"@,
        provider_type: "parakeet"@,
        size_bytes: 2_520_000_000,
        languages: seq!["en"@],
        speed_rating: 5,
        accuracy_rating: 5,
        files: seq![
            ModelFileView { name: "encoder-model.onnx"@, url: "https://huggingface.co/istupakov/parakeet-tdt-0.6b-v2-onnx/resolve/main/encoder-model.onnx"@, size_bytes: 41_800_000 },
            ModelFileView { name: "encoder-model.onnx.data"@, url: "https://huggingface.co/istupakov/parakeet-tdt-0.6b-v2-onnx/resolve/main/encoder-model.onnx.data"@, size_bytes: 2_440_000_000 },
            ModelFileView { name: "decoder_joint-model.onnx"@, url: "https://huggingface.co/istupakov/parakeet-tdt-0.6b-v2-onnx/resolve/main/decoder_joint-model.onnx"@, size_bytes: 35_800_000 },
            ModelFileView { name: "vocab.txt"@, url: "https://huggingface.co/istupakov/parakeet-tdt-0.6b-v2-onnx/resolve/main/vocab.txt"@, size_bytes: 9_380 },
        ],
    }
}

/// The models of the registry, in order.
pub open spec fn catalog() -> Seq<ModelView> {
    seq![v3_view(), v2_view()]
}

/// The views of `models`.
pub open spec fn model_views(models: Seq<ModelDefinition>) -> Seq<ModelView> {
    models.map_values(|m: ModelDefinition| m@)
}

/// Index of the first model of `models` from `i` on with identifier `id`,
/// or the length of `models` if there is none.
pub open spec fn position_of(models: Seq<ModelDefinition>, id: Seq<char>, i: int) -> int
    decreases models.len() - i,
{
    if 0 <= i < models.len() && models[i].id@ != id {
        position_of(models, id, i + 1)
    } else {
        i
    }
}

/// `name` adjoined to the path `base`, as `Path::join` does it where the
/// separator is a slash: a name that starts with a slash stands for itself,
/// and a slash is put in between unless `base` is empty or ends with one.
pub open spec fn path_join(base: Seq<char>, name: Seq<char>) -> Seq<char> {
    if name.len() > 0 && name[0] == '/' {
        name
    } else if base.len() == 0 || base.last() == '/' {
        base + name
    } else {
        base + "/"@ + name
    }
}

/// Whether `names` holds `name`.
pub open spec fn holds_name(names: Seq<String>, name: Seq<char>) -> bool {
    exists|i: int| 0 <= i < names.len() && (#[trigger] names[i])@ == name
}

/// Whether `names` holds the name of every file of `files`.
pub open spec fn holds_all(names: Seq<String>, files: Seq<ModelFile>) -> bool {
    forall|i: int| 0 <= i < files.len() ==> holds_name(names, (#[trigger] files[i]).name@)
}

/// The registry of models.
pub struct ModelRegistry {
    pub models: Vec<ModelDefinition>,
}

/// Tells whether `names` holds `name`.
pub fn contains_name(names: &Vec<String>, name: &str) -> (r: bool)
    ensures
        r == holds_name(names@, name@),
{
    let mut i: usize = 0;
    while i < names.len()
        invariant
            i <= names@.len(),
            forall|k: int| 0 <= k < i ==> (#[trigger] names@[k])@ != name@,
        decreases names@.len() - i,
    {
        if same_text(names[i].as_str(), name) {
            return true;
        }
        i += 1;
    }
    false
}

/// `name` adjoined to the path `base`.
pub fn join_path(base: &str, name: &str) -> (r: String)
    ensures
        r@ == path_join(base@, name@),
{
    let n = name.unicode_len();
    let b = base.unicode_len();
    if n > 0 && name.get_char(0) == '/' {
        name.to_owned()
    } else if b == 0 || base.get_char(b - 1) == '/' {
        base.to_owned().concat(name)
    } else {
        base.to_owned().concat("/").concat(name)
    }
}

impl ModelRegistry {
    /// The registry with the two Parakeet models.
    pub fn new() -> (r: Self)
        ensures
            model_views(r.models@) == catalog(),
    {
        let mut models: Vec<ModelDefinition> = Vec::new();
        let mut languages: Vec<String> = Vec::new();
        languages.push("multilingual".to_owned());
        let mut files: Vec<ModelFile> = Vec::new();
        files.push(
            ModelFile {
                name: "encoder-model.onnx".to_owned(),
                url: "https://huggingface.co/istupakov/parakeet-tdt-0.6b-v3-onnx/resolve/main/encoder-model.onnx".to_owned(),
                size_bytes: 41_800_000,
            },
        );
        files.push(
            ModelFile {
                name: "encoder-model.onnx.data".to_owned(),
                url: "https://huggingface.co/istupakov/parakeet-tdt-0.6b-v3-onnx/resolve/main/encoder-model.onnx.data".to_owned(),
                size_bytes: 2_440_000_000,
            },
        );
        files.push(
            ModelFile {
                name: "decoder_joint-model.onnx".to_owned(),
                url: "https://huggingface.co/istupakov/parakeet-tdt-0.6b-v3-onnx/resolve/main/decoder_joint-model.onnx".to_owned(),
                size_bytes: 72_500_000,
            },
        );
        files.push(
            ModelFile {
                name: "vocab.txt".to_owned(),
                url: "https://huggingface.co/istupakov/parakeet-tdt-0.6b-v3-onnx/resolve/main/vocab.txt".to_owned(),
                size_bytes: 93_900,
            },
        );
        let v3 = ModelDefinition {
            id: "parakeet-v3".to_owned(),
            name: "Parakeet v3 (Multilingual)".to_owned(),
            provider_type: "parakeet".to_owned(),
            size_bytes: 2_560_000_000,
            languages,
            speed_rating: 5,
            accuracy_rating: 5,
            files,
        };
        proof {
            assert(v3.languages@.map_values(|l: String| l@) =~= v3_view().languages);
            assert(v3.files@.map_values(|f: ModelFile| f@) =~= v3_view().files);
        }
        models.push(v3);
        let mut languages: Vec<String> = Vec::new();
        languages.push("en".to_owned());
        let mut files: Vec<ModelFile> = Vec::new();
        files.push(
            ModelFile {
                name: "encoder-model.onnx".to_owned(),
                url: "https://huggingface.co/istupakov/parakeet-tdt-0.6b-v2-onnx/resolve/main/encoder-model.onnx".to_owned(),
                size_bytes: 41_800_000,
            },
        );
        files.push(
            ModelFile {
                name: "encoder-model.onnx.data".to_owned(),
                url: "https://huggingface.co/istupakov/parakeet-tdt-0.6b-v2-onnx/resolve/main/encoder-model.onnx.data".to_owned(),
                size_bytes: 2_440_000_000,
            },
        );
        files.push(
            ModelFile {
                name: "decoder_joint-model.onnx".to_owned(),
                url: "https://huggingface.co/istupakov/parakeet-tdt-0.6b-v2-onnx/resolve/main/decoder_joint-model.onnx".to_owned(),
                size_bytes: 35_800_000,
            },
        );
        files.push(
            ModelFile {
                name: "vocab.txt".to_owned(),
                url: "https://huggingface.co/istupakov/parakeet-tdt-0.6b-v2-onnx/resolve/main/vocab.txt".to_owned(),
                size_bytes: 9_380,
            },
        );
        let v2 = ModelDefinition {
            id: "parakeet-v2".to_owned(),
            name: "Parakeet v2 (English)".to_owned(),
            provider_type: "parakeet".to_owned(),
            size_bytes: 2_520_000_000,
            languages,
            speed_rating: 5,
            accuracy_rating: 5,
            files,
        };
        proof {
            assert(v2.languages@.map_values(|l: String| l@) =~= v2_view().languages);
            assert(v2.files@.map_values(|f: ModelFile| f@) =~= v2_view().files);
        }
        models.push(v2);
        assert(model_views(models@) =~= catalog());
        ModelRegistry { models }
    }

    /// The model with identifier `id`: the first one, if there are several.
    pub fn get_model(&self, id: &str) -> (r: Option<&ModelDefinition>)
        ensures
            match r {
                Some(model) => position_of(self.models@, id@, 0) < self.models@.len() && *model
                    == self.models@[position_of(self.models@, id@, 0)] && model.id@ == id@,
                None => position_of(self.models@, id@, 0) == self.models@.len() && forall|i: int|
                    0 <= i < self.models@.len() ==> (#[trigger] self.models@[i]).id@ != id@,
            },
    {
        let mut i: usize = 0;
        while i < self.models.len()
            invariant
                i <= self.models@.len(),
                position_of(self.models@, id@, 0) == position_of(self.models@, id@, i as int),
                forall|k: int| 0 <= k < i ==> (#[trigger] self.models@[k]).id@ != id@,
            decreases self.models@.len() - i,
        {
            if same_text(self.models[i].id.as_str(), id) {
                return Some(&self.models[i]);
            }
            i += 1;
        }
        None
    }

    /// Where the model `id` stands, given whether its directory exists and
    /// the names of the files in it: not downloaded without the directory or
    /// for a model that the registry does not know, corrupted where a file
    /// of the model is missing, and downloaded else.
    pub fn get_model_status(&self, id: &str, dir_exists: bool, present: &Vec<String>) -> (r:
        ModelStatus)
        ensures
            r == (if !dir_exists || position_of(self.models@, id@, 0) == self.models@.len() {
                ModelStatus::NotDownloaded
            } else if holds_all(
                present@,
                self.models@[position_of(self.models@, id@, 0)].files@,
            ) {
                ModelStatus::Downloaded
            } else {
                ModelStatus::Corrupted
            }),
    {
        if !dir_exists {
            return ModelStatus::NotDownloaded;
        }
        let model = match self.get_model(id) {
            Some(model) => model,
            None => {
                return ModelStatus::NotDownloaded;
            },
        };
        let mut i: usize = 0;
        while i < model.files.len()
            invariant
                i <= model.files@.len(),
                dir_exists,
                position_of(self.models@, id@, 0) < self.models@.len(),
                *model == self.models@[position_of(self.models@, id@, 0)],
                forall|k: int|
                    0 <= k < i ==> holds_name(present@, (#[trigger] model.files@[k]).name@),
            decreases model.files@.len() - i,
        {
            if !contains_name(present, model.files[i].name.as_str()) {
                assert(!holds_name(present@, model.files@[i as int].name@));
                return ModelStatus::Corrupted;
            }
            i += 1;
        }
        ModelStatus::Downloaded
    }

    /// The directory of the model `id` under `models_dir`, if there is a
    /// directory for models.
    pub fn get_model_path(&self, models_dir: Option<&str>, id: &str) -> (r: Option<String>)
        ensures
            match models_dir {
                Some(dir) => r matches Some(path) && path@ == path_join(dir@, id@),
                None => r is None,
            },
    {
        match models_dir {
            Some(dir) => Some(join_path(dir, id)),
            None => None,
        }
    }
}

impl Default for ModelRegistry {
    fn default() -> (r: Self)
        ensures
            model_views(r.models@) == catalog(),
    {
        ModelRegistry::new()
    }
}

} // verus!
