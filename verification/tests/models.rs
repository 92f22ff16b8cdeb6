use wisprarch::models::{contains_name, join_path, ModelRegistry, ModelStatus};

#[test]
fn registry_holds_the_two_parakeet_models() {
    let registry = ModelRegistry::new();
    assert_eq!(registry.models.len(), 2);
    let v3 = &registry.models[0];
    assert_eq!(v3.id, "parakeet-v3");
    assert_eq!(v3.name, "Parakeet v3 (Multilingual)");
    assert_eq!(v3.provider_type, "parakeet");
    assert_eq!(v3.size_bytes, 2_560_000_000);
    assert_eq!(v3.languages, vec!["multilingual"]);
    assert_eq!((v3.speed_rating, v3.accuracy_rating), (5, 5));
    let v2 = &registry.models[1];
    assert_eq!(v2.id, "parakeet-v2");
    assert_eq!(v2.name, "Parakeet v2 (English)");
    assert_eq!(v2.size_bytes, 2_520_000_000);
    assert_eq!(v2.languages, vec!["en"]);
    let names: Vec<&str> = v2.files.iter().map(|f| f.name.as_str()).collect();
    assert_eq!(
        names,
        vec!["encoder-model.onnx", "encoder-model.onnx.data", "decoder_joint-model.onnx", "vocab.txt"]
    );
    let sizes3: Vec<u64> = v3.files.iter().map(|f| f.size_bytes).collect();
    assert_eq!(sizes3, vec![41_800_000, 2_440_000_000, 72_500_000, 93_900]);
    let sizes2: Vec<u64> = v2.files.iter().map(|f| f.size_bytes).collect();
    assert_eq!(sizes2, vec![41_800_000, 2_440_000_000, 35_800_000, 9_380]);
    for model in &registry.models {
        for file in &model.files {
            let version = &model.id["parakeet-".len()..];
            assert_eq!(
                file.url,
                format!(
                    "https://huggingface.co/istupakov/parakeet-tdt-0.6b-{}-onnx/resolve/main/{}",
                    version, file.name
                )
            );
        }
    }
    assert_eq!(ModelRegistry::default().models, registry.models);
}

#[test]
fn get_model_finds_by_identifier() {
    let registry = ModelRegistry::new();
    assert_eq!(registry.get_model("parakeet-v2").unwrap().name, "Parakeet v2 (English)");
    assert_eq!(registry.get_model("parakeet-v3").unwrap().name, "Parakeet v3 (Multilingual)");
    assert!(registry.get_model("parakeet").is_none());
    assert!(registry.get_model("Parakeet-v2").is_none());
    assert!(registry.get_model("").is_none());
}

#[test]
fn model_status_follows_the_files_on_disk() {
    let registry = ModelRegistry::new();
    let all: Vec<String> = ["vocab.txt", "decoder_joint-model.onnx", "encoder-model.onnx.data", "encoder-model.onnx", "notes.txt"]
        .iter()
        .map(|s| s.to_string())
        .collect();
    assert_eq!(registry.get_model_status("parakeet-v3", true, &all), ModelStatus::Downloaded);
    assert_eq!(registry.get_model_status("parakeet-v3", false, &all), ModelStatus::NotDownloaded);
    assert_eq!(registry.get_model_status("whisper", true, &all), ModelStatus::NotDownloaded);
    let some: Vec<String> = all[1..].to_vec();
    assert_eq!(registry.get_model_status("parakeet-v2", true, &some), ModelStatus::Corrupted);
    assert_eq!(registry.get_model_status("parakeet-v2", true, &vec![]), ModelStatus::Corrupted);
    assert!(contains_name(&all, "vocab.txt"));
    assert!(!contains_name(&all, "vocab"));
}

#[test]
fn model_path_joins_as_paths_do() {
    let registry = ModelRegistry::new();
    assert_eq!(registry.get_model_path(None, "parakeet-v2"), None);
    let cases = [
        ("/home/u/.local/share/wisprarch/models", "parakeet-v2"),
        ("/models/", "parakeet-v3"),
        ("", "x"),
        ("/a", "/abs"),
        ("rel", "a/b"),
        ("/", "x"),
        ("/a", ""),
    ];
    for (dir, id) in cases {
        let expected = std::path::Path::new(dir).join(id).to_string_lossy().to_string();
        assert_eq!(join_path(dir, id), expected, "{:?} joined with {:?}", dir, id);
        assert_eq!(registry.get_model_path(Some(dir), id), Some(expected));
    }
}
