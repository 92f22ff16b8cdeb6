use wisprarch::normalizer::{Normalizer, TranscriptionNormalizer};
use wisprarch::transcription::{
    CommandProbe, ErrorDetail, GroqProvider, ModelFiles, ParakeetModel, ParakeetProvider,
    ProviderErrorKind, Transcriber, TranscriptionErrorKind, TranscriptionProvider,
    TranscriptionService, WhisperCppProvider, WhisperVerdict,
};

fn files(path: &str) -> ModelFiles {
    ModelFiles {
        model_path: path.to_string(),
        dir_exists: true,
        encoder: true,
        encoder_int8: false,
        decoder: false,
        decoder_int8: true,
        vocab: true,
    }
}

#[test]
fn test_groq_provider_new_default_model() {
    let provider = GroqProvider::new("test_key".to_string(), None).unwrap();
    assert_eq!(provider.model, "whisper-large-v3-turbo");
    assert_eq!(provider.name(), "Groq Cloud");
}

#[test]
fn test_groq_provider_new_custom_model() {
    let provider =
        GroqProvider::new("test_key".to_string(), Some("whisper-large-v3".to_string())).unwrap();
    assert_eq!(provider.model, "whisper-large-v3");
}

#[test]
fn test_groq_provider_is_available() {
    let provider = GroqProvider::new("test_key".to_string(), None).unwrap();
    assert!(provider.is_available());

    let provider_empty = GroqProvider::new("".to_string(), None).unwrap();
    assert!(!provider_empty.is_available());
}

#[test]
fn groq_request_parts() {
    let provider = GroqProvider::new("sk-1".to_string(), None).unwrap();
    assert_eq!(provider.endpoint, "https://api.groq.com/openai/v1/audio/transcriptions");
    assert_eq!(provider.authorization(), "Bearer sk-1");
    assert!(GroqProvider::sends_language("en"));
    assert!(!GroqProvider::sends_language(""));
    assert!(!GroqProvider::sends_language("auto"));
    assert!(GroqProvider::sends_language("Auto"));
    assert_eq!(GroqProvider::upload_name(Some("rec.wav")), "rec.wav");
    assert_eq!(GroqProvider::upload_name(None), "audio.wav");
    assert!(GroqProvider::is_rate_limited(429));
    assert!(!GroqProvider::is_rate_limited(428));
    for (status, ok) in [(199, false), (200, true), (204, true), (299, true), (300, false), (429, false), (500, false)] {
        assert_eq!(GroqProvider::is_success(status), ok);
    }
}

#[test]
fn groq_rate_limit_reads_the_retry_header() {
    let e = GroqProvider::rate_limited(Some("17"));
    assert_eq!(e.kind, TranscriptionErrorKind::RateLimited);
    assert_eq!(e.retry_after, Some(17));
    assert_eq!(e.message, "Rate limit exceeded. Please retry after 17 seconds");
    for header in [None, Some(""), Some("soon"), Some("1.5"), Some(" 3"), Some("-1"), Some("99999999999999999999")] {
        let e = GroqProvider::rate_limited(header);
        assert_eq!(e.retry_after, Some(60));
        assert_eq!(e.message, "Rate limit exceeded. Please retry after 60 seconds");
    }
    assert_eq!(GroqProvider::rate_limited(Some("+5")).retry_after, Some(5));
    assert_eq!(GroqProvider::rate_limited(Some("0")).retry_after, Some(0));
    assert_eq!(
        GroqProvider::rate_limited(Some("18446744073709551615")).message,
        "Rate limit exceeded. Please retry after 18446744073709551615 seconds"
    );
}

#[test]
fn groq_refusal_carries_the_detail_or_the_body() {
    let detail = ErrorDetail {
        message: "Invalid API Key".to_string(),
        error_type: Some("invalid_request_error".to_string()),
        code: None,
    };
    let e = GroqProvider::refused("401 Unauthorized", "{}", Some(&detail));
    assert_eq!(e.kind, TranscriptionErrorKind::Failed);
    assert_eq!(e.retry_after, None);
    assert_eq!(
        e.message,
        format!(
            "Groq API error: {} (type: {:?}, code: {:?})",
            detail.message, detail.error_type, detail.code
        )
    );
    assert_eq!(
        e.message,
        "Groq API error: Invalid API Key (type: Some(\"invalid_request_error\"), code: None)"
    );
    let e = GroqProvider::refused("502 Bad Gateway", "<html>", None);
    assert_eq!(e.message, "Groq API request failed with status 502 Bad Gateway: <html>");
}

#[test]
fn groq_transcript_is_trimmed() {
    assert_eq!(GroqProvider::transcript(Some("  hello there \n")).unwrap(), "hello there");
    let e = GroqProvider::transcript(None).unwrap_err();
    assert_eq!(e.kind, TranscriptionErrorKind::Failed);
    assert_eq!(e.message, "Failed to parse transcription response");
}

#[test]
fn parakeet_model_names() {
    for name in ["parakeet-v2", "v2", "english", "English", "PARAKEET-V2", "V2"] {
        assert_eq!(ParakeetModel::parse(name), Some(ParakeetModel::V2English));
    }
    for name in ["parakeet-v3", "v3", "multilingual", "Multilingual", "Parakeet-V3"] {
        assert_eq!(ParakeetModel::parse(name), Some(ParakeetModel::V3Multilingual));
    }
    for name in ["", "v4", "parakeet", " v2", "v2 ", "whisper"] {
        assert_eq!(ParakeetModel::parse(name), None);
    }
    // A name that is not in lower case is no name for `from_lowered`.
    assert_eq!(ParakeetModel::from_lowered("V2"), None);
    assert_eq!(ParakeetModel::from_lowered("v2"), Some(ParakeetModel::V2English));
    assert_eq!(ParakeetModel::V2English.model_dir_name(), "parakeet-v2");
    assert_eq!(ParakeetModel::V3Multilingual.model_dir_name(), "parakeet-v3");
    assert_eq!(ParakeetModel::V2English.display_name(), "Parakeet v2 (English)");
    assert_eq!(ParakeetModel::V3Multilingual.display_name(), "Parakeet v3 (Multilingual)");
}

#[test]
fn parakeet_provider_needs_its_files() {
    let p = ParakeetProvider::new("Parakeet-V3", &files("/m/parakeet-v3")).unwrap();
    assert_eq!(p.model_type, ParakeetModel::V3Multilingual);
    assert_eq!(p.model_path, "/m/parakeet-v3");
    assert_eq!(p.name(), "Parakeet v3 (Multilingual)");
    assert!(matches!(p.normalizer(), Ok(Normalizer::Parakeet(_))));

    let e = ParakeetProvider::new("tiny", &files("/m/x")).unwrap_err();
    assert_eq!(e.kind, ProviderErrorKind::UnknownVariant);
    assert_eq!(e.message, "Unknown Parakeet model variant 'tiny'. Use 'parakeet-v2' or 'parakeet-v3'");

    let mut f = files("/m/parakeet-v2");
    f.dir_exists = false;
    f.vocab = false;
    let e = ParakeetProvider::new("v2", &f).unwrap_err();
    assert_eq!(e.kind, ProviderErrorKind::ModelMissing);
    assert_eq!(
        e.message,
        "Parakeet model not found at \"/m/parakeet-v2\". Run 'wisprarch models download parakeet-v2' first."
    );

    let mut f = files("/m/parakeet-v2");
    f.encoder = false;
    f.decoder_int8 = false;
    let e = ParakeetProvider::new("v2", &f).unwrap_err();
    assert_eq!(e.kind, ProviderErrorKind::ModelIncomplete);
    assert_eq!(
        e.message,
        "Required model file 'encoder-model.onnx' (or INT8 variant) not found in \"/m/parakeet-v2\". Model may be corrupted or incomplete."
    );
    f.encoder_int8 = true;
    let e = ParakeetProvider::new("v2", &f).unwrap_err();
    assert_eq!(
        e.message,
        "Required model file 'decoder_joint-model.onnx' (or INT8 variant) not found in \"/m/parakeet-v2\". Model may be corrupted or incomplete."
    );
    f.decoder = true;
    f.vocab = false;
    let e = ParakeetProvider::new("v2", &f).unwrap_err();
    assert_eq!(e.kind, ProviderErrorKind::ModelIncomplete);
    assert_eq!(
        e.message,
        "Required vocab.txt not found in \"/m/parakeet-v2\". Model may be corrupted or incomplete."
    );
    f.vocab = true;
    assert!(ParakeetProvider::new("v2", &f).is_ok());
}

#[test]
fn whisper_provider_finds_its_program() {
    let found = CommandProbe {
        custom_exists: false,
        whisper_cli: Some("/usr/bin/whisper-cli".to_string()),
        whisper: Some("/usr/bin/whisper".to_string()),
    };
    let p = WhisperCppProvider::new(None, "base".to_string(), None, &found).unwrap();
    assert_eq!(p.command_path, "/usr/bin/whisper-cli");
    assert_eq!(p.name(), "whisper.cpp");
    let only_whisper = CommandProbe { custom_exists: false, whisper_cli: None, whisper: Some("/bin/whisper".to_string()) };
    let p = WhisperCppProvider::new(None, "base".to_string(), None, &only_whisper).unwrap();
    assert_eq!(p.command_path, "/bin/whisper");
    let none = CommandProbe { custom_exists: false, whisper_cli: None, whisper: None };
    let e = WhisperCppProvider::new(None, "base".to_string(), None, &none).unwrap_err();
    assert_eq!(e.kind, ProviderErrorKind::CommandNotFound);
    assert_eq!(
        e.message,
        "Whisper CLI not found. Please install whisper.cpp (whisper-cli or whisper command)"
    );
    let e = WhisperCppProvider::new(Some("/opt/w".to_string()), "base".to_string(), None, &found).unwrap_err();
    assert_eq!(e.kind, ProviderErrorKind::CommandMissing);
    assert_eq!(e.message, "Custom whisper path does not exist: \"/opt/w\"");
    let there = CommandProbe { custom_exists: true, whisper_cli: None, whisper: None };
    let p = WhisperCppProvider::new(Some("/opt/w".to_string()), "small".to_string(), Some("/m/s.bin".to_string()), &there).unwrap();
    assert_eq!(p.command_path, "/opt/w");
    assert_eq!(p.model, "small");
    assert_eq!(p.model_path, Some("/m/s.bin".to_string()));
}

#[test]
fn whisper_provider_arguments() {
    let there = CommandProbe { custom_exists: true, whisper_cli: None, whisper: None };
    let p = WhisperCppProvider::new(Some("/w".to_string()), "base".to_string(), None, &there).unwrap();
    assert_eq!(p.model_argument(), "models/ggml-base.bin");
    assert_eq!(
        p.arguments("/tmp/a.wav", "en"),
        vec!["-f", "/tmp/a.wav", "-m", "models/ggml-base.bin", "-l", "en", "-nt", "-np"]
    );
    assert_eq!(p.fallback_arguments("/tmp/a.wav"), vec!["-f", "/tmp/a.wav"]);
    let p = WhisperCppProvider::new(Some("/w".to_string()), "base".to_string(), Some("/m/x.bin".to_string()), &there).unwrap();
    assert_eq!(p.model_argument(), "/m/x.bin");
    assert_eq!(p.arguments("a", "de")[3], "/m/x.bin");
    assert_eq!(p.fallback_arguments("a"), vec!["-f", "a", "-m", "/m/x.bin"]);
}

#[test]
fn whisper_runs_are_read_in_turn() {
    assert_eq!(
        WhisperCppProvider::after_first_run(true, " text \n"),
        WhisperVerdict::Done("text".to_string())
    );
    assert_eq!(WhisperCppProvider::after_first_run(false, "text"), WhisperVerdict::TryFallback);
    assert_eq!(WhisperCppProvider::after_fallback_run(true, "\n again "), Ok("again".to_string()));
    let e = WhisperCppProvider::after_fallback_run(false, "again").unwrap_err();
    assert_eq!(e.kind, TranscriptionErrorKind::Failed);
    assert_eq!(e.message, "Whisper.cpp transcription failed");
}

#[test]
fn service_normalizes_with_the_normalizer_of_its_backend() {
    let there = CommandProbe { custom_exists: true, whisper_cli: None, whisper: None };
    let whisper = WhisperCppProvider::new(Some("/w".to_string()), "base".to_string(), None, &there).unwrap();
    let service = TranscriptionService::new(Transcriber::WhisperCpp(whisper)).unwrap();
    assert_eq!(service.transcriber().name(), "whisper.cpp");
    assert_eq!(service.normalize("[00:00:00.000 --> 00:00:02.000]  one\n two "), "one two");

    let groq = GroqProvider::new("k".to_string(), None).unwrap();
    let service = TranscriptionService::new(Transcriber::Groq(groq)).unwrap();
    assert_eq!(service.transcriber().name(), "Groq Cloud");
    assert_eq!(service.normalize(" one\n two "), "one\n two");

    let parakeet = ParakeetProvider::new("v2", &files("/m/parakeet-v2")).unwrap();
    let transcriber = Transcriber::Parakeet(parakeet);
    assert_eq!(transcriber.name(), "Parakeet v2 (English)");
    assert_eq!(transcriber.normalizer().unwrap().name(), "ParakeetNormalizer");
    let service = TranscriptionService::new(transcriber).unwrap();
    assert_eq!(service.normalize("\tdone\t"), "done");
}

#[test]
fn backends_that_cannot_be_used_report_themselves_unavailable() {
    let groq = Transcriber::Groq(GroqProvider::new(String::new(), None).unwrap());
    assert_eq!(groq.needed_path(), None);
    let e = groq.check_available(true).unwrap_err();
    assert_eq!(e.kind, TranscriptionErrorKind::Unavailable);
    assert_eq!(e.retry_after, None);
    assert_eq!(e.message, "Groq API key is not configured");
    let groq = Transcriber::Groq(GroqProvider::new("k".to_string(), None).unwrap());
    assert_eq!(groq.check_available(false), Ok(()));

    let parakeet = Transcriber::Parakeet(ParakeetProvider::new("v3", &files("/m/parakeet-v3")).unwrap());
    assert_eq!(parakeet.needed_path(), Some("/m/parakeet-v3"));
    assert_eq!(parakeet.check_available(true), Ok(()));
    let e = parakeet.check_available(false).unwrap_err();
    assert_eq!(e.kind, TranscriptionErrorKind::Unavailable);
    assert_eq!(e.message, "Parakeet model not found at \"/m/parakeet-v3\"");

    let there = CommandProbe { custom_exists: true, whisper_cli: None, whisper: None };
    let whisper = Transcriber::WhisperCpp(
        WhisperCppProvider::new(Some("/w".to_string()), "base".to_string(), None, &there).unwrap(),
    );
    assert_eq!(whisper.needed_path(), Some("/w"));
    assert_eq!(whisper.check_available(true), Ok(()));
    assert_eq!(whisper.check_available(false).unwrap_err().message, "whisper.cpp not found at \"/w\"");
}

#[test]
fn groq_answers_are_read_in_order() {
    assert_eq!(GroqProvider::before_body(200, Some("5")), Ok(()));
    assert_eq!(GroqProvider::before_body(500, None), Ok(()));
    let e = GroqProvider::before_body(429, Some("5")).unwrap_err();
    assert_eq!(e.kind, TranscriptionErrorKind::RateLimited);
    assert_eq!(e.retry_after, Some(5));
    assert_eq!(e.message, "Rate limit exceeded. Please retry after 5 seconds");
    assert_eq!(GroqProvider::before_body(429, None).unwrap_err().retry_after, Some(60));

    let detail = ErrorDetail { message: "bad".to_string(), error_type: None, code: Some("x".to_string()) };
    // Without success the text of the body does not count.
    let e = GroqProvider::after_body(400, "400 Bad Request", "{}", Some(&detail), Some("text")).unwrap_err();
    assert_eq!(e.kind, TranscriptionErrorKind::Failed);
    assert_eq!(e.message, "Groq API error: bad (type: None, code: Some(\"x\"))");
    let e = GroqProvider::after_body(503, "503 Service Unavailable", "down", None, None).unwrap_err();
    assert_eq!(e.message, "Groq API request failed with status 503 Service Unavailable: down");
    // With success the detail does not count.
    assert_eq!(
        GroqProvider::after_body(200, "200 OK", "{}", Some(&detail), Some(" hi ")),
        Ok("hi".to_string())
    );
    let e = GroqProvider::after_body(201, "201 Created", "{}", None, None).unwrap_err();
    assert_eq!(e.message, "Failed to parse transcription response");
}

#[test]
fn paths_and_texts_in_messages_are_escaped() {
    let odd = "/m/a \"b\"\\c\n";
    let mut f = files(odd);
    f.dir_exists = false;
    let e = ParakeetProvider::new("v2", &f).unwrap_err();
    assert_eq!(
        e.message,
        format!(
            "Parakeet model not found at {:?}. Run 'wisprarch models download parakeet-v2' first.",
            std::path::Path::new(odd)
        )
    );
    assert!(e.message.contains("\\\"b\\\""));
    let none = CommandProbe { custom_exists: false, whisper_cli: None, whisper: None };
    let e = WhisperCppProvider::new(Some(odd.to_string()), "base".to_string(), None, &none).unwrap_err();
    assert_eq!(
        e.message,
        format!("Custom whisper path does not exist: {:?}", std::path::PathBuf::from(odd))
    );
    let detail = ErrorDetail {
        message: "m".to_string(),
        error_type: Some("a \"quoted\" type\t".to_string()),
        code: Some(String::new()),
    };
    let e = GroqProvider::refused("400", "", Some(&detail));
    assert_eq!(
        e.message,
        format!("Groq API error: m (type: {:?}, code: {:?})", detail.error_type, detail.code)
    );
    assert!(e.message.contains("Some(\"a \\\"quoted\\\" type\\t\")"));
    assert!(e.message.ends_with("code: Some(\"\"))"));
}

#[test]
fn the_service_is_made_whenever_the_pattern_compiles() {
    let there = CommandProbe { custom_exists: true, whisper_cli: None, whisper: None };
    for _ in 0..3 {
        let whisper =
            WhisperCppProvider::new(Some("/w".to_string()), "base".to_string(), None, &there).unwrap();
        assert!(whisper.normalizer().is_ok());
        let transcriber = Transcriber::WhisperCpp(whisper);
        assert!(transcriber.normalizer().is_ok());
        assert!(TranscriptionService::new(transcriber).is_ok());
    }
}
