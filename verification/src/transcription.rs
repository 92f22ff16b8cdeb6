//! Transcription backends: how each is set up, what it is asked, and how
//! its answer is read. The calls themselves, to a server or to a program,
//! are made by the caller.

use crate::normalizer::{
    GroqNormalizer, Normalizer, NormalizerError, ParakeetNormalizer, TranscriptionNormalizer,
    WhisperCppNormalizer,
};
use crate::status::text_view;
use crate::text::{decimal, parse_u64, parsed_u64, same_text, to_decimal, trim, trimmed};
use vstd::prelude::*;
use vstd::string::*;

verus! {

/// What `str::to_lowercase` returns for `s`: the lower case of `s` by the
/// rules of Unicode.
pub uninterp spec fn lowercase_of(s: Seq<char>) -> Seq<char>;

/// Calls `str::to_lowercase`. Not proved: that the result is the one that
/// `lowercase_of` names, a function of the characters of `s` alone.
#[verifier::external_body]
fn to_lowercase(s: &str) -> (r: String)
    ensures
        r@ == lowercase_of(s@),
{
    s.to_lowercase()
}

/// The kinds of failure in setting a backend up.
#[derive(Clone, Copy, Debug, PartialEq, Eq, Structural)]
pub enum ProviderErrorKind {
    /// The model variant is not known.
    UnknownVariant,
    /// The directory of the model does not exist.
    ModelMissing,
    /// A file of the model is missing.
    ModelIncomplete,
    /// The program does not exist at the path that was given.
    CommandMissing,
    /// The program was not found on the search path.
    CommandNotFound,
}

/// A failure in setting a backend up.
#[derive(Debug, PartialEq, Eq)]
pub struct ProviderError {
    pub kind: ProviderErrorKind,
    pub message: String,
}

/// The kinds of failure of a transcription.
#[derive(Clone, Copy, Debug, PartialEq, Eq, Structural)]
pub enum TranscriptionErrorKind {
    /// The backend is not there or not configured.
    Unavailable,
    /// The backend is there but takes no request now.
    RateLimited,
    /// Any other failure.
    Failed,
}

/// A failure of a transcription.
#[derive(Debug, PartialEq, Eq)]
pub struct TranscriptionError {
    pub kind: TranscriptionErrorKind,
    /// Seconds after which to try again, for a rate limit.
    pub retry_after: Option<u64>,
    pub message: String,
}

/// What `{:?}` prints for the path `path`: the path between double quotes,
/// with the characters escaped that `Debug` escapes in a path.
pub uninterp spec fn quoted(path: Seq<char>) -> Seq<char>;

/// Formats a path with `{:?}`, which is `Debug` of `std::path::Path`. Not
/// proved: that the result is the one that `quoted` names, a function of the
/// characters of the path alone.
#[verifier::external_body]
fn quote(path: &str) -> (r: String)
    ensures
        r@ == quoted(path@),
{
    format!("{:?}", std::path::Path::new(path))
}

/// Parakeet model variants.
#[derive(Clone, Copy, Debug, PartialEq, Eq, Structural)]
pub enum ParakeetModel {
    /// TDT v2, English only.
    V2English,
    /// TDT v3, multilingual.
    V3Multilingual,
}

/// The variant that `lowered` names, where `lowered` is in lower case.
pub open spec fn named_model(lowered: Seq<char>) -> Option<ParakeetModel> {
    if lowered == "parakeet-v2"@ || lowered == "v2"@ || lowered == "english"@ {
        Some(ParakeetModel::V2English)
    } else if lowered == "parakeet-v3"@ || lowered == "v3"@ || lowered == "multilingual"@ {
        Some(ParakeetModel::V3Multilingual)
    } else {
        None
    }
}

/// The directory name of `model`.
pub open spec fn model_dir(model: ParakeetModel) -> Seq<char> {
    match model {
        ParakeetModel::V2English => "parakeet-v2"@,
        ParakeetModel::V3Multilingual => "parakeet-v3"@,
    }
}

/// The name of `model` for people.
pub open spec fn model_label(model: ParakeetModel) -> Seq<char> {
    match model {
        ParakeetModel::V2English => "Parakeet v2 (English)"@,
        ParakeetModel::V3Multilingual => "Parakeet v3 (Multilingual)"@,
    }
}

impl ParakeetModel {
    /// The variant that `lowered` names, where `lowered` is in lower case
    /// already.
    pub fn from_lowered(lowered: &str) -> (r: Option<Self>)
        ensures
            r == named_model(lowered@),
    {
        if same_text(lowered, "parakeet-v2") || same_text(lowered, "v2") || same_text(
            lowered,
            "english",
        ) {
            Some(ParakeetModel::V2English)
        } else if same_text(lowered, "parakeet-v3") || same_text(lowered, "v3") || same_text(
            lowered,
            "multilingual",
        ) {
            Some(ParakeetModel::V3Multilingual)
        } else {
            None
        }
    }

    /// The variant that `s` names, whatever the case of its letters.
    pub fn parse(s: &str) -> (r: Option<Self>)
        ensures
            r == named_model(lowercase_of(s@)),
    {
        let lowered = to_lowercase(s);
        ParakeetModel::from_lowered(lowered.as_str())
    }

    /// The name of the directory that holds this model.
    pub fn model_dir_name(&self) -> (r: &'static str)
        ensures
            r@ == model_dir(*self),
    {
        match self {
            ParakeetModel::V2English => "parakeet-v2",
            ParakeetModel::V3Multilingual => "parakeet-v3",
        }
    }

    /// The name of this model for people.
    pub fn display_name(&self) -> (r: &'static str)
        ensures
            r@ == model_label(*self),
    {
        match self {
            ParakeetModel::V2English => "Parakeet v2 (English)",
            ParakeetModel::V3Multilingual => "Parakeet v3 (Multilingual)",
        }
    }
}

/// What was found of a model on disk.
#[derive(Debug, PartialEq, Eq)]
pub struct ModelFiles {
    /// The directory of the model.
    pub model_path: String,
    /// The directory exists.
    pub dir_exists: bool,
    /// `encoder-model.onnx` exists.
    pub encoder: bool,
    /// `encoder-model.int8.onnx` exists.
    pub encoder_int8: bool,
    /// `decoder_joint-model.onnx` exists.
    pub decoder: bool,
    /// `decoder_joint-model.int8.onnx` exists.
    pub decoder_int8: bool,
    /// `vocab.txt` exists.
    pub vocab: bool,
}

/// The message for an unknown model variant.
pub open spec fn unknown_variant_message(variant: Seq<char>) -> Seq<char> {
    "Unknown Parakeet model variant '"@ + variant + "'. Use 'parakeet-v2' or 'parakeet-v3'"@
}

/// The message for a model whose directory does not exist.
pub open spec fn model_missing_message(path: Seq<char>, dir: Seq<char>) -> Seq<char> {
    "Parakeet model not found at "@ + quoted(path) + ". Run 'wisprarch models download "@ + dir
        + "' first."@
}

/// The message for a model without one of its network files.
pub open spec fn file_missing_message(file_base: Seq<char>, path: Seq<char>) -> Seq<char> {
    "Required model file '"@ + file_base + ".onnx' (or INT8 variant) not found in "@ + quoted(path)
        + ". Model may be corrupted or incomplete."@
}

/// The message for a model without its vocabulary.
pub open spec fn vocab_missing_message(path: Seq<char>) -> Seq<char> {
    "Required vocab.txt not found in "@ + quoted(path)
        + ". Model may be corrupted or incomplete."@
}

/// What is wrong with the files of `model`, if anything: the first of a
/// missing directory, a missing encoder, a missing decoder and a missing
/// vocabulary. A network file is there if it is in full or in 8-bit form.
pub open spec fn model_fault(model: ParakeetModel, files: ModelFiles) -> Option<
    (ProviderErrorKind, Seq<char>),
> {
    if !files.dir_exists {
        Some(
            (
                ProviderErrorKind::ModelMissing,
                model_missing_message(files.model_path@, model_dir(model)),
            ),
        )
    } else if !files.encoder && !files.encoder_int8 {
        Some(
            (
                ProviderErrorKind::ModelIncomplete,
                file_missing_message("encoder-model"@, files.model_path@),
            ),
        )
    } else if !files.decoder && !files.decoder_int8 {
        Some(
            (
                ProviderErrorKind::ModelIncomplete,
                file_missing_message("decoder_joint-model"@, files.model_path@),
            ),
        )
    } else if !files.vocab {
        Some((ProviderErrorKind::ModelIncomplete, vocab_missing_message(files.model_path@)))
    } else {
        None
    }
}

/// The Parakeet speech-to-text backend, which runs a model from disk.
#[derive(Debug, PartialEq, Eq)]
pub struct ParakeetProvider {
    pub model_path: String,
    pub model_type: ParakeetModel,
}

fn file_missing(file_base: &str, path: &str) -> (r: ProviderError)
    ensures
        r.kind == ProviderErrorKind::ModelIncomplete,
        r.message@ == file_missing_message(file_base@, path@),
{
    let place = quote(path);
    ProviderError {
        kind: ProviderErrorKind::ModelIncomplete,
        message: "Required model file '".to_owned().concat(file_base).concat(
            ".onnx' (or INT8 variant) not found in ",
        ).concat(place.as_str()).concat(". Model may be corrupted or incomplete."),
    }
}

impl ParakeetProvider {
    /// The backend for the variant that `lowered` names, a name in lower
    /// case, with the files that were found for it. Fails if the name is
    /// unknown, and if the files are not all there.
    pub fn with_variant(model_variant: &str, lowered: &str, files: &ModelFiles) -> (r: Result<
        Self,
        ProviderError,
    >)
        ensures
            match named_model(lowered@) {
                None => r matches Err(e) && e.kind == ProviderErrorKind::UnknownVariant
                    && e.message@ == unknown_variant_message(model_variant@),
                Some(model) => match model_fault(model, *files) {
                    Some(fault) => r matches Err(e) && e.kind == fault.0 && e.message@ == fault.1,
                    None => r matches Ok(p) && p.model_type == model && p.model_path@
                        == files.model_path@,
                },
            },
    {
        let model_type = match ParakeetModel::from_lowered(lowered) {
            Some(model) => model,
            None => {
                return Err(
                    ProviderError {
                        kind: ProviderErrorKind::UnknownVariant,
                        message: "Unknown Parakeet model variant '".to_owned().concat(
                            model_variant,
                        ).concat("'. Use 'parakeet-v2' or 'parakeet-v3'"),
                    },
                );
            },
        };
        let path = files.model_path.as_str();
        if !files.dir_exists {
            let place = quote(path);
            return Err(
                ProviderError {
                    kind: ProviderErrorKind::ModelMissing,
                    message: "Parakeet model not found at ".to_owned().concat(
                        place.as_str(),
                    ).concat(". Run 'wisprarch models download ").concat(
                        model_type.model_dir_name(),
                    ).concat("' first."),
                },
            );
        }
        if !files.encoder && !files.encoder_int8 {
            return Err(file_missing("encoder-model", path));
        }
        if !files.decoder && !files.decoder_int8 {
            return Err(file_missing("decoder_joint-model", path));
        }
        if !files.vocab {
            let place = quote(path);
            return Err(
                ProviderError {
                    kind: ProviderErrorKind::ModelIncomplete,
                    message: "Required vocab.txt not found in ".to_owned().concat(
                        place.as_str(),
                    ).concat(". Model may be corrupted or incomplete."),
                },
            );
        }
        Ok(ParakeetProvider { model_path: files.model_path.clone(), model_type })
    }

    /// The backend for the variant that `model_variant` names, whatever the
    /// case of its letters, with the files that were found for it. Fails if
    /// the name is unknown, and if the files are not all there.
    pub fn new(model_variant: &str, files: &ModelFiles) -> (r: Result<Self, ProviderError>)
        ensures
            match named_model(lowercase_of(model_variant@)) {
                None => r matches Err(e) && e.kind == ProviderErrorKind::UnknownVariant
                    && e.message@ == unknown_variant_message(model_variant@),
                Some(model) => match model_fault(model, *files) {
                    Some(fault) => r matches Err(e) && e.kind == fault.0 && e.message@ == fault.1,
                    None => r matches Ok(p) && p.model_type == model && p.model_path@
                        == files.model_path@,
                },
            },
    {
        let lowered = to_lowercase(model_variant);
        ParakeetProvider::with_variant(model_variant, lowered.as_str(), files)
    }
}

/// What the Groq API said of a request that it refused.
#[derive(Debug, PartialEq, Eq)]
pub struct ErrorDetail {
    pub message: String,
    pub error_type: Option<String>,
    pub code: Option<String>,
}

/// What `{:?}` prints for the optional text `value`: `None`, or the text
/// inside `Some(..)`, between double quotes and with the characters escaped
/// that `Debug` escapes in a string.
pub uninterp spec fn inspected(value: Option<Seq<char>>) -> Seq<char>;

/// Formats an optional string with `{:?}`, which is `Debug` of
/// `Option<String>`. Not proved: that the result is the one that `inspected`
/// names, a function of the characters of the text alone.
#[verifier::external_body]
fn inspect(value: &Option<String>) -> (r: String)
    ensures
        r@ == inspected(text_view(*value)),
{
    format!("{:?}", value)
}

/// The seconds to wait after a rate limit: what the `retry-after` header
/// says if it holds a number, else sixty.
pub open spec fn retry_delay(retry_after: Option<Seq<char>>) -> u64 {
    match retry_after {
        Some(value) => match parsed_u64(value) {
            Some(seconds) => seconds,
            None => 60,
        },
        None => 60,
    }
}

/// The message of a rate limit.
pub open spec fn rate_limit_message(seconds: u64) -> Seq<char> {
    "Rate limit exceeded. Please retry after "@ + decimal(seconds as nat) + " seconds"@
}

/// The message of a refusal of which the API gave the detail.
pub open spec fn api_error_message(detail: ErrorDetail) -> Seq<char> {
    "Groq API error: "@ + detail.message@ + " (type: "@ + inspected(
        text_view(detail.error_type),
    ) + ", code: "@ + inspected(text_view(detail.code)) + ")"@
}

/// The message of a refusal without detail.
pub open spec fn http_error_message(status_line: Seq<char>, body: Seq<char>) -> Seq<char> {
    "Groq API request failed with status "@ + status_line + ": "@ + body
}

/// The view of an optional string slice.
pub open spec fn slice_view(s: Option<&str>) -> Option<Seq<char>> {
    match s {
        Some(t) => Some(t@),
        None => None,
    }
}

/// The Groq cloud backend.
#[derive(Debug, PartialEq, Eq)]
pub struct GroqProvider {
    pub api_key: String,
    pub endpoint: String,
    pub model: String,
}

impl GroqProvider {
    /// The backend with `api_key`, for `model` or, where none is given, for
    /// `whisper-large-v3-turbo`. Always succeeds.
    pub fn new(api_key: String, model: Option<String>) -> (r: Result<Self, ProviderError>)
        ensures
            r matches Ok(p) && p.api_key@ == api_key@ && p.endpoint@
                == "https://api.groq.com/openai/v1/audio/transcriptions"@ && p.model@ == (
            match model {
                Some(m) => m@,
                None => "whisper-large-v3-turbo"@,
            }),
    {
        let model = match model {
            Some(m) => m,
            None => "whisper-large-v3-turbo".to_owned(),
        };
        Ok(
            GroqProvider {
                api_key,
                endpoint: "https://api.groq.com/openai/v1/audio/transcriptions".to_owned(),
                model,
            },
        )
    }

    /// Whether the backend can be used: it can with a key that is not empty.
    pub fn is_available(&self) -> (r: bool)
        ensures
            r == (self.api_key@.len() > 0),
    {
        self.api_key.as_str().unicode_len() != 0
    }

    /// The value of the `Authorization` header.
    pub fn authorization(&self) -> (r: String)
        ensures
            r@ == "Bearer "@ + self.api_key@,
    {
        "Bearer ".to_owned().concat(self.api_key.as_str())
    }

    /// Whether the language hint goes into the request: it does unless it
    /// is empty or `auto`.
    pub fn sends_language(language: &str) -> (r: bool)
        ensures
            r == (language@.len() > 0 && language@ != "auto"@),
    {
        language.unicode_len() != 0 && !same_text(language, "auto")
    }

    /// The name under which the file is uploaded: its own, or `audio.wav`
    /// where it has none.
    pub fn upload_name(file_name: Option<&str>) -> (r: String)
        ensures
            r@ == (match file_name {
                Some(name) => name@,
                None => "audio.wav"@,
            }),
    {
        match file_name {
            Some(name) => name.to_owned(),
            None => "audio.wav".to_owned(),
        }
    }

    /// Whether `status` is the status of a rate limit.
    pub fn is_rate_limited(status: u16) -> (r: bool)
        ensures
            r == (status == 429),
    {
        status == 429
    }

    /// Whether `status` is a status of success, from 200 to 299.
    pub fn is_success(status: u16) -> (r: bool)
        ensures
            r == (200 <= status <= 299),
    {
        200 <= status && status <= 299
    }

    /// Reads the status of an answer before its body is read: a rate limit
    /// ends the request there, with the wait that the `retry-after` header
    /// names; any other status lets the body be read.
    pub fn before_body(status: u16, retry_after: Option<&str>) -> (r: Result<
        (),
        TranscriptionError,
    >)
        ensures
            status != 429 ==> r is Ok,
            status == 429 ==> (r matches Err(e) && e.kind == TranscriptionErrorKind::RateLimited
                && e.retry_after == Some(retry_delay(slice_view(retry_after))) && e.message@
                == rate_limit_message(retry_delay(slice_view(retry_after)))),
    {
        if GroqProvider::is_rate_limited(status) {
            Err(GroqProvider::rate_limited(retry_after))
        } else {
            Ok(())
        }
    }

    /// Reads an answer whose body is `body`: without a status of success it
    /// is a refusal, with the detail that the body held if it held one; with
    /// one it is the transcription, the text that the body held without the
    /// white space around it, or a failure where the body held no text.
    pub fn after_body(
        status: u16,
        status_line: &str,
        body: &str,
        detail: Option<&ErrorDetail>,
        text: Option<&str>,
    ) -> (r: Result<String, TranscriptionError>)
        ensures
            !(200 <= status <= 299) ==> (r matches Err(e) && e.kind
                == TranscriptionErrorKind::Failed && e.retry_after is None && e.message@ == (
            match detail {
                Some(d) => api_error_message(*d),
                None => http_error_message(status_line@, body@),
            })),
            200 <= status <= 299 ==> (match text {
                Some(t) => r matches Ok(s) && s@ == trimmed(t@),
                None => r matches Err(e) && e.kind == TranscriptionErrorKind::Failed
                    && e.retry_after is None && e.message@
                    == "Failed to parse transcription response"@,
            }),
    {
        if !GroqProvider::is_success(status) {
            Err(GroqProvider::refused(status_line, body, detail))
        } else {
            GroqProvider::transcript(text)
        }
    }

    /// The failure for a rate limit, with the `retry-after` header of the
    /// answer if it has one.
    pub fn rate_limited(retry_after: Option<&str>) -> (r: TranscriptionError)
        ensures
            r.kind == TranscriptionErrorKind::RateLimited,
            r.retry_after == Some(retry_delay(slice_view(retry_after))),
            r.message@ == rate_limit_message(retry_delay(slice_view(retry_after))),
    {
        let seconds: u64 = match retry_after {
            Some(value) => match parse_u64(value) {
                Some(seconds) => seconds,
                None => 60,
            },
            None => 60,
        };
        let number = to_decimal(seconds);
        TranscriptionError {
            kind: TranscriptionErrorKind::RateLimited,
            retry_after: Some(seconds),
            message: "Rate limit exceeded. Please retry after ".to_owned().concat(
                number.as_str(),
            ).concat(" seconds"),
        }
    }

    /// The failure for an answer without success: with the detail that the
    /// API gave, or else with the status line and the body.
    pub fn refused(status_line: &str, body: &str, detail: Option<&ErrorDetail>) -> (r:
        TranscriptionError)
        ensures
            r.kind == TranscriptionErrorKind::Failed,
            r.retry_after is None,
            r.message@ == (match detail {
                Some(d) => api_error_message(*d),
                None => http_error_message(status_line@, body@),
            }),
    {
        let message = match detail {
            Some(d) => {
                let kind = inspect(&d.error_type);
                let code = inspect(&d.code);
                "Groq API error: ".to_owned().concat(d.message.as_str()).concat(
                    " (type: ",
                ).concat(kind.as_str()).concat(", code: ").concat(code.as_str()).concat(")")
            },
            None => "Groq API request failed with status ".to_owned().concat(
                status_line,
            ).concat(": ").concat(body),
        };
        TranscriptionError { kind: TranscriptionErrorKind::Failed, retry_after: None, message }
    }

    /// The transcription for an answer of success: the text of the answer
    /// without the white space around it, or a failure where the answer
    /// held no text.
    pub fn transcript(text: Option<&str>) -> (r: Result<String, TranscriptionError>)
        ensures
            match text {
                Some(t) => r matches Ok(s) && s@ == trimmed(t@),
                None => r matches Err(e) && e.kind == TranscriptionErrorKind::Failed
                    && e.retry_after is None && e.message@
                    == "Failed to parse transcription response"@,
            },
    {
        match text {
            Some(t) => Ok(trim(t)),
            None => Err(
                TranscriptionError {
                    kind: TranscriptionErrorKind::Failed,
                    retry_after: None,
                    message: "Failed to parse transcription response".to_owned(),
                },
            ),
        }
    }
}

/// What was found of the whisper.cpp program.
#[derive(Debug, PartialEq, Eq)]
pub struct CommandProbe {
    /// The path that was given exists.
    pub custom_exists: bool,
    /// Where `whisper-cli` is on the search path, if it is.
    pub whisper_cli: Option<String>,
    /// Where `whisper` is on the search path, if it is.
    pub whisper: Option<String>,
}

/// The message for a given path that does not exist.
pub open spec fn custom_missing_message(path: Seq<char>) -> Seq<char> {
    "Custom whisper path does not exist: "@ + quoted(path)
}

/// The whisper.cpp backend, which runs a program.
#[derive(Debug, PartialEq, Eq)]
pub struct WhisperCppProvider {
    pub command_path: String,
    pub model_path: Option<String>,
    pub model: String,
}

/// One step in the reading of what whisper.cpp printed.
#[derive(Debug, PartialEq, Eq)]
pub enum WhisperVerdict {
    /// The transcription.
    Done(String),
    /// The run failed: run the program again with the fallback arguments.
    TryFallback,
}

impl WhisperCppProvider {
    /// Where the program is: at `command_path` if one is given, which has to
    /// exist; else where `whisper-cli` was found, else where `whisper` was.
    pub open spec fn resolved(command_path: Option<String>, probe: CommandProbe) -> Result<
        Seq<char>,
        (ProviderErrorKind, Seq<char>),
    > {
        match command_path {
            Some(path) => if probe.custom_exists {
                Ok(path@)
            } else {
                Err((ProviderErrorKind::CommandMissing, custom_missing_message(path@)))
            },
            None => match probe.whisper_cli {
                Some(found) => Ok(found@),
                None => match probe.whisper {
                    Some(found) => Ok(found@),
                    None => Err(
                        (
                            ProviderErrorKind::CommandNotFound,
                            "Whisper CLI not found. Please install whisper.cpp (whisper-cli or whisper command)"@,
                        ),
                    ),
                },
            },
        }
    }

    /// The backend that runs the program at `command_path`, or the one that
    /// `probe` found on the search path, with `model` and `model_path`.
    pub fn new(
        command_path: Option<String>,
        model: String,
        model_path: Option<String>,
        probe: &CommandProbe,
    ) -> (r: Result<Self, ProviderError>)
        ensures
            match Self::resolved(command_path, *probe) {
                Ok(path) => r matches Ok(p) && p.command_path@ == path && p.model == model
                    && p.model_path == model_path,
                Err(fault) => r matches Err(e) && e.kind == fault.0 && e.message@ == fault.1,
            },
    {
        let command_path = match command_path {
            Some(path) => {
                if probe.custom_exists {
                    path
                } else {
                    let place = quote(path.as_str());
                    return Err(
                        ProviderError {
                            kind: ProviderErrorKind::CommandMissing,
                            message: "Custom whisper path does not exist: ".to_owned().concat(
                                place.as_str(),
                            ),
                        },
                    );
                }
            },
            None => match &probe.whisper_cli {
                Some(found) => found.clone(),
                None => match &probe.whisper {
                    Some(found) => found.clone(),
                    None => {
                        return Err(
                            ProviderError {
                                kind: ProviderErrorKind::CommandNotFound,
                                message: "Whisper CLI not found. Please install whisper.cpp (whisper-cli or whisper command)".to_owned(),
                            },
                        );
                    },
                },
            },
        };
        Ok(WhisperCppProvider { command_path, model_path, model })
    }

    /// The model that the program is told to load.
    pub open spec fn spec_model_argument(&self) -> Seq<char> {
        match self.model_path {
            Some(path) => path@,
            None => "models/ggml-"@ + self.model@ + ".bin"@,
        }
    }

    /// The model that the program is told to load: the model path if one is
    /// set, else the file of the model under `models/`.
    pub fn model_argument(&self) -> (r: String)
        ensures
            r@ == self.spec_model_argument(),
    {
        match &self.model_path {
            Some(path) => path.clone(),
            None => "models/ggml-".to_owned().concat(self.model.as_str()).concat(".bin"),
        }
    }

    /// The arguments of the first run.
    pub fn arguments(&self, audio_path: &str, language: &str) -> (r: Vec<String>)
        ensures
            r@.len() == 8,
            r@[0]@ == "-f"@,
            r@[1]@ == audio_path@,
            r@[2]@ == "-m"@,
            r@[3]@ == self.spec_model_argument(),
            r@[4]@ == "-l"@,
            r@[5]@ == language@,
            r@[6]@ == "-nt"@,
            r@[7]@ == "-np"@,
    {
        let mut args: Vec<String> = Vec::new();
        args.push("-f".to_owned());
        args.push(audio_path.to_owned());
        args.push("-m".to_owned());
        args.push(self.model_argument());
        args.push("-l".to_owned());
        args.push(language.to_owned());
        args.push("-nt".to_owned());
        args.push("-np".to_owned());
        args
    }

    /// The arguments of the second run, which is made if the first fails:
    /// the file, and the model path if one is set.
    pub fn fallback_arguments(&self, audio_path: &str) -> (r: Vec<String>)
        ensures
            r@[0]@ == "-f"@,
            r@[1]@ == audio_path@,
            match self.model_path {
                Some(path) => r@.len() == 4 && r@[2]@ == "-m"@ && r@[3]@ == path@,
                None => r@.len() == 2,
            },
    {
        let mut args: Vec<String> = Vec::new();
        args.push("-f".to_owned());
        args.push(audio_path.to_owned());
        if let Some(path) = &self.model_path {
            args.push("-m".to_owned());
            args.push(path.clone());
        }
        args
    }

    /// Reads the first run: what it printed, trimmed, if it succeeded; else
    /// the second run is due.
    pub fn after_first_run(succeeded: bool, printed: &str) -> (r: WhisperVerdict)
        ensures
            succeeded ==> (r matches WhisperVerdict::Done(text) && text@ == trimmed(printed@)),
            !succeeded ==> r is TryFallback,
    {
        if succeeded {
            WhisperVerdict::Done(trim(printed))
        } else {
            WhisperVerdict::TryFallback
        }
    }

    /// Reads the second run: what it printed, trimmed, if it succeeded; else
    /// the transcription has failed.
    pub fn after_fallback_run(succeeded: bool, printed: &str) -> (r: Result<
        String,
        TranscriptionError,
    >)
        ensures
            succeeded ==> (r matches Ok(text) && text@ == trimmed(printed@)),
            !succeeded ==> (r matches Err(e) && e.kind == TranscriptionErrorKind::Failed
                && e.retry_after is None && e.message@ == "Whisper.cpp transcription failed"@),
    {
        if succeeded {
            Ok(trim(printed))
        } else {
            Err(
                TranscriptionError {
                    kind: TranscriptionErrorKind::Failed,
                    retry_after: None,
                    message: "Whisper.cpp transcription failed".to_owned(),
                },
            )
        }
    }
}

/// A transcription backend.
pub trait TranscriptionProvider {
    /// The name of the backend.
    fn name(&self) -> &'static str;

    /// The normaliser for what the backend returns.
    fn normalizer(&self) -> Result<Normalizer, NormalizerError>;
}

impl TranscriptionProvider for GroqProvider {
    fn name(&self) -> (r: &'static str)
        ensures
            r@ == "Groq Cloud"@,
    {
        "Groq Cloud"
    }

    fn normalizer(&self) -> (r: Result<Normalizer, NormalizerError>)
        ensures
            r matches Ok(n) && n is Groq,
    {
        Ok(Normalizer::Groq(GroqNormalizer::new()))
    }
}

impl TranscriptionProvider for ParakeetProvider {
    fn name(&self) -> (r: &'static str)
        ensures
            r@ == model_label(self.model_type),
    {
        self.model_type.display_name()
    }

    fn normalizer(&self) -> (r: Result<Normalizer, NormalizerError>)
        ensures
            r matches Ok(n) && n is Parakeet,
    {
        Ok(Normalizer::Parakeet(ParakeetNormalizer::new()))
    }
}

impl TranscriptionProvider for WhisperCppProvider {
    fn name(&self) -> (r: &'static str)
        ensures
            r@ == "whisper.cpp"@,
    {
        "whisper.cpp"
    }

    fn normalizer(&self) -> (r: Result<Normalizer, NormalizerError>)
        ensures
            (r is Ok) == crate::normalizer::regex_accepts(crate::normalizer::timestamp_pattern()),
            r matches Ok(n) ==> (n matches Normalizer::WhisperCpp(w) && w.pattern()
                == crate::normalizer::timestamp_pattern()),
            r matches Err(e) ==> e == NormalizerError::InvalidPattern,
    {
        match WhisperCppNormalizer::new() {
            Ok(n) => Ok(Normalizer::WhisperCpp(n)),
            Err(e) => Err(e),
        }
    }
}

/// The backend that the configuration chose.
#[derive(Debug, PartialEq, Eq)]
pub enum Transcriber {
    Groq(GroqProvider),
    Parakeet(ParakeetProvider),
    WhisperCpp(WhisperCppProvider),
}

impl TranscriptionProvider for Transcriber {
    fn name(&self) -> (r: &'static str)
        ensures
            r@ == (match self {
                Transcriber::Groq(_) => "Groq Cloud"@,
                Transcriber::Parakeet(p) => model_label(p.model_type),
                Transcriber::WhisperCpp(_) => "whisper.cpp"@,
            }),
    {
        match self {
            Transcriber::Groq(p) => p.name(),
            Transcriber::Parakeet(p) => p.name(),
            Transcriber::WhisperCpp(p) => p.name(),
        }
    }

    fn normalizer(&self) -> (r: Result<Normalizer, NormalizerError>)
        ensures
            (r is Ok) == self.normalizer_can_be_made(),
            r matches Ok(n) ==> self.is_its_normalizer(n),
            r matches Err(e) ==> e == NormalizerError::InvalidPattern,
    {
        match self {
            Transcriber::Groq(p) => p.normalizer(),
            Transcriber::Parakeet(p) => p.normalizer(),
            Transcriber::WhisperCpp(p) => p.normalizer(),
        }
    }
}

impl Transcriber {
    /// Whether the normaliser of this backend can be made: always for the
    /// backends whose output is only trimmed, and for whisper.cpp if the
    /// regular expression engine accepts the pattern of the time stamps.
    pub open spec fn normalizer_can_be_made(self) -> bool {
        !(self is WhisperCpp) || crate::normalizer::regex_accepts(
            crate::normalizer::timestamp_pattern(),
        )
    }

    /// Whether `n` is the normaliser of this backend: the one of its kind,
    /// and for whisper.cpp the one that takes the time stamps out.
    pub open spec fn is_its_normalizer(self, n: Normalizer) -> bool {
        match self {
            Transcriber::Groq(_) => n is Groq,
            Transcriber::Parakeet(_) => n is Parakeet,
            Transcriber::WhisperCpp(_) => n matches Normalizer::WhisperCpp(w) && w.pattern()
                == crate::normalizer::timestamp_pattern(),
        }
    }

    /// What is wrong with this backend before any request, if anything: the
    /// Groq backend needs a key, and the two local ones need their program
    /// or their model on disk, of which `path_exists` tells.
    pub open spec fn fault(self, path_exists: bool) -> Option<Seq<char>> {
        match self {
            Transcriber::Groq(p) => if p.api_key@.len() > 0 {
                None
            } else {
                Some("Groq API key is not configured"@)
            },
            Transcriber::Parakeet(p) => if path_exists {
                None
            } else {
                Some("Parakeet model not found at "@ + quoted(p.model_path@))
            },
            Transcriber::WhisperCpp(p) => if path_exists {
                None
            } else {
                Some("whisper.cpp not found at "@ + quoted(p.command_path@))
            },
        }
    }

    /// The path whose existence decides whether this backend can be used,
    /// for a backend that runs on this machine.
    pub fn needed_path(&self) -> (r: Option<&str>)
        ensures
            match *self {
                Transcriber::Groq(_) => r is None,
                Transcriber::Parakeet(p) => r matches Some(path) && path@ == p.model_path@,
                Transcriber::WhisperCpp(p) => r matches Some(path) && path@ == p.command_path@,
            },
    {
        match self {
            Transcriber::Groq(_) => None,
            Transcriber::Parakeet(p) => Some(p.model_path.as_str()),
            Transcriber::WhisperCpp(p) => Some(p.command_path.as_str()),
        }
    }

    /// Checks that this backend can be used, where `path_exists` tells
    /// whether its program or model is on disk. A backend that cannot be
    /// used reports itself as unavailable.
    pub fn check_available(&self, path_exists: bool) -> (r: Result<(), TranscriptionError>)
        ensures
            match self.fault(path_exists) {
                None => r is Ok,
                Some(message) => r matches Err(e) && e.kind == TranscriptionErrorKind::Unavailable
                    && e.retry_after is None && e.message@ == message,
            },
    {
        let message = match self {
            Transcriber::Groq(p) => {
                if p.is_available() {
                    return Ok(());
                }
                "Groq API key is not configured".to_owned()
            },
            Transcriber::Parakeet(p) => {
                if path_exists {
                    return Ok(());
                }
                let place = quote(p.model_path.as_str());
                "Parakeet model not found at ".to_owned().concat(place.as_str())
            },
            Transcriber::WhisperCpp(p) => {
                if path_exists {
                    return Ok(());
                }
                let place = quote(p.command_path.as_str());
                "whisper.cpp not found at ".to_owned().concat(place.as_str())
            },
        };
        Err(
            TranscriptionError { kind: TranscriptionErrorKind::Unavailable, retry_after: None, message },
        )
    }
}

/// A backend together with its normaliser.
pub struct TranscriptionService {
    transcriber: Transcriber,
    normalizer: Normalizer,
}

impl TranscriptionService {
    /// The backend of this service.
    pub closed spec fn spec_transcriber(&self) -> Transcriber {
        self.transcriber
    }

    /// The normaliser of this service.
    pub closed spec fn spec_normalizer(&self) -> Normalizer {
        self.normalizer
    }

    /// The service for `transcriber`, with the normaliser of that backend.
    /// Fails if, and only if, the normaliser cannot be made, which the
    /// backends without a pattern never do.
    pub fn new(transcriber: Transcriber) -> (r: Result<Self, NormalizerError>)
        ensures
            (r is Ok) == transcriber.normalizer_can_be_made(),
            r matches Ok(service) ==> service.spec_transcriber() == transcriber
                && transcriber.is_its_normalizer(service.spec_normalizer()),
            r matches Err(e) ==> e == NormalizerError::InvalidPattern,
    {
        match transcriber.normalizer() {
            Ok(normalizer) => Ok(TranscriptionService { transcriber, normalizer }),
            Err(e) => Err(e),
        }
    }

    /// The backend of this service.
    pub fn transcriber(&self) -> (r: &Transcriber)
        ensures
            *r == self.spec_transcriber(),
    {
        &self.transcriber
    }

    /// The text that is delivered for the raw output `raw` of the backend.
    pub fn normalize(&self, raw: &str) -> (r: String)
        ensures
            r@ == self.spec_normalizer().normalized(raw@),
    {
        self.normalizer.normalize(raw)
    }
}

} // verus!
