//! The command line: what each command is to do, and the small texts that
//! the commands print.

use crate::text::{same_text, signed_decimal, to_signed_decimal, trim, trimmed};
use vstd::prelude::*;
use vstd::string::*;
use vstd::utf8::*;

verus! {

/// The arguments of the `history` command.
#[derive(Debug, PartialEq, Eq)]
pub struct HistoryCliArgs {
    /// Copy the record with this identifier to the clipboard.
    pub copy: Option<i64>,
    /// Show the records that hold this text.
    pub query: Option<String>,
    /// Show the records from this date on.
    pub from: Option<String>,
    /// Show the records up to this date.
    pub to: Option<String>,
    /// Show at most this many records.
    pub limit: usize,
}

/// What the `history` command is to do.
#[derive(Debug, PartialEq, Eq)]
pub enum HistoryTask {
    /// Copy the record with this identifier to the clipboard.
    CopyById(i64),
    /// Let the user pick one of the latest records.
    Interactive { limit: usize },
    /// List the records that pass the filters.
    Search { query: Option<String>, from: Option<String>, to: Option<String>, limit: usize },
}

/// Decides what the `history` command is to do: copy one record if an
/// identifier is given, whatever else is; else search if any filter is
/// given; else let the user pick.
pub fn handle_history_command(args: HistoryCliArgs) -> (r: HistoryTask)
    ensures
        match args.copy {
            Some(id) => r == HistoryTask::CopyById(id),
            None => if args.query is None && args.from is None && args.to is None {
                r == (HistoryTask::Interactive { limit: args.limit })
            } else {
                r == (HistoryTask::Search {
                    query: args.query,
                    from: args.from,
                    to: args.to,
                    limit: args.limit,
                })
            },
        },
{
    if let Some(id) = args.copy {
        return HistoryTask::CopyById(id);
    }
    let no_filters = args.query.is_none() && args.from.is_none() && args.to.is_none();
    if no_filters {
        HistoryTask::Interactive { limit: args.limit }
    } else {
        HistoryTask::Search { query: args.query, from: args.from, to: args.to, limit: args.limit }
    }
}

/// The subcommands of the `waybar` command.
#[derive(Debug, Clone, Copy, PartialEq, Eq, Structural)]
pub enum WaybarCommand {
    Install,
    Uninstall,
    Status,
}

/// The arguments of the `waybar` command.
#[derive(Debug, Clone, Copy, PartialEq, Eq, Structural)]
pub struct WaybarCliArgs {
    pub command: Option<WaybarCommand>,
}

/// Decides what the `waybar` command is to do: what its subcommand says,
/// and to show the status without one.
pub fn handle_waybar_command(args: WaybarCliArgs) -> (r: WaybarCommand)
    ensures
        r == (match args.command {
            Some(command) => command,
            None => WaybarCommand::Status,
        }),
{
    match args.command {
        Some(command) => command,
        None => WaybarCommand::Status,
    }
}

/// The three places where the configuration of Waybar is looked for under
/// the home directory `home`, in order.
pub fn waybar_config_candidates(home: &str) -> (r: Vec<String>)
    ensures
        r@.len() == 3,
        r@[0]@ == home@ + "/.config/waybar/config.jsonc"@,
        r@[1]@ == home@ + "/.config/waybar/config.json"@,
        r@[2]@ == home@ + "/.config/waybar/config"@,
{
    let mut candidates: Vec<String> = Vec::new();
    candidates.push(home.to_owned().concat("/.config/waybar/config.jsonc"));
    candidates.push(home.to_owned().concat("/.config/waybar/config.json"));
    candidates.push(home.to_owned().concat("/.config/waybar/config"));
    candidates
}

/// Checks the switches of the `update` command: automatic updates cannot be
/// switched on and off at once.
pub fn check_update_switches(enable: bool, disable: bool) -> (r: Result<(), String>)
    ensures
        !(enable && disable) ==> r is Ok,
        enable && disable ==> (r matches Err(message) && message@
            == "Cannot enable and disable auto-update at the same time"@),
{
    if enable && disable {
        Err("Cannot enable and disable auto-update at the same time".to_owned())
    } else {
        Ok(())
    }
}

/// The settings of the transcription in the configuration file.
#[derive(Debug, PartialEq, Eq)]
pub struct WhisperConfig {
    pub provider: Option<String>,
    pub model: Option<String>,
    pub language: Option<String>,
    pub api_key: Option<String>,
    pub api_endpoint: Option<String>,
    pub command_path: Option<String>,
    pub model_path: Option<String>,
}

/// The settings that a backend is set up with.
#[derive(Debug, PartialEq, Eq)]
pub struct ProviderConfig {
    pub model: Option<String>,
    pub model_path: Option<String>,
    pub language: Option<String>,
    pub command_path: Option<String>,
    pub api_endpoint: Option<String>,
    pub api_key: Option<String>,
}

fn copy_of(value: &Option<String>) -> (r: Option<String>)
    ensures
        r == *value,
{
    match value {
        Some(text) => Some(text.clone()),
        None => None,
    }
}

/// The settings of the backend as the configuration file holds them.
pub fn provider_config_from_whisper(whisper: &WhisperConfig) -> (r: ProviderConfig)
    ensures
        r.model == whisper.model,
        r.model_path == whisper.model_path,
        r.language == whisper.language,
        r.command_path == whisper.command_path,
        r.api_endpoint == whisper.api_endpoint,
        r.api_key == whisper.api_key,
{
    ProviderConfig {
        model: copy_of(&whisper.model),
        model_path: copy_of(&whisper.model_path),
        language: copy_of(&whisper.language),
        command_path: copy_of(&whisper.command_path),
        api_endpoint: copy_of(&whisper.api_endpoint),
        api_key: copy_of(&whisper.api_key),
    }
}

/// `value`, or `<not set>` where there is none.
pub fn display_value(value: &Option<String>) -> (r: String)
    ensures
        r@ == (match *value {
            Some(text) => text@,
            None => "<not set>"@,
        }),
{
    match value {
        Some(text) => text.clone(),
        None => "<not set>".to_owned(),
    }
}

/// Whether the secret `secret` can be masked: one of more than eight bytes
/// has to have a character end after its fourth byte and a character start
/// at its last but one.
pub open spec fn maskable(secret: Seq<char>) -> bool {
    let bytes = encode_utf8(secret);
    bytes.len() > 8 ==> is_char_boundary(bytes, 4) && is_char_boundary(bytes, bytes.len() - 2)
}

/// `count` asterisks.
pub open spec fn stars(count: nat) -> Seq<char> {
    Seq::new(count, |i: int| '*')
}

/// The secret `secret` as it is shown: of more than eight bytes the first
/// four and the last two with four asterisks between them, of a shorter one
/// an asterisk for each byte, and `<not set>` for an empty one.
pub open spec fn masked(secret: Seq<char>) -> Seq<char> {
    let bytes = encode_utf8(secret);
    if bytes.len() > 8 {
        decode_utf8(bytes.subrange(0, 4)) + "****"@ + decode_utf8(
            bytes.subrange(bytes.len() - 2, bytes.len() as int),
        )
    } else if bytes.len() > 0 {
        stars(bytes.len())
    } else {
        "<not set>"@
    }
}

/// The secret `value` as it is shown, and `<not set>` where there is none.
pub fn mask_secret(value: &Option<String>) -> (r: String)
    requires
        value matches Some(secret) ==> maskable(secret@),
    ensures
        r@ == (match *value {
            Some(secret) => masked(secret@),
            None => "<not set>"@,
        }),
{
    broadcast use encode_utf8_decode_utf8;

    match value {
        Some(secret) => {
            let s = secret.as_str();
            let n = s.as_bytes().len();
            if n > 8 {
                let (prefix, _) = s.split_at(4);
                let (_, suffix) = s.split_at(n - 2);
                assert(prefix@ == decode_utf8(prefix.spec_bytes()));
                assert(suffix@ == decode_utf8(suffix.spec_bytes()));
                prefix.to_owned().concat("****").concat(suffix)
            } else if n > 0 {
                let mut shown = String::new();
                let mut i: usize = 0;
                proof {
                    reveal_strlit("*");
                }
                while i < n
                    invariant
                        i <= n,
                        shown@ == stars(i as nat),
                        "*"@ == seq!['*'],
                    decreases n - i,
                {
                    shown.append("*");
                    assert(shown@ =~= stars((i + 1) as nat));
                    i += 1;
                }
                shown
            } else {
                "<not set>".to_owned()
            }
        },
        None => "<not set>".to_owned(),
    }
}

/// The backends that the configuration wizard offers.
#[derive(Debug, Clone, Copy, PartialEq, Eq, Structural)]
pub enum ProviderSelection {
    AudeticApi,
    OpenAiApi,
    OpenAiCli,
    WhisperCpp,
}

/// The name of `selection` in the configuration file.
pub open spec fn selection_name(selection: ProviderSelection) -> Seq<char> {
    match selection {
        ProviderSelection::AudeticApi => "audetic-api"@,
        ProviderSelection::OpenAiApi => "openai-api"@,
        ProviderSelection::OpenAiCli => "openai-cli"@,
        ProviderSelection::WhisperCpp => "whisper-cpp"@,
    }
}

/// The place of the backend named `name` in the list of the wizard, and the
/// first place for any other name.
pub open spec fn selection_index(name: Seq<char>) -> nat {
    if name == "openai-api"@ {
        1
    } else if name == "openai-cli"@ {
        2
    } else if name == "whisper-cpp"@ {
        3
    } else {
        0
    }
}

impl ProviderSelection {
    /// The name of this backend in the configuration file.
    pub fn as_str(&self) -> (r: &'static str)
        ensures
            r@ == selection_name(*self),
    {
        match self {
            ProviderSelection::AudeticApi => "audetic-api",
            ProviderSelection::OpenAiApi => "openai-api",
            ProviderSelection::OpenAiCli => "openai-cli",
            ProviderSelection::WhisperCpp => "whisper-cpp",
        }
    }

    /// The backend at place `index` of the list of the wizard. Every place
    /// behind the third stands for the last backend.
    pub fn from_index(index: usize) -> (r: Self)
        ensures
            r == (if index == 0 {
                ProviderSelection::AudeticApi
            } else if index == 1 {
                ProviderSelection::OpenAiApi
            } else if index == 2 {
                ProviderSelection::OpenAiCli
            } else {
                ProviderSelection::WhisperCpp
            }),
    {
        if index == 0 {
            ProviderSelection::AudeticApi
        } else if index == 1 {
            ProviderSelection::OpenAiApi
        } else if index == 2 {
            ProviderSelection::OpenAiCli
        } else {
            ProviderSelection::WhisperCpp
        }
    }

    /// The place at which the wizard starts, for the backend that is
    /// configured now.
    pub fn default_index(current: Option<&str>) -> (r: usize)
        ensures
            r == (match current {
                Some(name) => selection_index(name@),
                None => 0,
            }),
    {
        match current {
            Some(name) => {
                if same_text(name, "openai-api") {
                    1
                } else if same_text(name, "openai-cli") {
                    2
                } else if same_text(name, "whisper-cpp") {
                    3
                } else {
                    0
                }
            },
            None => 0,
        }
    }

    /// Whether this backend is reached over the network, with a key and an
    /// endpoint, and not run as a program.
    pub open spec fn is_remote(self) -> bool {
        self == ProviderSelection::AudeticApi || self == ProviderSelection::OpenAiApi
    }

    /// The endpoint that the wizard proposes, for a backend that has one.
    pub fn default_endpoint(&self) -> (r: Option<&'static str>)
        ensures
            match *self {
                ProviderSelection::AudeticApi => r matches Some(e) && e@
                    == "https://api.audetic.dev/v1/transcribe"@,
                ProviderSelection::OpenAiApi => r matches Some(e) && e@
                    == "https://api.openai.com/v1/audio/transcriptions"@,
                _ => r is None,
            },
    {
        match self {
            ProviderSelection::AudeticApi => Some("https://api.audetic.dev/v1/transcribe"),
            ProviderSelection::OpenAiApi => Some("https://api.openai.com/v1/audio/transcriptions"),
            _ => None,
        }
    }

    /// The model that the wizard proposes.
    pub fn default_model(&self) -> (r: &'static str)
        ensures
            r@ == (if *self == ProviderSelection::OpenAiApi {
                "whisper-1"@
            } else {
                "base"@
            }),
    {
        match self {
            ProviderSelection::OpenAiApi => "whisper-1",
            _ => "base",
        }
    }
}

impl WhisperConfig {
    /// Takes out the settings that the backend `selection` has no use for:
    /// the paths for a backend over the network, the key and the endpoint
    /// for a program, and for the whisper CLI the model path too.
    pub fn clear_unused(&mut self, selection: ProviderSelection)
        ensures
            final(self).provider == old(self).provider,
            final(self).model == old(self).model,
            final(self).language == old(self).language,
            final(self).api_key == (if selection.is_remote() {
                old(self).api_key
            } else {
                None
            }),
            final(self).api_endpoint == (if selection.is_remote() {
                old(self).api_endpoint
            } else {
                None
            }),
            final(self).command_path == (if selection.is_remote() {
                None
            } else {
                old(self).command_path
            }),
            final(self).model_path == (if selection == ProviderSelection::WhisperCpp {
                old(self).model_path
            } else {
                None
            }),
    {
        match selection {
            ProviderSelection::AudeticApi | ProviderSelection::OpenAiApi => {
                self.command_path = None;
                self.model_path = None;
            },
            ProviderSelection::OpenAiCli => {
                self.api_key = None;
                self.api_endpoint = None;
                self.model_path = None;
            },
            ProviderSelection::WhisperCpp => {
                self.api_key = None;
                self.api_endpoint = None;
            },
        }
    }
}

/// What an answer to a prompt stands for: the answer without the white
/// space around it, or `current` where nothing is left of it.
pub fn answer_or_default(answer: &str, current: &str) -> (r: String)
    ensures
        r@ == (if trimmed(answer@).len() == 0 {
            current@
        } else {
            trimmed(answer@)
        }),
{
    let given = trim(answer);
    if given.as_str().unicode_len() == 0 {
        current.to_owned()
    } else {
        given
    }
}

/// Whether `text` can be cut after `limit` bytes: a longer text has to
/// have a character end there.
pub open spec fn cuttable(text: Seq<char>, limit: nat) -> bool {
    encode_utf8(text).len() > limit ==> is_char_boundary(encode_utf8(text), limit as int)
}

/// `text` as a list shows it: whole if it has at most `limit` bytes, and
/// else its first `limit` bytes with three dots behind.
pub open spec fn preview_of(text: Seq<char>, limit: nat) -> Seq<char> {
    let bytes = encode_utf8(text);
    if bytes.len() > limit {
        decode_utf8(bytes.subrange(0, limit as int)) + "..."@
    } else {
        text
    }
}

/// `text` as a list shows it, cut after `limit` bytes.
pub fn preview(text: &str, limit: usize) -> (r: String)
    requires
        cuttable(text@, limit as nat),
    ensures
        r@ == preview_of(text@, limit as nat),
{
    broadcast use encode_utf8_decode_utf8;

    if text.as_bytes().len() > limit {
        let (head, _) = text.split_at(limit);
        assert(head@ == decode_utf8(head.spec_bytes()));
        head.to_owned().concat("...")
    } else {
        text.to_owned()
    }
}

/// The line of a record in the list that the user picks from: identifier,
/// date and the text cut after eighty bytes. A record without identifier
/// shows zero, and one without date shows `Unknown`.
pub open spec fn entry_of(id: Option<i64>, created_at: Option<Seq<char>>, text: Seq<char>) -> Seq<
    char,
> {
    "["@ + signed_decimal(
        match id {
            Some(n) => n as int,
            None => 0,
        },
    ) + "] "@ + (match created_at {
        Some(date) => date,
        None => "Unknown"@,
    }) + " - "@ + preview_of(text, 80)
}

/// The line of a record in the list that the user picks from.
pub fn history_entry(id: Option<i64>, created_at: Option<&str>, text: &str) -> (r: String)
    requires
        cuttable(text@, 80),
    ensures
        r@ == entry_of(
            id,
            match created_at {
                Some(date) => Some(date@),
                None => None,
            },
            text@,
        ),
{
    let number = to_signed_decimal(
        match id {
            Some(n) => n,
            None => 0,
        },
    );
    let date = match created_at {
        Some(date) => date,
        None => "Unknown",
    };
    let shown = preview(text, 80);
    "[".to_owned().concat(number.as_str()).concat("] ").concat(date).concat(" - ").concat(
        shown.as_str(),
    )
}

/// Tells whether `text` can be cut after `limit` bytes.
pub fn can_cut(text: &str, limit: usize) -> (r: bool)
    ensures
        r == cuttable(text@, limit as nat),
{
    text.as_bytes().len() <= limit || text.is_char_boundary(limit)
}

/// Tells whether the secret `secret` can be masked.
pub fn can_mask(secret: &str) -> (r: bool)
    ensures
        r == maskable(secret@),
{
    let n = secret.as_bytes().len();
    n <= 8 || (secret.is_char_boundary(4) && secret.is_char_boundary(n - 2))
}

} // verus!
