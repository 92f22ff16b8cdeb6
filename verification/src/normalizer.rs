//! Normalisers: what each transcription backend does to its raw output
//! before the text is delivered.

use crate::text::{lines_of, split_lines, trim, trimmed, views};
use regex::Regex;
use vstd::prelude::*;
use vstd::string::*;

verus! {

/// `regex::Regex`, a compiled regular expression. Nothing of its inside is
/// known here.
#[verifier::external_type_specification]
#[verifier::external_body]
pub struct ExRegex(Regex);

/// `regex::Error`, the failure of a compilation. Nothing of its inside is
/// known here.
#[verifier::external_type_specification]
#[verifier::external_body]
pub struct ExRegexError(regex::Error);

/// The pattern that `re` was compiled from: what `Regex::as_str` returns.
pub uninterp spec fn regex_source(re: Regex) -> Seq<char>;

/// What `Regex::replace_all` returns for a regular expression compiled from
/// `pattern`: `haystack` with every match, taken from the left and without
/// overlap, replaced by what `replacement` expands to. A replacement
/// without a dollar sign expands to itself.
pub uninterp spec fn regex_replace_all(
    pattern: Seq<char>,
    haystack: Seq<char>,
    replacement: Seq<char>,
) -> Seq<char>;

/// Whether `Regex::new` returns a regular expression for `pattern`: it does
/// for a pattern whose syntax is right and whose automaton stays within the
/// size limit that the regex crate sets.
pub uninterp spec fn regex_accepts(pattern: Seq<char>) -> bool;

/// Calls `Regex::new`. Not proved: that whether a regular expression comes
/// back is what `regex_accepts` names, a matter of the pattern alone, and
/// that one which comes back remembers `pattern` as the string it was
/// compiled from.
#[verifier::external_body]
fn compile(pattern: &str) -> (r: Result<Regex, regex::Error>)
    ensures
        (r is Ok) == regex_accepts(pattern@),
        r matches Ok(re) ==> regex_source(re) == pattern@,
{
    Regex::new(pattern)
}

/// Calls `Regex::replace_all`. Not proved: that the result is the one that
/// `regex_replace_all` names, a function of the pattern, the haystack and
/// the replacement alone. That holds of a regular expression that
/// `Regex::new` made, as `compile` does; this library holds no other.
#[verifier::external_body]
fn replace_all(re: &Regex, haystack: &str, replacement: &str) -> (r: String)
    ensures
        r@ == regex_replace_all(regex_source(*re), haystack@, replacement@),
{
    re.replace_all(haystack, replacement).into_owned()
}

/// Normalises the raw output of a transcription backend.
pub trait TranscriptionNormalizer {
    /// The text that is delivered for `raw_output`.
    fn normalize(&self, raw_output: &str) -> String;

    /// The name of the normaliser.
    fn name(&self) -> &'static str;
}

/// Why a normaliser could not be made.
#[derive(Clone, Copy, Debug, PartialEq, Eq, Structural)]
pub enum NormalizerError {
    /// The pattern of the time stamps did not compile.
    InvalidPattern,
}

/// `acc` with the trimmed `piece` behind it, after one space if `acc` holds
/// text already. A piece of white space alone adds nothing.
pub open spec fn with_piece(acc: Seq<char>, piece: Seq<char>) -> Seq<char> {
    let t = trimmed(piece);
    if t.len() == 0 {
        acc
    } else if acc.len() == 0 {
        t
    } else {
        acc + " "@ + t
    }
}

/// `acc` with the pieces from index `i` on behind it, each as `with_piece`
/// adds it.
pub open spec fn with_pieces(acc: Seq<char>, pieces: Seq<Seq<char>>, i: int) -> Seq<char>
    decreases pieces.len() - i,
{
    if 0 <= i < pieces.len() {
        with_pieces(with_piece(acc, pieces[i]), pieces, i + 1)
    } else {
        acc
    }
}

/// The pieces, each trimmed, those that are left empty dropped, and the rest
/// joined by single spaces.
pub open spec fn joined(pieces: Seq<Seq<char>>) -> Seq<char> {
    trimmed(with_pieces(Seq::empty(), pieces, 0))
}

/// Each line of `raw` with the matches of `pattern` taken out.
pub open spec fn stripped_lines(pattern: Seq<char>, raw: Seq<char>) -> Seq<Seq<char>> {
    lines_of(raw).map_values(|line: Seq<char>| regex_replace_all(pattern, line, ""@))
}

/// The pieces, each trimmed, those that are left empty dropped, and the rest
/// joined by single spaces.
pub fn join_cleaned(pieces: &Vec<String>) -> (r: String)
    ensures
        r@ == joined(views(pieces@)),
{
    let mut cleaned = String::new();
    let mut i: usize = 0;
    while i < pieces.len()
        invariant
            i <= pieces@.len(),
            with_pieces(Seq::empty(), views(pieces@), 0) == with_pieces(
                cleaned@,
                views(pieces@),
                i as int,
            ),
        decreases pieces@.len() - i,
    {
        let piece = trim(pieces[i].as_str());
        assert(views(pieces@)[i as int] == pieces@[i as int]@);
        if piece.as_str().unicode_len() != 0 {
            if cleaned.as_str().unicode_len() != 0 {
                cleaned.append(" ");
            }
            cleaned.append(piece.as_str());
        }
        i += 1;
    }
    trim(cleaned.as_str())
}

/// The pattern of a time stamp as whisper.cpp prints it in front of a line:
/// two times in square brackets with an arrow between them, and the white
/// space behind.
pub open spec fn timestamp_pattern() -> Seq<char> {
    r"\[\d{2}:\d{2}:\d{2}[:.]\d{3}\s*-->\s*\d{2}:\d{2}:\d{2}[:.]\d{3}\]\s*"@
}

/// Normaliser for the output of the Groq API, which is clean but for white
/// space around it.
pub struct GroqNormalizer;

impl GroqNormalizer {
    /// The normaliser.
    pub fn new() -> Self {
        GroqNormalizer
    }
}

impl TranscriptionNormalizer for GroqNormalizer {
    fn normalize(&self, raw_output: &str) -> (r: String)
        ensures
            r@ == trimmed(raw_output@),
    {
        trim(raw_output)
    }

    fn name(&self) -> (r: &'static str)
        ensures
            r@ == "GroqNormalizer"@,
    {
        "GroqNormalizer"
    }
}

/// Normaliser for the output of Parakeet, which is clean but for white space
/// around it.
pub struct ParakeetNormalizer;

impl ParakeetNormalizer {
    /// The normaliser.
    pub fn new() -> Self {
        ParakeetNormalizer
    }
}

impl TranscriptionNormalizer for ParakeetNormalizer {
    fn normalize(&self, raw_output: &str) -> (r: String)
        ensures
            r@ == trimmed(raw_output@),
    {
        trim(raw_output)
    }

    fn name(&self) -> (r: &'static str)
        ensures
            r@ == "ParakeetNormalizer"@,
    {
        "ParakeetNormalizer"
    }
}

/// Normaliser for the output of whisper.cpp: takes the time stamps out of
/// each line and joins what is left of the lines by single spaces.
pub struct WhisperCppNormalizer {
    timestamp_regex: Regex,
}

impl WhisperCppNormalizer {
    /// The pattern that this normaliser takes out of each line.
    pub closed spec fn pattern(&self) -> Seq<char> {
        regex_source(self.timestamp_regex)
    }

    /// A normaliser that takes out what matches `pattern`. Fails if, and
    /// only if, the regular expression engine refuses the pattern.
    pub fn with_pattern(pattern: &str) -> (r: Result<Self, NormalizerError>)
        ensures
            (r is Ok) == regex_accepts(pattern@),
            r matches Ok(n) ==> n.pattern() == pattern@,
            r matches Err(e) ==> e == NormalizerError::InvalidPattern,
    {
        match compile(pattern) {
            Ok(timestamp_regex) => Ok(WhisperCppNormalizer { timestamp_regex }),
            Err(_) => Err(NormalizerError::InvalidPattern),
        }
    }

    /// A normaliser that takes out what matches `timestamp_pattern`. Fails
    /// if, and only if, the regular expression engine refuses the pattern.
    pub fn new() -> (r: Result<Self, NormalizerError>)
        ensures
            (r is Ok) == regex_accepts(timestamp_pattern()),
            r matches Ok(n) ==> n.pattern() == timestamp_pattern(),
            r matches Err(e) ==> e == NormalizerError::InvalidPattern,
    {
        WhisperCppNormalizer::with_pattern(
            r"\[\d{2}:\d{2}:\d{2}[:.]\d{3}\s*-->\s*\d{2}:\d{2}:\d{2}[:.]\d{3}\]\s*",
        )
    }
}

impl TranscriptionNormalizer for WhisperCppNormalizer {
    fn normalize(&self, raw_output: &str) -> (r: String)
        ensures
            r@ == joined(stripped_lines(self.pattern(), raw_output@)),
    {
        let lines = split_lines(raw_output);
        let mut stripped: Vec<String> = Vec::new();
        let mut i: usize = 0;
        while i < lines.len()
            invariant
                i <= lines@.len(),
                views(lines@) == lines_of(raw_output@),
                stripped@.len() == i,
                forall|k: int|
                    0 <= k < i ==> (#[trigger] stripped@[k])@ == regex_replace_all(
                        self.pattern(),
                        lines@[k]@,
                        ""@,
                    ),
            decreases lines@.len() - i,
        {
            stripped.push(replace_all(&self.timestamp_regex, lines[i].as_str(), ""));
            i += 1;
        }
        assert(views(stripped@) =~= stripped_lines(self.pattern(), raw_output@)) by {
            assert forall|k: int| 0 <= k < stripped@.len() implies views(stripped@)[k]
                == stripped_lines(self.pattern(), raw_output@)[k] by {
                assert(views(lines@)[k] == lines@[k]@);
            }
        }
        join_cleaned(&stripped)
    }

    fn name(&self) -> (r: &'static str)
        ensures
            r@ == "WhisperCppNormalizer"@,
    {
        "WhisperCppNormalizer"
    }
}

/// The normaliser of one of the backends.
pub enum Normalizer {
    Groq(GroqNormalizer),
    Parakeet(ParakeetNormalizer),
    WhisperCpp(WhisperCppNormalizer),
}

impl Normalizer {
    /// The text that this normaliser delivers for `raw`.
    pub open spec fn normalized(&self, raw: Seq<char>) -> Seq<char> {
        match self {
            Normalizer::WhisperCpp(n) => joined(stripped_lines(n.pattern(), raw)),
            _ => trimmed(raw),
        }
    }
}

impl TranscriptionNormalizer for Normalizer {
    fn normalize(&self, raw_output: &str) -> (r: String)
        ensures
            r@ == self.normalized(raw_output@),
    {
        match self {
            Normalizer::Groq(n) => n.normalize(raw_output),
            Normalizer::Parakeet(n) => n.normalize(raw_output),
            Normalizer::WhisperCpp(n) => n.normalize(raw_output),
        }
    }

    fn name(&self) -> (r: &'static str)
        ensures
            r@ == (match self {
                Normalizer::Groq(_) => "GroqNormalizer"@,
                Normalizer::Parakeet(_) => "ParakeetNormalizer"@,
                Normalizer::WhisperCpp(_) => "WhisperCppNormalizer"@,
            }),
    {
        match self {
            Normalizer::Groq(n) => n.name(),
            Normalizer::Parakeet(n) => n.name(),
            Normalizer::WhisperCpp(n) => n.name(),
        }
    }
}

} // verus!
