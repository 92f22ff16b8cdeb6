//! The configuration file of Waybar: how the module of the recorder is put
//! into it and taken out again. The file is handled as text, line by line
//! and brace by brace, and is not parsed.

use crate::text::{
    back_char, back_space, chars_of, contains, end_of_last, end_of_last_char, find_from, find_in,
    first_not_char, holds, index_of, last_non_space, last_not_char, lines_of, position_of_char,
    replace, replaced, skip_char, split_lines, trim_start, trimmed_start, views,
};
use vstd::prelude::*;
use vstd::string::*;

verus! {

/// Why the module could not be put into the configuration.
#[derive(Debug, Clone, Copy, PartialEq, Eq, Structural)]
pub enum WaybarError {
    /// No line lists the modules on the right or in the centre, or the file
    /// holds no closing brace.
    Unparsable,
}

impl WaybarError {
    /// The message of this failure.
    pub fn message(&self) -> (r: &'static str)
        ensures
            r@ == "Could not parse Waybar config. Please add manually."@,
    {
        "Could not parse Waybar config. Please add manually."
    }
}

/// The definition of the module, as it is written into the configuration.
pub open spec fn module_definition() -> Seq<char> {
    r#"
  "custom/wisprarch": {
    "exec": "while true; do curl -s 'http://127.0.0.1:3737/status?style=waybar' 2>/dev/null || echo '{\"text\":\"󰍬\",\"class\":\"wisprarch-offline\"}'; sleep 0.2; done",
    "exec-on-event": false,
    "return-type": "json",
    "on-click": "curl -X POST http://127.0.0.1:3737/toggle",
    "on-click-right": "curl -X POST http://127.0.0.1:3737/input-method/cycle",
    "tooltip": true
  }"#@
}

/// The definition of the module, as it is written into the configuration.
pub fn module_text() -> (r: &'static str)
    ensures
        r@ == module_definition(),
{
    r#"
  "custom/wisprarch": {
    "exec": "while true; do curl -s 'http://127.0.0.1:3737/status?style=waybar' 2>/dev/null || echo '{\"text\":\"󰍬\",\"class\":\"wisprarch-offline\"}'; sleep 0.2; done",
    "exec-on-event": false,
    "return-type": "json",
    "on-click": "curl -X POST http://127.0.0.1:3737/toggle",
    "on-click-right": "curl -X POST http://127.0.0.1:3737/input-method/cycle",
    "tooltip": true
  }"#
}

/// Whether the configuration `content` names the module.
pub fn is_installed(content: &str) -> (r: bool)
    ensures
        r == holds(content@, "custom/wisprarch"@),
{
    contains(content, "custom/wisprarch")
}

/// `line` with the module put first into the list that opens on it, if the
/// line lists the modules on the right or in the centre and holds an
/// opening bracket: the entry goes right behind the first bracket, and the
/// white space that stood there goes.
pub open spec fn line_with_entry(line: Seq<char>) -> Option<Seq<char>> {
    let bracket = index_of(line, '[', 0);
    if (holds(line, "\"modules-right\""@) || holds(line, "\"modules-center\""@)) && bracket
        < line.len() {
        Some(
            line.take(bracket + 1) + "\"custom/wisprarch\", "@ + trimmed_start(
                line.skip(bracket + 1),
            ),
        )
    } else {
        None
    }
}

/// Index of the first line from `i` on that takes the entry, or the number
/// of lines if none does.
pub open spec fn first_taking(lines: Seq<Seq<char>>, i: int) -> int
    decreases lines.len() - i,
{
    if 0 <= i < lines.len() && line_with_entry(lines[i]) is None {
        first_taking(lines, i + 1)
    } else {
        i
    }
}

/// `first_taking` answers with a line that takes the entry or with the
/// number of lines, and never goes back.
pub proof fn lemma_first_taking_bounds(lines: Seq<Seq<char>>, i: int)
    requires
        0 <= i <= lines.len(),
    ensures
        i <= first_taking(lines, i) <= lines.len(),
        first_taking(lines, i) < lines.len() ==> line_with_entry(
            lines[first_taking(lines, i)],
        ) is Some,
    decreases lines.len() - i,
{
    if i < lines.len() && line_with_entry(lines[i]) is None {
        lemma_first_taking_bounds(lines, i + 1);
    }
}

/// The lines with the entry put into the first line that takes it.
pub open spec fn lines_with_entry(lines: Seq<Seq<char>>) -> Seq<Seq<char>> {
    let k = first_taking(lines, 0);
    if 0 <= k < lines.len() {
        lines.update(k, line_with_entry(lines[k])->Some_0)
    } else {
        lines
    }
}

/// The lines with a line feed between each two.
pub open spec fn joined_lines(lines: Seq<Seq<char>>) -> Seq<char>
    decreases lines.len(),
{
    if lines.len() == 0 {
        Seq::empty()
    } else if lines.len() == 1 {
        lines[0]
    } else {
        joined_lines(lines.drop_last()) + "\n"@ + lines.last()
    }
}

/// `text` with the definition of the module put before its last closing
/// brace, if it has one. What stood behind that brace goes, and so do the
/// white space and the commas before it; one comma separates the definition
/// from what stands before.
pub open spec fn with_definition(text: Seq<char>) -> Option<Seq<char>> {
    let end = end_of_last(text, '}', text.len() as int);
    if end <= 0 {
        None
    } else {
        let kept = back_char(text, ',', back_space(text, 0, end - 1));
        Some(text.take(kept) + ","@ + module_definition() + "\n}\n"@)
    }
}

/// The configuration `content` with the module put in: its name into the
/// first list of modules on the right or in the centre, and its definition
/// before the last closing brace. There is no result if no line lists such
/// modules or no brace closes the file.
pub open spec fn injected(content: Seq<char>) -> Option<Seq<char>> {
    let lines = lines_of(content);
    if first_taking(lines, 0) >= lines.len() {
        None
    } else {
        with_definition(joined_lines(lines_with_entry(lines)))
    }
}

fn inject_line(line: &str) -> (r: Option<String>)
    ensures
        match r {
            Some(changed) => line_with_entry(line@) == Some(changed@),
            None => line_with_entry(line@) is None,
        },
{
    if !(contains(line, "\"modules-right\"") || contains(line, "\"modules-center\"")) {
        return None;
    }
    let v = chars_of(line);
    let bracket = position_of_char(&v, '[', 0);
    if bracket >= v.len() {
        return None;
    }
    let before = line.substring_char(0, bracket + 1);
    let after = trim_start(line.substring_char(bracket + 1, v.len()));
    Some(before.to_owned().concat("\"custom/wisprarch\", ").concat(after.as_str()))
}

/// Puts the module into the configuration `content`.
pub fn inject_module(content: &str) -> (r: Result<String, WaybarError>)
    ensures
        match r {
            Ok(text) => injected(content@) == Some(text@),
            Err(_) => injected(content@) is None,
        },
{
    let lines = split_lines(content);
    let ghost given = lines_of(content@);
    let ghost target = lines_with_entry(given);
    let mut joined = String::new();
    let mut added = false;
    let mut i: usize = 0;
    assert(target.take(0) =~= Seq::<Seq<char>>::empty());
    while i < lines.len()
        invariant
            i <= lines@.len(),
            views(lines@) == given,
            target == lines_with_entry(given),
            added ==> first_taking(given, 0) < i,
            !added ==> first_taking(given, 0) == first_taking(given, i as int),
            joined@ == joined_lines(target.take(i as int)),
        decreases lines@.len() - i,
    {
        assert(given[i as int] == lines@[i as int]@);
        if i > 0 {
            joined.append("\n");
        }
        let changed = if added {
            None
        } else {
            inject_line(lines[i].as_str())
        };
        proof {
            assert(target.take(i + 1).drop_last() =~= target.take(i as int));
            assert(target.take(i + 1).last() == target[i as int]);
        }
        let ghost k = first_taking(given, 0);
        let ghost head = joined@;
        match changed {
            Some(line) => {
                assert(k == i);
                assert(target[i as int] == line@);
                added = true;
                joined.append(line.as_str());
            },
            None => {
                if !added {
                    proof {
                        lemma_first_taking_bounds(given, i + 1);
                    }
                }
                assert(k != i);
                assert(target[i as int] == given[i as int]);
                joined.append(lines[i].as_str());
            },
        }
        proof {
            let part = target.take(i + 1);
            if i == 0 {
                assert(part.len() == 1);
                assert(joined_lines(target.take(0)) =~= Seq::<char>::empty());
                assert(joined@ =~= part[0]);
            } else {
                assert(part.len() > 1);
                assert(joined@ =~= joined_lines(part.drop_last()) + "\n"@ + part.last());
            }
        }
        assert(joined@ =~= joined_lines(target.take(i + 1)));
        i += 1;
    }
    assert(target.take(i as int) =~= target);
    let text = chars_of(joined.as_str());
    let end = end_of_last_char(&text, '}', text.len());
    if !added || end == 0 {
        return Err(WaybarError::Unparsable);
    }
    let kept = last_not_char(&text, ',', last_non_space(&text, 0, end - 1));
    Ok(
        joined.as_str().substring_char(0, kept).to_owned().concat(",").concat(
            module_text(),
        ).concat("\n}\n"),
    )
}

/// Index of the first closing brace at or after `i` that closes the block
/// which the first opening brace opened. The depth goes up by one with each
/// opening brace and down by one with each closing one, from `depth` on;
/// the brace that takes it from one to zero is the one.
pub open spec fn closing_brace(s: Seq<char>, i: int, depth: int) -> Option<int>
    decreases s.len() - i,
{
    if i < 0 || i >= s.len() {
        None
    } else if s[i] == '{' {
        closing_brace(s, i + 1, depth + 1)
    } else if s[i] == '}' {
        if depth == 1 {
            Some(i)
        } else {
            closing_brace(s, i + 1, depth - 1)
        }
    } else {
        closing_brace(s, i + 1, depth)
    }
}

/// `content` without the name of the module in the lists: with a comma
/// behind it, else with one before it, else alone.
pub open spec fn without_entries(content: Seq<char>) -> Seq<char> {
    replaced(
        replaced(
            replaced(content, "\"custom/wisprarch\","@, Seq::empty()),
            ",\"custom/wisprarch\""@,
            Seq::empty(),
        ),
        "\"custom/wisprarch\""@,
        Seq::empty(),
    )
}

/// The configuration `content` with the module taken out: its name out of
/// the lists, and its definition, from its name to the brace that closes
/// it, together with the commas and the white space before it and the
/// commas behind it. A definition that no brace closes stays.
pub open spec fn removed(content: Seq<char>) -> Seq<char> {
    let text = without_entries(content);
    match find_from(text, "\"custom/wisprarch\":"@, 0) {
        Some(start) => match closing_brace(text, start, 0) {
            Some(close) => text.take(back_space(text, 0, back_char(text, ',', start)))
                + text.skip(skip_char(text, ',', close + 1)),
            None => text,
        },
        None => text,
    }
}

fn find_closing_brace(text: &Vec<char>, start: usize) -> (r: Option<usize>)
    requires
        start <= text.len(),
    ensures
        match r {
            Some(close) => closing_brace(text@, start as int, 0) == Some(close as int) && start
                <= close < text.len(),
            None => closing_brace(text@, start as int, 0) is None,
        },
{
    let mut opened: usize = 0;
    let mut closed: usize = 0;
    let mut i: usize = start;
    while i < text.len()
        invariant
            start <= i <= text.len(),
            opened <= i - start,
            closed <= i - start,
            closing_brace(text@, start as int, 0) == closing_brace(
                text@,
                i as int,
                opened - closed,
            ),
        decreases text.len() - i,
    {
        let c = text[i];
        if c == '{' {
            opened += 1;
        } else if c == '}' {
            if closed < opened && opened - closed == 1 {
                return Some(i);
            }
            closed += 1;
        }
        i += 1;
    }
    None
}

/// Takes the module out of the configuration `content`.
pub fn remove_module(content: &str) -> (r: String)
    ensures
        r@ == removed(content@),
{
    proof {
        reveal_strlit("\"custom/wisprarch\",");
        reveal_strlit(",\"custom/wisprarch\"");
        reveal_strlit("\"custom/wisprarch\"");
        reveal_strlit("");
    }
    assert(""@ =~= Seq::<char>::empty());
    let first = replace(content, "\"custom/wisprarch\",", "");
    let second = replace(first.as_str(), ",\"custom/wisprarch\"", "");
    let result = replace(second.as_str(), "\"custom/wisprarch\"", "");
    let text = chars_of(result.as_str());
    let marker = chars_of("\"custom/wisprarch\":");
    let start = match find_in(&text, &marker, 0) {
        Some(start) => start,
        None => {
            return result;
        },
    };
    proof {
        crate::text::lemma_find_from(text@, marker@, 0);
    }
    let close = match find_closing_brace(&text, start) {
        Some(close) => close,
        None => {
            return result;
        },
    };
    let kept = last_non_space(&text, 0, last_not_char(&text, ',', start));
    let resumed = first_not_char(&text, ',', close + 1);
    result.as_str().substring_char(0, kept).to_owned().concat(
        result.as_str().substring_char(resumed, text.len()),
    )
}

} // verus!
