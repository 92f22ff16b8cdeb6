//! The terminal interface: its colours and the selection in its list.

use crate::text::{contains, holds, last_word, last_word_of, parse_u32, parsed_u32};
use vstd::prelude::*;

verus! {

/// Which colours to use.
#[derive(Clone, Copy, PartialEq, Eq, Debug, Structural)]
pub enum ThemeMode {
    Dark,
    Light,
    System,
}

/// A colour by its red, green and blue part.
#[derive(Clone, Copy, PartialEq, Eq, Debug, Structural)]
pub struct Rgb(pub u8, pub u8, pub u8);

/// The colours of the interface.
#[derive(Clone, Copy, PartialEq, Eq, Debug, Structural)]
pub struct Theme {
    pub bg: Rgb,
    pub fg: Rgb,
    pub accent: Rgb,
    pub success: Rgb,
    pub warning: Rgb,
    pub error: Rgb,
    pub border: Rgb,
    pub selection: Rgb,
    pub muted: Rgb,
}

impl Theme {
    /// The dark colours.
    pub open spec fn mocha() -> Theme {
        Theme {
            bg: Rgb(30, 30, 46),
            fg: Rgb(205, 214, 244),
            accent: Rgb(137, 180, 250),
            success: Rgb(166, 227, 161),
            warning: Rgb(249, 226, 175),
            error: Rgb(243, 139, 168),
            border: Rgb(69, 71, 90),
            selection: Rgb(49, 50, 68),
            muted: Rgb(166, 173, 200),
        }
    }

    /// The light colours.
    pub open spec fn latte() -> Theme {
        Theme {
            bg: Rgb(239, 241, 245),
            fg: Rgb(76, 79, 105),
            accent: Rgb(30, 102, 245),
            success: Rgb(64, 160, 43),
            warning: Rgb(223, 142, 29),
            error: Rgb(210, 15, 57),
            border: Rgb(172, 176, 190),
            selection: Rgb(204, 208, 218),
            muted: Rgb(140, 143, 161),
        }
    }

    /// The dark colours.
    pub fn catppuccin_mocha() -> (r: Self)
        ensures
            r == Theme::mocha(),
    {
        Theme {
            bg: Rgb(30, 30, 46),
            fg: Rgb(205, 214, 244),
            accent: Rgb(137, 180, 250),
            success: Rgb(166, 227, 161),
            warning: Rgb(249, 226, 175),
            error: Rgb(243, 139, 168),
            border: Rgb(69, 71, 90),
            selection: Rgb(49, 50, 68),
            muted: Rgb(166, 173, 200),
        }
    }

    /// The light colours.
    pub fn catppuccin_latte() -> (r: Self)
        ensures
            r == Theme::latte(),
    {
        Theme {
            bg: Rgb(239, 241, 245),
            fg: Rgb(76, 79, 105),
            accent: Rgb(30, 102, 245),
            success: Rgb(64, 160, 43),
            warning: Rgb(223, 142, 29),
            error: Rgb(210, 15, 57),
            border: Rgb(172, 176, 190),
            selection: Rgb(204, 208, 218),
            muted: Rgb(140, 143, 161),
        }
    }

    /// The colours for `mode`, where `system_is_dark` tells what the system
    /// is set to.
    pub fn from_mode(mode: ThemeMode, system_is_dark: bool) -> (r: Self)
        ensures
            r == (if mode == ThemeMode::Dark || (mode == ThemeMode::System && system_is_dark) {
                Theme::mocha()
            } else {
                Theme::latte()
            }),
    {
        match mode {
            ThemeMode::Dark => Theme::catppuccin_mocha(),
            ThemeMode::Light => Theme::catppuccin_latte(),
            ThemeMode::System => {
                if system_is_dark {
                    Theme::catppuccin_mocha()
                } else {
                    Theme::catppuccin_latte()
                }
            },
        }
    }
}

/// Whether the system is dark, from what its two settings say: the first
/// that answers decides, and without an answer it is dark.
pub fn system_is_dark(portal: Option<bool>, gsettings: Option<bool>) -> (r: bool)
    ensures
        r == (match portal {
            Some(dark) => dark,
            None => match gsettings {
                Some(dark) => dark,
                None => true,
            },
        }),
{
    match portal {
        Some(dark) => dark,
        None => match gsettings {
            Some(dark) => dark,
            None => true,
        },
    }
}

/// The entries of the list that are no models: the two cloud providers.
pub const EXTRA_ENTRIES: usize = 2;

/// The selection in the list of models and providers.
#[derive(Clone, Copy, PartialEq, Eq, Debug, Structural)]
pub struct Selection {
    pub selected_index: usize,
    /// Number of entries in the list.
    pub len: usize,
}

impl Selection {
    /// Whether the selection points at an entry of the list.
    pub open spec fn wf(self) -> bool {
        self.selected_index < self.len
    }

    /// The selection of the first entry of a list of `models` models and the
    /// extra entries.
    pub fn new(models: usize) -> (r: Self)
        requires
            models + EXTRA_ENTRIES <= usize::MAX,
        ensures
            r.wf(),
            r.selected_index == 0,
            r.len == models + EXTRA_ENTRIES,
    {
        Selection { selected_index: 0, len: models + EXTRA_ENTRIES }
    }

    /// Moves the selection down by one, and from the last entry to the first.
    pub fn next(&mut self)
        requires
            old(self).wf(),
        ensures
            final(self).wf(),
            final(self).len == old(self).len,
            final(self).selected_index == (old(self).selected_index + 1) % (old(self).len as int),
    {
        proof {
            if self.selected_index + 1 == self.len {
                assert((self.selected_index + 1) % (self.len as int) == 0);
            } else {
                vstd::arithmetic::div_mod::lemma_small_mod(
                    (self.selected_index + 1) as nat,
                    self.len as nat,
                );
            }
        }
        self.selected_index = if self.selected_index + 1 == self.len {
            0
        } else {
            self.selected_index + 1
        };
    }

    /// Moves the selection up by one, and from the first entry to the last.
    pub fn previous(&mut self)
        requires
            old(self).wf(),
        ensures
            final(self).wf(),
            final(self).len == old(self).len,
            final(self).selected_index == (if old(self).selected_index == 0 {
                old(self).len - 1
            } else {
                old(self).selected_index - 1
            }),
    {
        self.selected_index = if self.selected_index == 0 {
            self.len - 1
        } else {
            self.selected_index - 1
        };
    }
}

/// Moving down and then up, or up and then down, leaves the selection
/// where it was.
pub proof fn law_next_previous_cancel(index: int, len: int)
    requires
        0 <= index < len,
    ensures
        ({
            let down = (index + 1) % len;
            (if down == 0 {
                len - 1
            } else {
                down - 1
            }) == index
        }),
        ({
            let up = if index == 0 {
                len - 1
            } else {
                index - 1
            };
            (up + 1) % len == index
        }),
{
    if index + 1 == len {
        assert((index + 1) % len == 0);
    } else {
        vstd::arithmetic::div_mod::lemma_small_mod((index + 1) as nat, len as nat);
    }
    if index == 0 {
        assert(len % len == 0);
    } else {
        vstd::arithmetic::div_mod::lemma_small_mod(index as nat, len as nat);
    }
}

/// What the answer `printed` of the settings portal says: dark if its last
/// word is the number one, not dark if it is another number, and nothing if
/// it is no number.
pub open spec fn portal_answer(printed: Seq<char>) -> Option<bool> {
    match parsed_u32(last_word(printed)) {
        Some(scheme) => Some(scheme == 1),
        None => None,
    }
}

/// What the answer `printed` of the settings portal says.
pub fn portal_says_dark(printed: &str) -> (r: Option<bool>)
    ensures
        r == portal_answer(printed@),
{
    match last_word_of(printed) {
        Some(word) => match parse_u32(word.as_str()) {
            Some(scheme) => Some(scheme == 1),
            None => None,
        },
        None => {
            assert(parsed_u32(last_word(printed@)) is None);
            None
        },
    }
}

/// What the answer `printed` of `gsettings` says: dark if it holds the word.
pub fn gsettings_says_dark(printed: &str) -> (r: bool)
    ensures
        r == holds(printed@, "dark"@),
{
    contains(printed, "dark")
}

} // verus!
