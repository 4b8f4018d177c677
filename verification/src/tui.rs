//! The script browser's state: the scripts found, which one is selected,
//! and what the preview pane shows. Drawing and reading keys is the
//! caller's.

use vstd::prelude::*;

use crate::script::{opt_view, Script};
use crate::text::{dec, lit, push_str, push_u64};

verus! {

/// What the preview pane shows.
#[derive(Debug, Clone, Copy, PartialEq, Eq, Structural)]
pub enum PreviewMode {
    Text,
    Image,
    Video,
    NoPreview,
}

/// A key press, as far as the browser distinguishes keys.
#[derive(Debug, Clone, Copy, PartialEq, Eq, Structural)]
pub enum TuiKey {
    Char(char),
    Up,
    Down,
    Enter,
    Other,
}

pub struct TuiApp {
    pub scripts: Vec<Script>,
    pub selected_index: usize,
    pub preview_mode: PreviewMode,
    pub fuzzy_query: String,
}

/// The last index the selection can reach (0 for an empty list).
pub open spec fn last_index(n: nat) -> nat {
    if n == 0 {
        0
    } else {
        (n - 1) as nat
    }
}

impl TuiApp {
    /// The browser over the scripts found, first one selected, no preview.
    pub fn new(scripts: Vec<Script>) -> (a: TuiApp)
        ensures
            a.scripts@ == scripts@,
            a.selected_index == 0,
            a.preview_mode == PreviewMode::NoPreview,
            a.fuzzy_query@ == Seq::<char>::empty(),
    {
        TuiApp { scripts, selected_index: 0, preview_mode: PreviewMode::NoPreview, fuzzy_query: String::new() }
    }

    /// Up and Down move the selection within the list, Enter opens the
    /// image preview; other keys change nothing.
    pub fn handle_key(&mut self, key: TuiKey)
        ensures
            final(self).scripts@ == old(self).scripts@,
            final(self).fuzzy_query@ == old(self).fuzzy_query@,
            final(self).selected_index == match key {
                TuiKey::Up => if old(self).selected_index > 0 {
                    (old(self).selected_index - 1) as usize
                } else {
                    old(self).selected_index
                },
                TuiKey::Down => if old(self).selected_index < last_index(old(self).scripts@.len()) {
                    (old(self).selected_index + 1) as usize
                } else {
                    old(self).selected_index
                },
                _ => old(self).selected_index,
            },
            final(self).preview_mode == match key {
                TuiKey::Enter => PreviewMode::Image,
                _ => old(self).preview_mode,
            },
    {
        match key {
            TuiKey::Up => {
                if self.selected_index > 0 {
                    self.selected_index = self.selected_index - 1;
                }
            },
            TuiKey::Down => {
                let last = if self.scripts.len() == 0 {
                    0
                } else {
                    self.scripts.len() - 1
                };
                if self.selected_index < last {
                    self.selected_index = self.selected_index + 1;
                }
            },
            TuiKey::Enter => {
                self.preview_mode = PreviewMode::Image;
            },
            _ => {},
        }
    }

    /// Search results are refreshed at most every 100 ms.
    pub fn needs_refresh(elapsed_ms: u128) -> (r: bool)
        ensures
            r == (elapsed_ms > 100),
    {
        elapsed_ms > 100
    }

    /// The selected script, if the list is not empty.
    pub fn selected(&self) -> (r: Option<&Script>)
        ensures
            match r {
                Some(s) => self.selected_index < self.scripts@.len() && *s == self.scripts@[self.selected_index as int],
                None => self.selected_index >= self.scripts@.len(),
            },
    {
        if self.selected_index < self.scripts.len() {
            Some(&self.scripts[self.selected_index])
        } else {
            None
        }
    }
}

/// `N. title` (1-based; `Untitled` without a title).
pub open spec fn item_label_spec(i: nat, title: Option<Seq<char>>) -> Seq<char> {
    dec(i + 1) + ". "@ + match title {
        Some(t) => t,
        None => "Untitled"@,
    }
}

pub fn item_label(i: usize, script: &Script) -> (r: String)
    requires
        i < usize::MAX,
    ensures
        r@ == item_label_spec(i as nat, opt_view(script.title)),
{
    let mut s = String::new();
    push_u64(&mut s, (i + 1) as u64);
    push_str(&mut s, ". ");
    match &script.title {
        Some(t) => push_str(&mut s, t.as_str()),
        None => push_str(&mut s, "Untitled"),
    }
    s
}

/// The browser never selects past the end of its list: starting inside
/// it (or at 0 on an empty list), every key keeps it there.
pub proof fn law_selection_stays_in_list(n: nat, selected: nat, key: TuiKey)
    requires
        selected <= last_index(n),
    ensures
        (match key {
            TuiKey::Up => if selected > 0 {
                (selected - 1) as nat
            } else {
                selected
            },
            TuiKey::Down => if selected < last_index(n) {
                selected + 1
            } else {
                selected
            },
            _ => selected,
        }) <= last_index(n),
{
}

} // verus!
