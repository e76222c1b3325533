//! The input line with a completion menu: when the menu shows, which item
//! is selected, what Tab, the arrows and the other keys do, and the
//! suggestion shown after the input.
use crate::completion::CompletionItem;
use crate::nav::{next_index, prev_index, wrap_next, wrap_prev};
use vstd::prelude::*;
use vstd::utf8::encode_utf8;

verus! {

/// A key as the input line sees it.
#[derive(Clone, Copy, PartialEq, Eq, Debug, Structural)]
pub enum MenuKey {
    Esc,
    Enter,
    Up,
    Down,
    Right,
    Tab,
    Char(char),
    Other,
}

/// What to do to the input's text area.
#[derive(Debug, PartialEq, Eq)]
pub enum MenuEdit {
    Keep,
    CancelSelection,
    SelectAll,
    Undo,
    Redo,
    /// Insert the text at the cursor.
    InsertStr(String),
    /// Move the cursor one character forward.
    MoveForward,
    /// Select the characters from the first position up to the second
    /// (one character at a time, none where the second is not after the
    /// first) and type the text over them.
    ReplaceRange(isize, isize, String),
    /// Hand the key to the text area, then report with `input_applied`
    /// whether it changed anything.
    Input,
}

/// The input line's menu state, apart from the text area and what only
/// draws it.
#[derive(Debug)]
pub struct CompletableTextArea {
    pub auto_suggestion: String,
    pub show_menu: bool,
    pub selected: Option<usize>,
    pub completion_items: Vec<CompletionItem>,
    pub raw_input: String,
    pub segment: String,
}

/// The part of the suggestion beyond the first `n` characters.
pub open spec fn skip_chars(s: Seq<char>, n: nat) -> Seq<char> {
    if n >= s.len() {
        seq![]
    } else {
        s.skip(n as int)
    }
}

/// The edit in a numbering of its own: 0 keep, 1 cancel selection,
/// 2 select all, 3 undo, 4 redo, 5 insert, 6 move forward, 7 input.
pub open spec fn menu_edit_code(e: MenuEdit) -> (int, Seq<char>) {
    match e {
        MenuEdit::Keep => (0, seq![]),
        MenuEdit::CancelSelection => (1, seq![]),
        MenuEdit::SelectAll => (2, seq![]),
        MenuEdit::Undo => (3, seq![]),
        MenuEdit::Redo => (4, seq![]),
        MenuEdit::InsertStr(s) => (5, s@),
        MenuEdit::MoveForward => (6, seq![]),
        MenuEdit::Input => (7, seq![]),
        MenuEdit::ReplaceRange(_, _, s) => (8, s@),
    }
}

impl CompletableTextArea {
    /// An input with no menu shown, no items and no suggestion.
    pub fn new() -> (r: CompletableTextArea)
        ensures
            !r.show_menu,
            r.selected == Some(0usize),
            r.completion_items@.len() == 0,
            r.auto_suggestion@.len() == 0,
            r.raw_input@.len() == 0,
            r.segment@.len() == 0,
    {
        CompletableTextArea {
            auto_suggestion: String::new(),
            show_menu: false,
            selected: Some(0),
            completion_items: Vec::new(),
            raw_input: String::new(),
            segment: String::new(),
        }
    }

    /// Sets the suggestion shown after the input.
    pub fn set_auto_suggestion(&mut self, s: String)
        ensures
            final(self).auto_suggestion@ == s@,
            final(self).show_menu == old(self).show_menu,
            final(self).selected == old(self).selected,
            final(self).completion_items@ == old(self).completion_items@,
            final(self).segment@ == old(self).segment@,
            final(self).raw_input@ == old(self).raw_input@,
    {
        self.auto_suggestion = s;
    }

    /// The input's length in bytes, and the rest of the suggestion beyond
    /// as many characters.
    pub fn get_auto_suggestion(&self, input: &str) -> (r: (usize, String))
        ensures
            r.0 == encode_utf8(input@).len() as usize,
            r.1@ == skip_chars(self.auto_suggestion@, r.0 as nat),
    {
        let len = input.len();
        let chars = crate::text::to_chars(self.auto_suggestion.as_str());
        let mut out: Vec<char> = Vec::new();
        let mut i = len;
        proof {
            if len < chars@.len() {
                assert(chars@.subrange(len as int, len as int) =~= seq![]);
            }
        }
        while i < chars.len()
            invariant
                len <= i <= chars@.len() || (i == len && len >= chars@.len()),
                chars@ == self.auto_suggestion@,
                i < chars@.len() || len < chars@.len() ==> out@ == chars@.subrange(
                    len as int,
                    i as int,
                ),
                len >= chars@.len() ==> out@.len() == 0,
            decreases chars.len() - i,
        {
            out.push(chars[i]);
            proof {
                assert(chars@.subrange(len as int, i + 1) =~= chars@.subrange(
                    len as int,
                    i as int,
                ).push(chars@[i as int]));
            }
            i = i + 1;
        }
        proof {
            if len < chars@.len() {
                assert(chars@.subrange(len as int, chars@.len() as int) =~= chars@.skip(
                    len as int,
                ));
            } else {
                assert(out@ =~= seq![]);
            }
        }
        (len, crate::text::from_chars(&out))
    }

    /// Hides the menu and selects its first item.
    pub fn hide_menu(&mut self)
        ensures
            !final(self).show_menu,
            final(self).selected == Some(0usize),
            final(self).completion_items@ == old(self).completion_items@,
            final(self).segment@ == old(self).segment@,
            final(self).auto_suggestion@ == old(self).auto_suggestion@,
            final(self).raw_input@ == old(self).raw_input@,
    {
        self.show_menu = false;
        self.selected = Some(0);
    }

    /// New items for the menu; the selection starts over where the word
    /// being completed changed.
    pub fn update_completion_items(&mut self, items: Vec<CompletionItem>, segment: String)
        ensures
            final(self).completion_items@ == items@,
            final(self).segment@ == segment@,
            final(self).selected == (if old(self).segment@ != segment@ {
                Some(0usize)
            } else {
                old(self).selected
            }),
            final(self).show_menu == old(self).show_menu,
            final(self).auto_suggestion@ == old(self).auto_suggestion@,
            final(self).raw_input@ == old(self).raw_input@,
    {
        self.completion_items = items;
        if !crate::text::str_eq(self.segment.as_str(), segment.as_str()) {
            self.selected = Some(0);
        }
        self.segment = segment;
    }

    /// After a key went to the text area: the menu shows where it changed
    /// the text; the result says whether the key was taken.
    pub fn input_applied(&mut self, changed: bool) -> (r: bool)
        ensures
            r == changed,
            final(self).show_menu == (old(self).show_menu || changed),
            final(self).selected == old(self).selected,
            final(self).completion_items@ == old(self).completion_items@,
            final(self).segment@ == old(self).segment@,
            final(self).auto_suggestion@ == old(self).auto_suggestion@,
            final(self).raw_input@ == old(self).raw_input@,
    {
        if changed {
            self.show_menu = true;
        }
        changed
    }

    /// Handles a key press.  Esc drops the selection, else hides the menu,
    /// else is not taken; Ctrl+Space shows the menu; Enter (and Ctrl+M) is
    /// not taken; Ctrl+A, Ctrl+Z and Ctrl+Y select all, undo and redo; plain
    /// Up and Down move in the menu while it shows; plain Right takes the
    /// suggestion when the cursor is at the end of the input, and moves the
    /// cursor otherwise; Tab inserts the selected item while the menu shows
    /// and hides it; any other key goes to the text area.  `ctrl` and
    /// `plain` say whether Control alone, or no modifier, was held;
    /// `selecting` whether the text area has a selection; `input` is its
    /// line and `cursor_x` the cursor's column.
    pub fn handle_key(
        &mut self,
        key: MenuKey,
        ctrl: bool,
        plain: bool,
        selecting: bool,
        input: &str,
        cursor_x: usize,
    ) -> (r: (bool, MenuEdit))
        requires
            key is Down && plain && old(self).show_menu ==> old(self).completion_items@.len() > 0
                || old(self).selected is None,
            key is Up && plain && old(self).show_menu ==> old(self).completion_items@.len() > 0
                || old(self).selected != Some(0usize),
        ensures
            final(self).completion_items@ == old(self).completion_items@,
            final(self).segment@ == old(self).segment@,
            final(self).auto_suggestion@ == old(self).auto_suggestion@,
            final(self).raw_input@ == old(self).raw_input@,
            key is Esc ==> if selecting {
                r.0 && r.1 == MenuEdit::CancelSelection && final(self).show_menu == old(
                    self,
                ).show_menu && final(self).selected == old(self).selected
            } else if old(self).show_menu {
                r.0 && r.1 == MenuEdit::Keep && !final(self).show_menu && final(self).selected
                    == Some(0usize)
            } else {
                !r.0 && r.1 == MenuEdit::Keep && final(self).selected == old(self).selected
                    && !final(self).show_menu
            },
            key == MenuKey::Char(' ') && ctrl ==> r.0 && r.1 == MenuEdit::Keep
                && final(self).show_menu && final(self).selected == old(self).selected,
            (key is Enter || (key == MenuKey::Char('m') && ctrl)) ==> !r.0 && r.1
                == MenuEdit::Keep && final(self).show_menu == old(self).show_menu
                && final(self).selected == old(self).selected,
            key == MenuKey::Char('a') && ctrl ==> r.0 && r.1 == MenuEdit::SelectAll,
            key == MenuKey::Char('z') && ctrl ==> r.0 && r.1 == MenuEdit::Undo,
            key == MenuKey::Char('y') && ctrl ==> r.0 && r.1 == MenuEdit::Redo,
            key is Up && plain ==> r.1 == MenuEdit::Keep && r.0 == old(self).show_menu
                && final(self).show_menu == old(self).show_menu && final(self).selected == (if old(
                self).show_menu {
                Some(wrap_prev(old(self).selected, old(self).completion_items@.len()) as usize)
            } else {
                old(self).selected
            }),
            key is Down && plain ==> r.1 == MenuEdit::Keep && r.0 == old(self).show_menu
                && final(self).show_menu == old(self).show_menu && final(self).selected == (if old(
                self).show_menu {
                Some(wrap_next(old(self).selected, old(self).completion_items@.len()) as usize)
            } else {
                old(self).selected
            }),
            key is Right && plain ==> r.0 && final(self).show_menu == old(self).show_menu
                && final(self).selected == old(self).selected && ({
                let len = encode_utf8(input@).len() as usize;
                let rest = skip_chars(old(self).auto_suggestion@, len as nat);
                if rest.len() > 0 && cursor_x == len {
                    menu_edit_code(r.1) == (5int, rest)
                } else {
                    r.1 == MenuEdit::MoveForward
                }
            }),
            key is Tab ==> if old(self).completion_items@.len() > 0 && old(self).show_menu {
                match old(self).selected {
                    Some(i) => if i < old(self).completion_items@.len() {
                        r.0 && !final(self).show_menu && final(self).selected == Some(0usize) && ({
                            let item = old(self).completion_items@[i as int];
                            if old(self).raw_input@.len() == 0 {
                                menu_edit_code(r.1) == (5int, item.insert_text@)
                            } else {
                                r.1 matches MenuEdit::ReplaceRange(s, e, t) && s == item.range.0
                                    && e == (if item.range.1 < 0 {
                                    (encode_utf8(old(self).raw_input@).len() as usize) as isize
                                } else {
                                    item.range.1
                                }) && t@ == item.insert_text@
                            }
                        })
                    } else {
                        !r.0 && r.1 == MenuEdit::Keep && final(self).show_menu == old(
                            self,
                        ).show_menu && final(self).selected == old(self).selected
                    },
                    None => !r.0 && r.1 == MenuEdit::Keep && final(self).show_menu == old(
                        self,
                    ).show_menu && final(self).selected == old(self).selected,
                }
            } else {
                !r.0 && r.1 == MenuEdit::Keep && final(self).show_menu == old(self).show_menu
                    && final(self).selected == old(self).selected
            },
            !(key is Esc || key is Enter || key is Tab || (key is Up && plain) || (key is Down
                && plain) || (key is Right && plain) || (ctrl && (key == MenuKey::Char(' ') || key
                == MenuKey::Char('m') || key == MenuKey::Char('a') || key == MenuKey::Char('z')
                || key == MenuKey::Char('y')))) ==> r.1 == MenuEdit::Input
                && final(self).show_menu == old(self).show_menu && final(self).selected == old(
                self).selected,
    {
        if ctrl {
            if key == MenuKey::Char(' ') {
                self.show_menu = true;
                return (true, MenuEdit::Keep);
            }
            if key == MenuKey::Char('m') {
                return (false, MenuEdit::Keep);
            }
            if key == MenuKey::Char('a') {
                return (true, MenuEdit::SelectAll);
            }
            if key == MenuKey::Char('z') {
                return (true, MenuEdit::Undo);
            }
            if key == MenuKey::Char('y') {
                return (true, MenuEdit::Redo);
            }
        }
        if plain {
            if key == MenuKey::Up {
                if self.show_menu {
                    self.selected = Some(prev_index(self.selected, self.completion_items.len()));
                    return (true, MenuEdit::Keep);
                } else {
                    return (false, MenuEdit::Keep);
                }
            }
            if key == MenuKey::Down {
                if self.show_menu {
                    self.selected = Some(next_index(self.selected, self.completion_items.len()));
                    return (true, MenuEdit::Keep);
                } else {
                    return (false, MenuEdit::Keep);
                }
            }
            if key == MenuKey::Right {
                let (len, rest) = self.get_auto_suggestion(input);
                if !rest.as_str().is_empty() && cursor_x == len {
                    return (true, MenuEdit::InsertStr(rest));
                } else {
                    return (true, MenuEdit::MoveForward);
                }
            }
        }
        match key {
            MenuKey::Esc => {
                if selecting {
                    (true, MenuEdit::CancelSelection)
                } else if self.show_menu {
                    self.hide_menu();
                    (true, MenuEdit::Keep)
                } else {
                    (false, MenuEdit::Keep)
                }
            },
            MenuKey::Enter => (false, MenuEdit::Keep),
            MenuKey::Tab => {
                if self.completion_items.len() > 0 && self.show_menu {
                    match self.selected {
                        Some(i) => {
                            if i < self.completion_items.len() {
                                let text = self.completion_items[i].insert_text.clone();
                                let (start, end) = self.completion_items[i].range;
                                let edit = if self.raw_input.as_str().is_empty() {
                                    MenuEdit::InsertStr(text)
                                } else {
                                    let e = if end < 0 {
                                        #[verifier::truncate] (self.raw_input.as_str().len() as isize)
                                    } else {
                                        end
                                    };
                                    MenuEdit::ReplaceRange(start, e, text)
                                };
                                self.hide_menu();
                                (true, edit)
                            } else {
                                (false, MenuEdit::Keep)
                            }
                        },
                        None => (false, MenuEdit::Keep),
                    }
                } else {
                    (false, MenuEdit::Keep)
                }
            },
            _ => (false, MenuEdit::Input),
        }
    }
}

} // verus!
