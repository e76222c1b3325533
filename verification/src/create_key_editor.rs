//! The form that creates a key: its type, name and time to live, and what a
//! key press does to each.
use crate::field::{
    is_numeric, parse_unsigned, spec_is_numeric, spec_parse_bounded, spec_step_text, step_text,
    FieldKey, TextEdit,
};
use crate::database_editor::edit_code;
use crate::footer::{hints, push_hint};
use vstd::prelude::*;

verus! {

/// The types of key the form creates, in the order left and right walk
/// them.
#[derive(Clone, Copy, PartialEq, Eq, Debug, Structural)]
pub enum KeyType {
    String,
    Hash,
    List,
    SetType,
    SortedSet,
    Stream,
}

/// The key type at a position.
pub open spec fn key_type_at(i: int) -> KeyType {
    if i == 0 { KeyType::String }
    else if i == 1 { KeyType::Hash }
    else if i == 2 { KeyType::List }
    else if i == 3 { KeyType::SetType }
    else if i == 4 { KeyType::SortedSet }
    else { KeyType::Stream }
}

impl KeyType {
    /// The type's name as the form shows it.
    pub fn name(&self) -> (r: String)
        ensures
            r@ == (match *self {
                KeyType::String => "String"@,
                KeyType::Hash => "Hash"@,
                KeyType::List => "List"@,
                KeyType::SetType => "Set"@,
                KeyType::SortedSet => "Sorted Set"@,
                KeyType::Stream => "Stream"@,
            }),
    {
        match self {
            KeyType::String => String::from_str("String"),
            KeyType::Hash => String::from_str("Hash"),
            KeyType::List => String::from_str("List"),
            KeyType::SetType => String::from_str("Set"),
            KeyType::SortedSet => String::from_str("Sorted Set"),
            KeyType::Stream => String::from_str("Stream"),
        }
    }
}

impl Default for KeyType {
    fn default() -> (r: Self)
        ensures
            r == KeyType::String,
    {
        KeyType::String
    }
}

/// The fields of the form: 0 type, 1 name, 2 time to live.
#[derive(Debug)]
pub struct Form {
    pub title: String,
    pub editing: usize,
    pub key_type: usize,
}

/// The edit a key makes on the name (1) or time-to-live (2) field, in the
/// numbering of `database_editor::edit_code`.
pub open spec fn key_field_key(
    field: int,
    key: FieldKey,
    selecting: bool,
    line: Seq<char>,
) -> (bool, Option<Seq<char>>, int) {
    match key {
        FieldKey::Esc => if selecting {
            (true, None, 1)
        } else {
            (false, None, 0)
        },
        FieldKey::Enter | FieldKey::CtrlM => (true, None, 0),
        FieldKey::CtrlA => (true, None, 2),
        FieldKey::CtrlZ => (true, None, 3),
        FieldKey::CtrlY => (true, None, 4),
        _ => if field == 2 {
            match key {
                FieldKey::Backspace => (true, None, 5),
                FieldKey::Char(c) => if spec_is_numeric(c) {
                    (true, None, 6)
                } else {
                    (true, None, 0)
                },
                FieldKey::CtrlC => if spec_is_numeric('c') {
                    (true, None, 6)
                } else {
                    (true, None, 0)
                },
                _ => (true, Some(spec_step_text(line, key, 18446744073709551615, 60)), 7),
            }
        } else {
            (true, None, 5)
        },
    }
}

/// The type position after a key on the type field: left and right (or
/// `h` and `l`) walk the types, wrapping; the digits 1 to 6 pick one.
pub open spec fn type_after(t: int, key: FieldKey) -> int {
    match key {
        FieldKey::Left => (t + 5) % 6,
        FieldKey::Right => (t + 1) % 6,
        FieldKey::Char(c) => if c == 'h' {
            (t + 5) % 6
        } else if c == 'l' {
            (t + 1) % 6
        } else if '1' <= c <= '6' {
            c as int - '1' as int
        } else {
            t
        },
        _ => t,
    }
}

impl Form {
    /// A fresh form on the type field, creating a string.
    pub fn default() -> (r: Form)
        ensures
            r.title@.len() == 0,
            r.editing == 0,
            r.key_type == 0,
    {
        Form { title: String::new(), editing: 0, key_type: 0 }
    }

    /// The form with another title.
    pub fn title(self, title: &str) -> (r: Form)
        ensures
            r.title@ == title@,
            r.editing == self.editing,
            r.key_type == self.key_type,
    {
        Form { title: title.to_string(), ..self }
    }

    /// The chosen type.
    pub fn get_type(&self) -> (r: KeyType)
        requires
            self.key_type < 6,
        ensures
            r == key_type_at(self.key_type as int),
    {
        match self.key_type {
            0 => KeyType::String,
            1 => KeyType::Hash,
            2 => KeyType::List,
            3 => KeyType::SetType,
            4 => KeyType::SortedSet,
            _ => KeyType::Stream,
        }
    }

    /// The key's name: the name field's text.
    pub fn get_name(&self, line: &str) -> (r: String)
        ensures
            r@ == line@,
    {
        line.to_string()
    }

    /// The time to live, where the field's text is a 64-bit number.
    pub fn get_ttl(&self, line: &str) -> (r: Option<u64>)
        ensures
            r matches Some(v) ==> spec_parse_bounded(line@, 18446744073709551615) == Some(v as nat),
            r is None ==> spec_parse_bounded(line@, 18446744073709551615) is None,
    {
        parse_unsigned(line, 18446744073709551615)
    }

    /// Moves to the next field, the first after the last.
    pub fn next(&mut self)
        requires
            old(self).editing < 3,
        ensures
            final(self).editing == (old(self).editing + 1) % 3,
            final(self).key_type == old(self).key_type,
    {
        self.editing = (self.editing + 1) % 3;
    }

    /// Moves to the previous field, the last before the first.
    pub fn prev(&mut self)
        requires
            old(self).editing < 3,
        ensures
            final(self).editing == (old(self).editing + 2) % 3,
            final(self).key_type == old(self).key_type,
    {
        self.editing = (self.editing + 2) % 3;
    }

    /// Handles a key.  Tab and BackTab move between the fields; a key that
    /// is not a press is taken and ignored; on the name and time-to-live
    /// fields the key becomes an edit of the field's text area (the time to
    /// live takes digits only, and the arrows step it by a second and a
    /// minute); on the type field left and right walk the types and the
    /// digits 1 to 6 pick one.
    pub fn handle_key(&mut self, key: FieldKey, is_press: bool, selecting: bool, line: &str) -> (r: (
        bool,
        TextEdit,
    ))
        requires
            old(self).editing < 3,
            old(self).key_type < 6,
        ensures
            final(self).editing < 3,
            final(self).key_type < 6,
            key is Tab ==> final(self).editing == (old(self).editing + 1) % 3 && r.0 && r.1 is Keep
                && final(self).key_type == old(self).key_type,
            key is BackTab ==> final(self).editing == (old(self).editing + 2) % 3 && r.0 && r.1
                is Keep && final(self).key_type == old(self).key_type,
            !(key is Tab || key is BackTab) ==> final(self).editing == old(self).editing,
            !(key is Tab || key is BackTab) && !is_press ==> r.0 && r.1 is Keep
                && final(self).key_type == old(self).key_type,
            !(key is Tab || key is BackTab) && is_press && old(self).editing != 0 ==> (
                r.0,
                edit_code(r.1).0,
                edit_code(r.1).1,
            ) == key_field_key(old(self).editing as int, key, selecting, line@) && final(self).key_type == old(self).key_type,
            !(key is Tab || key is BackTab) && is_press && old(self).editing == 0 ==> r.0 && r.1
                is Keep && final(self).key_type as int == type_after(
                old(self).key_type as int,
                key,
            ),
    {
        match key {
            FieldKey::Tab => {
                self.next();
                return (true, TextEdit::Keep);
            },
            FieldKey::BackTab => {
                self.prev();
                return (true, TextEdit::Keep);
            },
            _ => {},
        }
        if !is_press {
            return (true, TextEdit::Keep);
        }
        if self.editing != 0 {
            match key {
                FieldKey::Esc => if selecting {
                    (true, TextEdit::CancelSelection)
                } else {
                    (false, TextEdit::Keep)
                },
                FieldKey::Enter | FieldKey::CtrlM => (true, TextEdit::Keep),
                FieldKey::CtrlA => (true, TextEdit::SelectAll),
                FieldKey::CtrlZ => (true, TextEdit::Undo),
                FieldKey::CtrlY => (true, TextEdit::Redo),
                _ => {
                    if self.editing == 2 {
                        match key {
                            FieldKey::Backspace => (true, TextEdit::Input),
                            FieldKey::Char(c) => if is_numeric(c) {
                                (true, TextEdit::InputThenNormalize)
                            } else {
                                (true, TextEdit::Keep)
                            },
                            FieldKey::CtrlC => if is_numeric('c') {
                                (true, TextEdit::InputThenNormalize)
                            } else {
                                (true, TextEdit::Keep)
                            },
                            _ => (
                                true,
                                TextEdit::Replace(step_text(line, key, 18446744073709551615, 60)),
                            ),
                        }
                    } else {
                        (true, TextEdit::Input)
                    }
                },
            }
        } else {
            let t = self.key_type;
            self.key_type = match key {
                FieldKey::Left => (t + 5) % 6,
                FieldKey::Right => (t + 1) % 6,
                FieldKey::Char('h') => (t + 5) % 6,
                FieldKey::Char('l') => (t + 1) % 6,
                FieldKey::Char('1') => 0,
                FieldKey::Char('2') => 1,
                FieldKey::Char('3') => 2,
                FieldKey::Char('4') => 3,
                FieldKey::Char('5') => 4,
                FieldKey::Char('6') => 5,
                _ => t,
            };
            (true, TextEdit::Keep)
        }
    }
}

/// Walking the types forward then back, or back then forward, returns to
/// the type one started from.
pub proof fn lemma_type_walk_inverse(t: int)
    requires
        0 <= t < 6,
    ensures
        type_after(type_after(t, FieldKey::Right), FieldKey::Left) == t,
        type_after(type_after(t, FieldKey::Left), FieldKey::Right) == t,
{
}

/// The key hints of the form's footer: Tab and Back Tab, then the keys of
/// the field being edited (the time to live steps by minutes and seconds,
/// the type is picked by number).
pub open spec fn form_hints(editing: usize) -> Seq<(Seq<char>, Seq<char>)> {
    let base = seq![("Tab"@, "Next"@), ("BackTab"@, "Prev"@)];
    if editing == 2 {
        base + seq![("↑"@, "+1M"@), ("↓"@, "-1M"@), ("→"@, "+1S"@), ("←"@, "-1S"@)]
    } else if editing == 0 {
        base + seq![
            ("1"@, "String"@),
            ("2"@, "Hash"@),
            ("3"@, "List"@),
            ("4"@, "Set"@),
            ("5"@, "ZSet"@),
            ("6"@, "Stream"@),
        ]
    } else {
        base
    }
}

impl Form {
    /// The key hints of the form's footer.
    pub fn footer_elements(&self) -> (r: Vec<(String, String)>)
        ensures
            hints(r@) == form_hints(self.editing),
    {
        let mut v: Vec<(String, String)> = Vec::new();
        push_hint(&mut v, "Tab", "Next");
        push_hint(&mut v, "BackTab", "Prev");
        if self.editing == 2 {
            push_hint(&mut v, "↑", "+1M");
            push_hint(&mut v, "↓", "-1M");
            push_hint(&mut v, "→", "+1S");
            push_hint(&mut v, "←", "-1S");
        } else if self.editing == 0 {
            push_hint(&mut v, "1", "String");
            push_hint(&mut v, "2", "Hash");
            push_hint(&mut v, "3", "List");
            push_hint(&mut v, "4", "Set");
            push_hint(&mut v, "5", "ZSet");
            push_hint(&mut v, "6", "Stream");
        }
        proof {
            assert(hints(v@) =~= form_hints(self.editing));
        }
        v
    }
}

} // verus!
