//! The key explorer's popups: the filter, renaming, creating and deleting a
//! key, and the full-text search; what a key does in each, and the command
//! it leaves for the caller to run.
use crate::create_key_editor::{Form, KeyType, key_type_at};
use crate::explorer::{FilterMod, scan_pattern, spec_scan_pattern};
use crate::field::{FieldKey, TextEdit, spec_parse_bounded};
use crate::explorer::RedisKey;
use crate::resp::RespValue;
use crate::text::{i64_to_string, signed_decimal, spec_trim, str_eq, trim};
use crate::utils::utf8_decode;
use vstd::utf8::{decode_utf8, valid_utf8};
use vstd::prelude::*;

verus! {

/// The explorer's popups and what they act on.
#[derive(Debug)]
pub struct Popups {
    pub show_filter: bool,
    pub show_rename: bool,
    pub show_create: bool,
    pub show_delete_popup: bool,
    pub show_search_popup: bool,
    pub filter_mod: FilterMod,
    /// The name of the selected key, if a key is selected.
    pub selected_key: Option<String>,
    pub create_key_form: Form,
}

/// What a key did in a popup, and what is left for the caller to do.
#[derive(Debug)]
pub enum ExplorerOutcome {
    /// The key was not taken.
    NotTaken,
    /// The key was taken; nothing is left to do.
    Taken,
    /// Apply the edit to the popup's text area.
    Edit(TextEdit),
    /// Drop the selection of the rename popup's text area.
    CancelRenameSelection,
    /// A key went to the create form: whether it took it, and the edit for
    /// the text area of its current field.
    FormEdit(bool, TextEdit),
    /// Scan the keys that match the pattern.
    Scan(String),
    /// Rename a key (unless the new name is taken), then scan.
    Rename { from: String, to: String, pattern: String },
    /// Create a key of a type, give it a time to live where there is one,
    /// then scan.
    Create { key_type: KeyType, name: String, ttl: Option<u64>, pattern: String },
    /// The key's name is empty.
    BlankKeyName,
    /// Delete the key.
    Delete(String),
    /// Run the search of the search popup.
    Search,
}

/// The view of an optional string.
pub open spec fn opt_name(o: Option<String>) -> Option<Seq<char>> {
    match o {
        Some(s) => Some(s@),
        None => None,
    }
}

impl Popups {
    /// No popup shown, fuzzy filtering, no key selected.
    pub fn new() -> (r: Popups)
        ensures
            !r.show_filter && !r.show_rename && !r.show_create && !r.show_delete_popup
                && !r.show_search_popup,
            r.filter_mod == FilterMod::Fuzzy,
            r.selected_key is None,
            r.create_key_form.editing == 0,
            r.create_key_form.key_type == 0,
    {
        Popups {
            show_filter: false,
            show_rename: false,
            show_create: false,
            show_delete_popup: false,
            show_search_popup: false,
            filter_mod: FilterMod::Fuzzy,
            selected_key: None,
            create_key_form: Form::default(),
        }
    }

    /// A key in the filter popup.  Only presses count.  Esc drops the
    /// selection or closes the popup; Enter scans with the filter; Ctrl+/
    /// switches between fuzzy and pattern filtering; Ctrl+A, Ctrl+Z, Ctrl+Y
    /// select all, undo and redo; Ctrl+M does nothing; other keys go to the
    /// text area.
    pub fn handle_filter_key(
        &mut self,
        key: FieldKey,
        ctrl: bool,
        press: bool,
        selecting: bool,
        filter: &str,
    ) -> (r: ExplorerOutcome)
        ensures
            final(self).show_rename == old(self).show_rename,
            final(self).show_create == old(self).show_create,
            final(self).selected_key == old(self).selected_key,
            final(self).create_key_form == old(self).create_key_form,
            !press ==> r is Taken && final(self).show_filter == old(self).show_filter
                && final(self).filter_mod == old(self).filter_mod,
            press && key is Esc ==> final(self).filter_mod == old(self).filter_mod && if selecting {
                r matches ExplorerOutcome::Edit(TextEdit::CancelSelection) && final(self).show_filter
                    == old(self).show_filter
            } else {
                r is Taken && !final(self).show_filter
            },
            press && key is Enter ==> (r matches ExplorerOutcome::Scan(p) && p@
                == spec_scan_pattern(old(self).filter_mod, filter@)) && final(self).filter_mod
                == old(self).filter_mod && final(self).show_filter == old(self).show_filter,
            press && key == FieldKey::Char('/') && ctrl ==> r is Taken && final(self).filter_mod
                == (if old(self).filter_mod == FilterMod::Fuzzy {
                FilterMod::Pattern
            } else {
                FilterMod::Fuzzy
            }),
            press && key is CtrlA ==> r matches ExplorerOutcome::Edit(TextEdit::SelectAll),
            press && key is CtrlZ ==> r matches ExplorerOutcome::Edit(TextEdit::Undo),
            press && key is CtrlY ==> r matches ExplorerOutcome::Edit(TextEdit::Redo),
            press && key is CtrlM ==> r is Taken,
            press && !(key is Esc || key is Enter || key is CtrlA || key is CtrlZ || key is CtrlY
                || key is CtrlM || (key == FieldKey::Char('/') && ctrl)) ==> (r matches ExplorerOutcome::Edit(
                TextEdit::Input,
            ) && final(self).filter_mod == old(self).filter_mod && final(self).show_filter == old(self).show_filter),
    {
        if !press {
            return ExplorerOutcome::Taken;
        }
        if key == FieldKey::Char('/') && ctrl {
            self.filter_mod = match self.filter_mod {
                FilterMod::Fuzzy => FilterMod::Pattern,
                FilterMod::Pattern => FilterMod::Fuzzy,
            };
            return ExplorerOutcome::Taken;
        }
        match key {
            FieldKey::Esc => {
                if selecting {
                    ExplorerOutcome::Edit(TextEdit::CancelSelection)
                } else {
                    self.show_filter = false;
                    ExplorerOutcome::Taken
                }
            },
            FieldKey::Enter => ExplorerOutcome::Scan(scan_pattern(self.filter_mod, filter)),
            FieldKey::CtrlM => ExplorerOutcome::Taken,
            FieldKey::CtrlA => ExplorerOutcome::Edit(TextEdit::SelectAll),
            FieldKey::CtrlZ => ExplorerOutcome::Edit(TextEdit::Undo),
            FieldKey::CtrlY => ExplorerOutcome::Edit(TextEdit::Redo),
            _ => ExplorerOutcome::Edit(TextEdit::Input),
        }
    }

    /// A key in the rename popup.  Only presses count.  Esc drops the
    /// selection or closes the popup; Enter renames the selected key to the
    /// trimmed text and scans again with the filter, forgets the selection,
    /// and closes the popup; the control keys edit as in the filter.
    pub fn handle_rename_key(
        &mut self,
        key: FieldKey,
        press: bool,
        selecting: bool,
        line: &str,
        filter: &str,
    ) -> (r: ExplorerOutcome)
        ensures
            final(self).show_filter == old(self).show_filter,
            final(self).show_create == old(self).show_create,
            final(self).filter_mod == old(self).filter_mod,
            final(self).create_key_form == old(self).create_key_form,
            !press ==> r is Taken && final(self).show_rename == old(self).show_rename
                && final(self).selected_key == old(self).selected_key,
            press && key is Esc ==> final(self).selected_key == old(self).selected_key && if selecting {
                r matches ExplorerOutcome::Edit(TextEdit::CancelSelection) && final(self).show_rename
                    == old(self).show_rename
            } else {
                r is Taken && !final(self).show_rename
            },
            press && key is Enter ==> !final(self).show_rename && final(self).selected_key is None
                && match old(self).selected_key {
                Some(from) => r matches ExplorerOutcome::Rename { from: f, to: t, pattern: p } && f@
                    == from@ && t@ == spec_trim(line@) && p@ == spec_scan_pattern(
                    old(self).filter_mod,
                    filter@,
                ),
                None => r is Taken,
            },
            press && key is CtrlM ==> r is Taken,
            press && key is CtrlA ==> r matches ExplorerOutcome::Edit(TextEdit::SelectAll),
            press && key is CtrlZ ==> r matches ExplorerOutcome::Edit(TextEdit::Undo),
            press && key is CtrlY ==> r matches ExplorerOutcome::Edit(TextEdit::Redo),
            press && !(key is Esc || key is Enter || key is CtrlA || key is CtrlZ || key is CtrlY
                || key is CtrlM) ==> (r matches ExplorerOutcome::Edit(TextEdit::Input)
                && final(self).show_rename == old(self).show_rename && final(self).selected_key
                == old(self).selected_key),
    {
        if !press {
            return ExplorerOutcome::Taken;
        }
        match key {
            FieldKey::Esc => {
                if selecting {
                    ExplorerOutcome::Edit(TextEdit::CancelSelection)
                } else {
                    self.show_rename = false;
                    ExplorerOutcome::Taken
                }
            },
            FieldKey::Enter => {
                let out = match &self.selected_key {
                    Some(from) => ExplorerOutcome::Rename {
                        from: from.clone(),
                        to: trim(line),
                        pattern: scan_pattern(self.filter_mod, filter),
                    },
                    None => ExplorerOutcome::Taken,
                };
                if self.selected_key.is_some() {
                    self.selected_key = None;
                }
                self.show_rename = false;
                out
            },
            FieldKey::CtrlM => ExplorerOutcome::Taken,
            FieldKey::CtrlA => ExplorerOutcome::Edit(TextEdit::SelectAll),
            FieldKey::CtrlZ => ExplorerOutcome::Edit(TextEdit::Undo),
            FieldKey::CtrlY => ExplorerOutcome::Edit(TextEdit::Redo),
            _ => ExplorerOutcome::Edit(TextEdit::Input),
        }
    }

    /// A key in the create popup.  A plain Esc drops the selection of the
    /// rename popup's text area where it has one (`rename_selecting`), and
    /// closes the popup otherwise; a plain Enter creates the key of the
    /// form's type and name, with the time to live where its text is a
    /// number, then scans with the filter and closes the popup, but refuses
    /// an empty name; any other key goes to the form, with `selecting` and
    /// `line` describing its current field's text area.
    pub fn handle_create_key(
        &mut self,
        key: FieldKey,
        plain: bool,
        press: bool,
        rename_selecting: bool,
        selecting: bool,
        line: &str,
        name: &str,
        ttl: &str,
        filter: &str,
    ) -> (r: ExplorerOutcome)
        requires
            old(self).create_key_form.editing < 3,
            old(self).create_key_form.key_type < 6,
        ensures
            final(self).create_key_form.editing < 3,
            final(self).create_key_form.key_type < 6,
            final(self).show_filter == old(self).show_filter,
            final(self).show_rename == old(self).show_rename,
            final(self).selected_key == old(self).selected_key,
            final(self).filter_mod == old(self).filter_mod,
            key is Esc && plain ==> if rename_selecting {
                r is CancelRenameSelection && final(self).show_create == old(self).show_create
            } else {
                r is Taken && !final(self).show_create
            },
            key is Enter && plain ==> if name@.len() == 0 {
                r is BlankKeyName && final(self).show_create == old(self).show_create
            } else {
                !final(self).show_create && (r matches ExplorerOutcome::Create {
                    key_type: k,
                    name: n,
                    ttl: t,
                    pattern: p,
                } && k == key_type_at(old(self).create_key_form.key_type as int) && n@ == name@
                    && p@ == spec_scan_pattern(old(self).filter_mod, filter@) && match t {
                    Some(v) => spec_parse_bounded(ttl@, 18446744073709551615) == Some(v as nat),
                    None => spec_parse_bounded(ttl@, 18446744073709551615) is None,
                })
            },
            !((key is Esc || key is Enter) && plain) ==> r is FormEdit && final(self).show_create
                == old(self).show_create,
    {
        if plain {
            match key {
                FieldKey::Esc => {
                    if rename_selecting {
                        return ExplorerOutcome::CancelRenameSelection;
                    }
                    self.show_create = false;
                    return ExplorerOutcome::Taken;
                },
                FieldKey::Enter => {
                    let key_type = self.create_key_form.get_type();
                    let key_name = self.create_key_form.get_name(name);
                    let ttl_value = self.create_key_form.get_ttl(ttl);
                    if key_name.as_str().is_empty() {
                        return ExplorerOutcome::BlankKeyName;
                    }
                    self.show_create = false;
                    return ExplorerOutcome::Create {
                        key_type,
                        name: key_name,
                        ttl: ttl_value,
                        pattern: scan_pattern(self.filter_mod, filter),
                    };
                },
                _ => {},
            }
        }
        let (taken, edit) = self.create_key_form.handle_key(key, press, selecting, line);
        ExplorerOutcome::FormEdit(taken, edit)
    }

    /// A key on the delete confirmation.  Only plain presses count: Enter
    /// deletes the selected key and closes the popup, Esc closes it.
    pub fn handle_delete_popup_key(&mut self, key: FieldKey, press: bool, plain: bool) -> (r:
        ExplorerOutcome)
        ensures
            final(self).selected_key == old(self).selected_key,
            final(self).show_create == old(self).show_create,
            final(self).show_rename == old(self).show_rename,
            final(self).show_filter == old(self).show_filter,
            !press || !plain || !(key is Enter || key is Esc) ==> r is Taken
                && final(self).show_delete_popup == old(self).show_delete_popup,
            press && plain && key is Esc ==> r is Taken && !final(self).show_delete_popup,
            press && plain && key is Enter ==> !final(self).show_delete_popup && match old(self).selected_key {
                Some(n) => r matches ExplorerOutcome::Delete(d) && d@ == n@,
                None => r is Taken,
            },
    {
        if !press || !plain {
            return ExplorerOutcome::Taken;
        }
        match key {
            FieldKey::Enter => {
                self.show_delete_popup = false;
                match &self.selected_key {
                    Some(n) => ExplorerOutcome::Delete(n.clone()),
                    None => ExplorerOutcome::Taken,
                }
            },
            FieldKey::Esc => {
                self.show_delete_popup = false;
                ExplorerOutcome::Taken
            },
            _ => ExplorerOutcome::Taken,
        }
    }

    /// A key in the search popup after the search panel had it (`accepted`
    /// says whether the panel took it).  Where it did not: keys that are not
    /// plain presses are taken and ignored; Enter runs the search; Esc
    /// closes the popup; other keys are not taken.
    pub fn handle_search_key(&mut self, accepted: bool, key: FieldKey, press: bool, plain: bool) -> (r:
        ExplorerOutcome)
        ensures
            final(self).selected_key == old(self).selected_key,
            accepted ==> r is Taken && final(self).show_search_popup == old(self).show_search_popup,
            !accepted && (!press || !plain) ==> r is Taken && final(self).show_search_popup == old(self).show_search_popup,
            !accepted && press && plain ==> if key is Enter {
                r is Search && final(self).show_search_popup == old(self).show_search_popup
            } else if key is Esc {
                r is Taken && !final(self).show_search_popup
            } else {
                r is NotTaken && final(self).show_search_popup == old(self).show_search_popup
            },
    {
        if accepted {
            return ExplorerOutcome::Taken;
        }
        if !press || !plain {
            return ExplorerOutcome::Taken;
        }
        match key {
            FieldKey::Enter => ExplorerOutcome::Search,
            FieldKey::Esc => {
                self.show_search_popup = false;
                ExplorerOutcome::Taken
            },
            _ => ExplorerOutcome::NotTaken,
        }
    }
}

/// The search command for an index and a query, or `None` (and a warning
/// to show) where either is empty.
pub open spec fn spec_ft_search_command(index: Seq<char>, query: Seq<char>) -> Option<Seq<char>> {
    if index.len() == 0 || query.len() == 0 {
        None
    } else {
        Some("FT.SEARCH "@ + index + seq![' '] + query)
    }
}

/// The search command for an index and a query.
pub fn ft_search_command(index: &str, query: &str) -> (r: Option<String>)
    ensures
        match r {
            Some(c) => spec_ft_search_command(index@, query@) == Some(c@),
            None => spec_ft_search_command(index@, query@) is None,
        },
{
    if index.is_empty() || query.is_empty() {
        return None;
    }
    let mut v: Vec<char> = Vec::new();
    crate::text::push_str_chars(&mut v, "FT.SEARCH ");
    crate::text::push_str_chars(&mut v, index);
    v.push(' ');
    crate::text::push_str_chars(&mut v, query);
    proof {
        assert(v@ =~= "FT.SEARCH "@ + index@ + seq![' '] + query@);
    }
    Some(crate::text::from_chars(&v))
}

/// A reply read as a string, as the client library reads one: the bytes of
/// a bulk string where they are UTF-8, `OK`, a simple or verbatim string's
/// text, a double's or an integer's text; `None` for other replies.
pub open spec fn reply_string(v: RespValue) -> Option<Seq<char>> {
    match v {
        RespValue::BulkString { bytes, .. } => if valid_utf8(bytes@) {
            Some(decode_utf8(bytes@))
        } else {
            None
        },
        RespValue::Okay => Some("OK"@),
        RespValue::SimpleString(s) => Some(s@),
        RespValue::VerbatimString { text, .. } => Some(text@),
        RespValue::Double { text, .. } => Some(text@),
        RespValue::Int(i) => Some(signed_decimal(i as int)),
        _ => None,
    }
}

/// Reads a reply as a string.
pub fn reply_to_string(v: &RespValue) -> (r: Option<String>)
    ensures
        match r {
            Some(s) => reply_string(*v) == Some(s@),
            None => reply_string(*v) is None,
        },
{
    match v {
        RespValue::BulkString { bytes, .. } => utf8_decode(bytes.clone()),
        RespValue::Okay => Some(String::from_str("OK")),
        RespValue::SimpleString(s) => Some(s.clone()),
        RespValue::VerbatimString { text, .. } => Some(text.clone()),
        RespValue::Double { text, .. } => Some(text.clone()),
        RespValue::Int(i) => Some(i64_to_string(*i)),
        _ => None,
    }
}

/// Whether a reply is the simple string `name`.
pub open spec fn is_simple(v: RespValue, name: Seq<char>) -> bool {
    v matches RespValue::SimpleString(s) && s@ == name
}

/// The ids among a result's fields.
pub open spec fn meta_ids(meta: Seq<(RespValue, RespValue)>) -> Seq<Seq<char>>
    decreases meta.len(),
{
    if meta.len() == 0 {
        seq![]
    } else {
        let rest = meta_ids(meta.drop_last());
        let (k, v) = meta.last();
        if is_simple(k, "id"@) && reply_string(v) is Some {
            rest.push(reply_string(v)->0)
        } else {
            rest
        }
    }
}

/// The ids of the results that are maps.
pub open spec fn results_ids(results: Seq<RespValue>) -> Seq<Seq<char>>
    decreases results.len(),
{
    if results.len() == 0 {
        seq![]
    } else {
        let rest = results_ids(results.drop_last());
        match results.last() {
            RespValue::MapOf(meta) => rest + meta_ids(meta@),
            _ => rest,
        }
    }
}

/// The ids of every `results` array among a reply's entries.
pub open spec fn entries_ids(entries: Seq<(RespValue, RespValue)>) -> Seq<Seq<char>>
    decreases entries.len(),
{
    if entries.len() == 0 {
        seq![]
    } else {
        let rest = entries_ids(entries.drop_last());
        let (k, v) = entries.last();
        if is_simple(k, "results"@) {
            match v {
                RespValue::Array(results) => rest + results_ids(results@),
                _ => rest,
            }
        } else {
            rest
        }
    }
}

fn push_meta_ids(out: &mut Vec<RedisKey>, meta: &Vec<(RespValue, RespValue)>)
    ensures
        final(out)@.map_values(|k: RedisKey| k.name@) == old(out)@.map_values(|k: RedisKey| k.name@)
            + meta_ids(meta@),
        forall|i: int| old(out)@.len() <= i < final(out)@.len() ==> (#[trigger] final(out)@[i]).key_type@ == "unknown"@,
        forall|i: int| 0 <= i < old(out)@.len() ==> #[trigger] final(out)@[i] == old(out)@[i],
{
    let ghost start = out@;
    let mut i: usize = 0;
    while i < meta.len()
        invariant
            i <= meta.len(),
            out@.map_values(|k: RedisKey| k.name@) == start.map_values(|k: RedisKey| k.name@) + meta_ids(meta@.take(i as int)),
            out@.len() >= start.len(),
            forall|j: int| start.len() <= j < out@.len() ==> (#[trigger] out@[j]).key_type@ == "unknown"@,
            forall|j: int| 0 <= j < start.len() ==> #[trigger] out@[j] == start[j],
        decreases meta.len() - i,
    {
        proof {
            assert(meta@.take(i + 1).drop_last() =~= meta@.take(i as int));
            assert(meta@.take(i + 1).last() == meta@[i as int]);
            reveal_strlit("id");
        }
        let (k, v) = &meta[i];
        let is_id = match k {
            RespValue::SimpleString(s) => str_eq(s.as_str(), "id"),
            _ => false,
        };
        if is_id {
            if let Some(id) = reply_to_string(v) {
                let ghost before = out@;
                let key = RedisKey::new(id.as_str(), "unknown");
                out.push(key);
                proof {
                    assert(out@.map_values(|k: RedisKey| k.name@) =~= before.map_values(|k: RedisKey| k.name@).push(id@));
                }
            }
        }
        i = i + 1;
    }
    proof {
        assert(meta@.take(meta@.len() as int) =~= meta@);
    }
}

/// The keys a search reply names: the `id` of each result of its
/// `results`, in order; `None` where the reply is no map.
pub fn ft_search_keys(reply: &RespValue) -> (r: Option<Vec<RedisKey>>)
    ensures
        match *reply {
            RespValue::MapOf(entries) => r matches Some(keys) && keys@.map_values(|k: RedisKey| k.name@)
                == entries_ids(entries@) && forall|i: int| 0 <= i < keys@.len() ==> (#[trigger] keys@[i]).key_type@ == "unknown"@,
            _ => r is None,
        },
{
    let entries = match reply {
        RespValue::MapOf(e) => e,
        _ => return None,
    };
    let mut out: Vec<RedisKey> = Vec::new();
    let mut i: usize = 0;
    proof {
        assert(out@.map_values(|k: RedisKey| k.name@) =~= Seq::<Seq<char>>::empty());
    }
    while i < entries.len()
        invariant
            i <= entries.len(),
            out@.map_values(|k: RedisKey| k.name@) == entries_ids(entries@.take(i as int)),
            forall|j: int| 0 <= j < out@.len() ==> (#[trigger] out@[j]).key_type@ == "unknown"@,
        decreases entries.len() - i,
    {
        proof {
            assert(entries@.take(i + 1).drop_last() =~= entries@.take(i as int));
            assert(entries@.take(i + 1).last() == entries@[i as int]);
            reveal_strlit("results");
        }
        let (k, v) = &entries[i];
        let is_results = match k {
            RespValue::SimpleString(s) => str_eq(s.as_str(), "results"),
            _ => false,
        };
        if is_results {
            if let RespValue::Array(results) = v {
                let ghost before = out@.map_values(|k: RedisKey| k.name@);
                let mut j: usize = 0;
                while j < results.len()
                    invariant
                        j <= results.len(),
                        out@.map_values(|k: RedisKey| k.name@) == before + results_ids(results@.take(j as int)),
                        forall|t: int| 0 <= t < out@.len() ==> (#[trigger] out@[t]).key_type@ == "unknown"@,
                    decreases results.len() - j,
                {
                    proof {
                        assert(results@.take(j + 1).drop_last() =~= results@.take(j as int));
                        assert(results@.take(j + 1).last() == results@[j as int]);
                    }
                    if let RespValue::MapOf(meta) = &results[j] {
                        let ghost mid = out@.map_values(|k: RedisKey| k.name@);
                        push_meta_ids(&mut out, meta);
                        proof {
                            assert(before + results_ids(results@.take(j + 1)) =~= mid + meta_ids(meta@));
                        }
                    }
                    j = j + 1;
                }
                proof {
                    assert(results@.take(results@.len() as int) =~= results@);
                    assert(entries_ids(entries@.take(i + 1)) =~= before + results_ids(results@));
                }
            }
        }
        i = i + 1;
    }
    proof {
        assert(entries@.take(entries@.len() as int) =~= entries@);
    }
    Some(out)
}

} // verus!
