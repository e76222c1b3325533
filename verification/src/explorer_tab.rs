//! The key explorer's tab: the keys a scan found and the tree built of
//! them, the selected key and its value, paging through long values, and
//! what the keys do outside the popups.
use crate::cli_tab::CliKey;
use crate::explorer::{
    CurrentScreen, FilterMod, RedisKey, TreeNode, build_tree, filter_keys, key_of, keys_map, keys_view,
    spec_filter_typed,
};
use crate::completion::{spec_to_lowercase, to_lowercase};
use crate::explorer::{scan_pattern, spec_scan_pattern};
use crate::explorer_popups::Popups;
use crate::resp::RespValue;
use crate::footer::{append_hints, hints, push_hint};
use crate::ft_search_panel::FtSearchPanel;
use crate::field::FieldKey;
use crate::raw_paragraph::{RawParagraph, same_but_position, scroll_position};
use crate::explorer::{split_key, split_on};
use crate::text::{join, str_eq, strs_view};
use vstd::utf8::encode_utf8;
use crate::utils::ContentType;
use crate::nav::{wrap_next, wrap_prev};
use crate::value_tables::{HashValue, ITEM_HEIGHT, ScrollBar, StreamView, moved_down, moved_up, stream_takes, table_takes};
use vstd::prelude::*;

verus! {

/// The data flags of an answer: which parts it carries.
pub const SCAN_KEYS: u16 = 0x0001;
pub const STRING_VALUE: u16 = 0x0002;
pub const LIST_VALUE: u16 = 0x0004;
pub const SET_VALUE: u16 = 0x0008;
pub const ZSET_VALUE: u16 = 0x0010;
pub const HASH_VALUE: u16 = 0x0020;
pub const STREAM_VALUE: u16 = 0x0040;
pub const KEY_TYPE: u16 = 0x0080;
pub const KEY_SIZE: u16 = 0x0100;
pub const LENGTH: u16 = 0x0200;
pub const TTL: u16 = 0x0400;
pub const TIME_SERIES_VALUE: u16 = 0x0800;

/// How many elements of a long value are read at a time.
pub const PAGE_SIZE: isize = 100;

/// Whether the flags hold every bit of `flag`.
pub open spec fn carries(flags: u16, flag: u16) -> bool {
    flags & flag == flag
}

/// An answer of the server to the explorer.
pub struct ExplorerData {
    pub key_name: String,
    pub data_flags: u16,
    pub scan_keys_result: Vec<RedisKey>,
    pub selected_string_value: Option<(String, Option<ContentType>)>,
    pub selected_hash_value: Option<Vec<(String, String)>>,
    pub selected_stream_value: Option<Vec<(String, Vec<String>)>>,
    pub key_type: Option<String>,
    pub key_size: Option<usize>,
    pub length: Option<usize>,
    pub ttl: Option<u64>,
}

impl ExplorerData {
    /// An answer about the key `key_name` that carries nothing yet.
    pub fn new(key_name: String) -> (r: ExplorerData)
        ensures
            r.key_name@ == key_name@,
            r.data_flags == 0,
            r.scan_keys_result@.len() == 0,
            r.selected_string_value is None,
            r.selected_hash_value is None,
            r.selected_stream_value is None,
            r.key_type is None,
            r.key_size is None,
            r.length is None,
            r.ttl is None,
    {
        ExplorerData {
            key_name,
            data_flags: 0,
            scan_keys_result: Vec::new(),
            selected_string_value: None,
            selected_hash_value: None,
            selected_stream_value: None,
            key_type: None,
            key_size: None,
            length: None,
            ttl: None,
        }
    }

    /// Marks the answer as carrying the parts of `flags` too.
    pub fn add(&mut self, flags: u16)
        ensures
            final(self).data_flags == old(self).data_flags | flags,
            final(self).key_name@ == old(self).key_name@,
            final(self).scan_keys_result@ == old(self).scan_keys_result@,
    {
        self.data_flags = self.data_flags | flags;
    }
}

/// The explorer's tab.
pub struct ExplorerTab {
    pub current_screen: CurrentScreen,
    pub popups: Popups,
    pub try_format: bool,
    pub separator: char,
    pub scan_keys_result: Vec<RedisKey>,
    pub tree: TreeNode,
    pub selected_key: Option<RedisKey>,
    pub selected_raw_value: Option<RawParagraph>,
    pub selected_hash_value: Option<HashValue>,
    pub selected_stream_value: Option<StreamView>,
    /// Where the page of the selected value starts.
    pub offset: isize,
    pub has_search_module: bool,
    pub ft_search_panel: FtSearchPanel,
    /// How many keys a scan asks for at a time.
    pub scan_size: u16,
}

/// What a key in the tab leaves for the caller to do.
#[derive(Debug)]
pub enum TabStep {
    NotTaken,
    Taken,
    /// Hand the key to the tree widget as this move; where the tree did
    /// not take it, report with `after_tree`.
    Tree(TreeMove),
    /// Read the page of the value of the key that starts at the offset.
    FetchPage { key_name: String, key_type: String, offset: isize },
    /// Copy the text to the clipboard.
    Yank(String),
    /// List the search indexes for the search popup.
    ListIndexes,
    /// Put the key's name into the rename popup's text area.
    StartRename(String),
}

/// A move of the key tree.
#[derive(Clone, Copy, PartialEq, Eq, Debug, Structural)]
pub enum TreeMove {
    /// Close the selected node, or select its parent.
    Left,
    /// Open the selected node.
    Right,
    /// Select the next node, or the first where there is none.
    DownOrFirst,
    /// Select the previous node, or the last where there is none.
    UpOrLast,
    /// Drop the selection.
    Deselect,
    First,
    Last,
    ScrollDown(u16),
    ScrollUp(u16),
}

/// The length of a key's value as the pager counts it (0 where unknown;
/// as `as isize` gives it).
pub open spec fn page_length(k: RedisKey) -> isize {
    match k.length {
        Some(n) => n as isize,
        None => 0,
    }
}

/// The offset of the next page: one page on, back to the start past the
/// end.
pub open spec fn next_page(offset: isize, length: isize) -> isize {
    let o: int = if offset + PAGE_SIZE > isize::MAX {
        isize::MAX as int
    } else {
        offset + PAGE_SIZE
    };
    if o >= length {
        0
    } else {
        o as isize
    }
}

/// The offset of the previous page: one page back, counted from the end
/// before the start.
pub open spec fn prev_page(offset: isize, length: isize) -> isize {
    let o: int = if offset - PAGE_SIZE < isize::MIN {
        isize::MIN as int
    } else {
        offset - PAGE_SIZE
    };
    if o < 0 {
        let w = length + o;
        if w > isize::MAX {
            isize::MAX
        } else if w < isize::MIN {
            isize::MIN
        } else {
            w as isize
        }
    } else {
        o as isize
    }
}

/// `a + b`, held to the range of `isize`.
fn saturating_add(a: isize, b: isize) -> (r: isize)
    ensures
        r == if a + b > isize::MAX {
            isize::MAX as int
        } else if a + b < isize::MIN {
            isize::MIN as int
        } else {
            a + b
        },
{
    if b >= 0 {
        if a > isize::MAX - b {
            isize::MAX
        } else {
            a + b
        }
    } else {
        if a < isize::MIN - b {
            isize::MIN
        } else {
            a + b
        }
    }
}

fn copy_key(k: &RedisKey) -> (r: RedisKey)
    ensures
        r.name@ == k.name@,
        r.key_type@ == k.key_type@,
        r.key_size == k.key_size,
        r.length == k.length,
        r.ttl == k.ttl,
{
    RedisKey {
        name: k.name.clone(),
        key_type: k.key_type.clone(),
        key_size: k.key_size,
        length: k.length,
        ttl: k.ttl,
    }
}

fn copy_str(s: &String) -> (r: String)
    ensures
        r@ == s@,
{
    s.clone()
}

/// A key as the tab sees it.
#[derive(Clone, Copy, PartialEq, Eq, Debug, Structural)]
pub enum ExplorerKey {
    Char(char),
    Left,
    Right,
    Up,
    Down,
    Esc,
    Home,
    End,
    PageUp,
    PageDown,
    Delete,
    Other,
}

/// The key as a table sees it.
pub open spec fn table_key(key: ExplorerKey) -> FieldKey {
    match key {
        ExplorerKey::Char(c) => FieldKey::Char(c),
        ExplorerKey::Left => FieldKey::Left,
        ExplorerKey::Right => FieldKey::Right,
        ExplorerKey::Up => FieldKey::Up,
        ExplorerKey::Down => FieldKey::Down,
        ExplorerKey::Esc => FieldKey::Esc,
        _ => FieldKey::Other,
    }
}

/// The key as a paragraph sees it.
pub open spec fn paragraph_key(key: ExplorerKey) -> CliKey {
    match key {
        ExplorerKey::Char(c) => CliKey::Char(c),
        ExplorerKey::Up => CliKey::Up,
        ExplorerKey::Down => CliKey::Down,
        ExplorerKey::Esc => CliKey::Esc,
        ExplorerKey::Home => CliKey::Home,
        ExplorerKey::End => CliKey::End,
        ExplorerKey::PageUp => CliKey::PageUp,
        ExplorerKey::PageDown => CliKey::PageDown,
        _ => CliKey::Other,
    }
}

fn to_table_key(key: ExplorerKey) -> (r: FieldKey)
    ensures
        r == table_key(key),
{
    match key {
        ExplorerKey::Char(c) => FieldKey::Char(c),
        ExplorerKey::Left => FieldKey::Left,
        ExplorerKey::Right => FieldKey::Right,
        ExplorerKey::Up => FieldKey::Up,
        ExplorerKey::Down => FieldKey::Down,
        ExplorerKey::Esc => FieldKey::Esc,
        _ => FieldKey::Other,
    }
}

fn to_paragraph_key(key: ExplorerKey) -> (r: CliKey)
    ensures
        r == paragraph_key(key),
{
    match key {
        ExplorerKey::Char(c) => CliKey::Char(c),
        ExplorerKey::Up => CliKey::Up,
        ExplorerKey::Down => CliKey::Down,
        ExplorerKey::Esc => CliKey::Esc,
        ExplorerKey::Home => CliKey::Home,
        ExplorerKey::End => CliKey::End,
        ExplorerKey::PageUp => CliKey::PageUp,
        ExplorerKey::PageDown => CliKey::PageDown,
        _ => CliKey::Other,
    }
}

/// The tree move a key without modifiers makes, where it makes one.  Right
/// or `l` on a selected key goes to the value instead.
pub open spec fn tree_move(key: ExplorerKey) -> Option<TreeMove> {
    match key {
        ExplorerKey::Left | ExplorerKey::Char('h') => Some(TreeMove::Left),
        ExplorerKey::Right | ExplorerKey::Char('l') => Some(TreeMove::Right),
        ExplorerKey::Down | ExplorerKey::Char('j') => Some(TreeMove::DownOrFirst),
        ExplorerKey::Up | ExplorerKey::Char('k') => Some(TreeMove::UpOrLast),
        ExplorerKey::Esc => Some(TreeMove::Deselect),
        ExplorerKey::Home => Some(TreeMove::First),
        ExplorerKey::End => Some(TreeMove::Last),
        ExplorerKey::PageDown => Some(TreeMove::ScrollDown(3)),
        ExplorerKey::PageUp => Some(TreeMove::ScrollUp(3)),
        _ => None,
    }
}

impl ExplorerTab {
    /// The tree is well formed, the offset is not negative, and the shown
    /// tables are well formed.
    pub open spec fn wf(&self) -> bool {
        &&& self.tree.wf()
        &&& self.offset >= 0
        &&& (self.selected_hash_value matches Some(h) ==> h.wf())
        &&& (self.selected_stream_value matches Some(s) ==> s.wf())
    }

    /// Whether an answer is about the selected key.
    pub open spec fn answers_selected(&self, data: &ExplorerData) -> bool {
        self.selected_key matches Some(k) && k.name@ == data.key_name@
    }

    /// A fresh tab: the tree has the focus, nothing was scanned or selected.
    pub fn new() -> (r: ExplorerTab)
        ensures
            r.wf(),
            r.current_screen == CurrentScreen::KeysTree,
            r.separator == ':',
            !r.try_format,
            r.scan_keys_result@.len() == 0,
            r.selected_key is None,
            r.selected_raw_value is None,
            r.selected_hash_value is None,
            r.selected_stream_value is None,
            r.offset == 0,
            !r.has_search_module,
            r.scan_size == 2000,
    {
        ExplorerTab {
            current_screen: CurrentScreen::KeysTree,
            popups: Popups::new(),
            try_format: false,
            separator: ':',
            scan_keys_result: Vec::new(),
            tree: TreeNode::new(),
            selected_key: None,
            selected_raw_value: None,
            selected_hash_value: None,
            selected_stream_value: None,
            offset: 0,
            has_search_module: false,
            ft_search_panel: FtSearchPanel::new(),
            scan_size: 2000,
        }
    }

    /// Takes an answer.  Scanned keys replace the list, kept where their
    /// names pass the filter (`filter`, the filter input's first line), and
    /// the tree is built anew of them.  Where the answer is about the
    /// selected key, each part it carries replaces what was known: the type
    /// (`unknown` where none came), size, length and time to live, and a
    /// string, hash or stream value shown from the top.
    pub fn update_data(&mut self, data: ExplorerData, filter: &str)
        requires
            old(self).wf(),
            old(self).answers_selected(&data) && carries(data.data_flags, HASH_VALUE) ==> (
            data.selected_hash_value matches Some(v) && 0 < v@.len() <= usize::MAX / ITEM_HEIGHT),
            old(self).answers_selected(&data) && carries(data.data_flags, STREAM_VALUE) ==> (
            data.selected_stream_value matches Some(v) && 0 < v@.len() <= usize::MAX / ITEM_HEIGHT
                && forall|i: int| 0 <= i < v@.len() ==> 2 <= (#[trigger] v@[i]).1@.len() <= usize::MAX
                / ITEM_HEIGHT),
        ensures
            final(self).wf(),
            final(self).current_screen == old(self).current_screen,
            final(self).offset == old(self).offset,
            final(self).separator == old(self).separator,
            carries(data.data_flags, SCAN_KEYS) ==> keys_view(final(self).scan_keys_result@)
                == spec_filter_typed(
                old(self).popups.filter_mod,
                filter@,
                keys_view(data.scan_keys_result@),
            ) && forall|q: Seq<Seq<char>>| key_of(final(self).tree, q) == keys_map(
                keys_view(final(self).scan_keys_result@),
                old(self).separator,
            ).get(q),
            !carries(data.data_flags, SCAN_KEYS) ==> keys_view(final(self).scan_keys_result@) == keys_view(
                old(self).scan_keys_result@,
            ) && final(self).tree == old(self).tree,
            !old(self).answers_selected(&data) ==> final(self).selected_key == old(self).selected_key
                && final(self).selected_raw_value == old(self).selected_raw_value
                && final(self).selected_hash_value == old(self).selected_hash_value
                && final(self).selected_stream_value == old(self).selected_stream_value,
            old(self).answers_selected(&data) ==> ({
                let k = old(self).selected_key->0;
                let f = data.data_flags;
                &&& final(self).selected_key matches Some(n) && {
                    &&& n.name@ == k.name@
                    &&& n.key_type@ == if carries(f, KEY_TYPE) {
                        match data.key_type {
                            Some(t) => t@,
                            None => "unknown"@,
                        }
                    } else {
                        k.key_type@
                    }
                    &&& n.key_size == if carries(f, KEY_SIZE) { data.key_size } else { k.key_size }
                    &&& n.length == if carries(f, LENGTH) { data.length } else { k.length }
                    &&& n.ttl == if carries(f, TTL) { data.ttl } else { k.ttl }
                }
                &&& if carries(f, STRING_VALUE) {
                    final(self).selected_raw_value matches Some(p) && p.position_y == 0 && p.height == 1
                        && p.line_count == 0 && p.format == old(self).try_format && match data.selected_string_value {
                        Some(v) => p.raw@ == v.0@ && p.content_type == v.1,
                        None => p.raw@.len() == 0 && p.content_type is None,
                    }
                } else {
                    final(self).selected_raw_value == old(self).selected_raw_value
                }
                &&& if carries(f, HASH_VALUE) {
                    final(self).selected_hash_value matches Some(h) && h.is_fresh(
                        data.selected_hash_value->0@,
                        old(self).offset as usize,
                    )
                } else {
                    final(self).selected_hash_value == old(self).selected_hash_value
                }
                &&& if carries(f, STREAM_VALUE) {
                    final(self).selected_stream_value matches Some(s) && s.is_fresh(
                        data.selected_stream_value->0@,
                    )
                } else {
                    final(self).selected_stream_value == old(self).selected_stream_value
                }
            }),
    {
        let ghost answers = self.answers_selected(&data);
        let flags = data.data_flags;
        let ExplorerData {
            key_name,
            data_flags: _,
            scan_keys_result,
            selected_string_value,
            selected_hash_value,
            selected_stream_value,
            key_type,
            key_size,
            length,
            ttl,
        } = data;
        if flags & SCAN_KEYS == SCAN_KEYS {
            self.scan_keys_result = filter_keys(self.popups.filter_mod, filter, scan_keys_result);
            self.tree = build_tree(&self.scan_keys_result, self.separator);
        }
        let matches = match &self.selected_key {
            Some(k) => str_eq(k.name.as_str(), key_name.as_str()),
            None => false,
        };
        if !matches {
            return;
        }
        let mut k = self.selected_key.take().unwrap();
        if flags & KEY_TYPE == KEY_TYPE {
            k.key_type = match key_type {
                Some(t) => t,
                None => "unknown".to_string(),
            };
        }
        if flags & KEY_SIZE == KEY_SIZE {
            k.key_size = key_size;
        }
        if flags & LENGTH == LENGTH {
            k.length = length;
        }
        if flags & TTL == TTL {
            k.ttl = ttl;
        }
        self.selected_key = Some(k);
        if flags & STRING_VALUE == STRING_VALUE {
            let (raw, content_type) = match selected_string_value {
                Some(v) => v,
                None => (String::new(), None),
            };
            self.selected_raw_value = Some(RawParagraph::new(raw, content_type, self.try_format));
        }
        if flags & HASH_VALUE == HASH_VALUE {
            let v = selected_hash_value.unwrap();
            self.selected_hash_value = Some(HashValue::new(v, self.offset as usize));
        }
        if flags & STREAM_VALUE == STREAM_VALUE {
            let v = selected_stream_value.unwrap();
            self.selected_stream_value = Some(StreamView::new(v));
        }
    }

    /// The tree took a key and now selects the node `id` (the last of the
    /// selected path, none where nothing is selected).  Where that differs
    /// from the selected key, the scanned key of that name becomes the
    /// selected one, if there is one, and every shown value is dropped;
    /// the answer says whether to read the new key's information.
    pub fn select_node(&mut self, id: Option<String>) -> (r: bool)
        requires
            old(self).wf(),
        ensures
            final(self).wf(),
            final(self).scan_keys_result@ == old(self).scan_keys_result@,
            final(self).tree == old(self).tree,
            final(self).current_screen == old(self).current_screen,
            ({
                let changed = match id {
                    Some(i) => !(old(self).selected_key matches Some(k) && k.name@ == i@),
                    None => false,
                };
                if changed {
                    let names = old(self).scan_keys_result@.map_values(|k: RedisKey| k.name@);
                    &&& final(self).selected_raw_value is None
                    &&& final(self).selected_hash_value is None
                    &&& final(self).selected_stream_value is None
                    &&& r == final(self).selected_key is Some
                    &&& match final(self).selected_key {
                        Some(k) => exists|j: int| 0 <= j < names.len() && names[j] == id->0@
                            && (forall|m: int| 0 <= m < j ==> names[m] != id->0@)
                            && k.name@ == names[j]
                            && k.key_type@ == old(self).scan_keys_result@[j].key_type@,
                        None => !names.contains(id->0@),
                    }
                    &&& match final(self).popups.selected_key {
                        Some(n) => final(self).selected_key matches Some(k) && n@ == k.name@,
                        None => final(self).selected_key is None,
                    }
                    &&& final(self).popups.show_filter == old(self).popups.show_filter
                    &&& final(self).popups.show_rename == old(self).popups.show_rename
                    &&& final(self).popups.show_create == old(self).popups.show_create
                    &&& final(self).popups.show_delete_popup == old(self).popups.show_delete_popup
                    &&& final(self).popups.show_search_popup == old(self).popups.show_search_popup
                } else {
                    &&& !r
                    &&& final(self).selected_key == old(self).selected_key
                    &&& final(self).selected_raw_value == old(self).selected_raw_value
                    &&& final(self).selected_hash_value == old(self).selected_hash_value
                    &&& final(self).selected_stream_value == old(self).selected_stream_value
                }
            }),
    {
        let id = match id {
            Some(i) => i,
            None => return false,
        };
        let same = match &self.selected_key {
            Some(k) => str_eq(k.name.as_str(), id.as_str()),
            None => false,
        };
        if same {
            return false;
        }
        let ghost names = self.scan_keys_result@.map_values(|k: RedisKey| k.name@);
        let mut found: Option<RedisKey> = None;
        let mut done = false;
        let mut j: usize = 0;
        while j < self.scan_keys_result.len() && !done
            invariant
                j <= self.scan_keys_result.len(),
                names == self.scan_keys_result@.map_values(|k: RedisKey| k.name@),
                forall|m: int| 0 <= m < j ==> names[m] != id@,
                !done ==> found is None,
                done ==> j < names.len() && names[j as int] == id@ && (found matches Some(k) && k.name@
                    == names[j as int] && k.key_type@ == self.scan_keys_result@[j as int].key_type@),
            decreases self.scan_keys_result.len() - j + (if done { 0int } else { 1int }),
        {
            if str_eq(self.scan_keys_result[j].name.as_str(), id.as_str()) {
                found = Some(copy_key(&self.scan_keys_result[j]));
                done = true;
            } else {
                j = j + 1;
            }
        }
        proof {
            if !done {
                assert forall|m: int| 0 <= m < names.len() implies names[m] != id@ by {}
            }
        }
        self.popups.selected_key = match &found {
            Some(k) => Some(copy_str(&k.name)),
            None => None,
        };
        self.selected_key = found;
        self.selected_raw_value = None;
        self.selected_hash_value = None;
        self.selected_stream_value = None;
        self.selected_key.is_some()
    }

    /// Turns the page of a long selected value: Control-N one page on,
    /// Control-P one page back; values shorter than a page do not turn.
    /// The answer is the new offset to read from.
    pub fn buffer_turning(&mut self, ctrl_n: bool, ctrl_p: bool) -> (r: Option<isize>)
        requires
            old(self).wf(),
        ensures
            final(self).selected_key == old(self).selected_key,
            final(self).selected_hash_value == old(self).selected_hash_value,
            final(self).selected_stream_value == old(self).selected_stream_value,
            final(self).selected_raw_value == old(self).selected_raw_value,
            final(self).tree == old(self).tree,
            final(self).scan_keys_result@ == old(self).scan_keys_result@,
            final(self).current_screen == old(self).current_screen,
            final(self).popups == old(self).popups,
            match old(self).selected_key {
                Some(k) => {
                    let length = page_length(k);
                    if length < PAGE_SIZE {
                        r is None && final(self).offset == old(self).offset
                    } else if ctrl_n {
                        r == Some(next_page(old(self).offset, length)) && final(self).offset == r->0
                    } else if ctrl_p {
                        r == Some(prev_page(old(self).offset, length)) && final(self).offset == r->0
                    } else {
                        r is None && final(self).offset == old(self).offset
                    }
                },
                None => r is None && final(self).offset == old(self).offset,
            },
            final(self).offset >= 0,
    {
        let n = match &self.selected_key {
            Some(k) => match k.length {
                Some(n) => n,
                None => 0,
            },
            None => return None,
        };
        let length = #[verifier::truncate] (n as isize);
        if length < PAGE_SIZE {
            return None;
        }
        if ctrl_n {
            let mut offset = saturating_add(self.offset, PAGE_SIZE);
            if offset >= length {
                offset = 0;
            }
            self.offset = offset;
            Some(offset)
        } else if ctrl_p {
            let mut offset = saturating_add(self.offset, -PAGE_SIZE);
            if offset < 0 {
                offset = saturating_add(length, offset);
            }
            self.offset = offset;
            Some(offset)
        } else {
            None
        }
    }

    /// A key outside the popups.  `press` says whether it is a press,
    /// `plain` whether it came without modifiers, `ctrl` whether Control
    /// was the only modifier.
    ///
    /// On the value: without modifiers the scroll keys scroll a string
    /// value; Control-N and Control-P turn the page of a long hash; the
    /// shown table takes its keys; Left or `h` goes back to the tree.  On
    /// the tree: Control-K opens the search popup; without modifiers the
    /// tree's keys become tree moves (Right or `l` on a selected key goes
    /// to the value), `/` opens the filter, `d` or Delete the delete popup
    /// and `r` the rename popup of a selected key, `c` the create form.
    /// Anywhere, a backtick switches between the tree and the value.
    pub fn handle_key(&mut self, key: ExplorerKey, press: bool, plain: bool, ctrl: bool) -> (r: TabStep)
        requires
            old(self).wf(),
        ensures
            final(self).wf(),
            final(self).scan_keys_result@ == old(self).scan_keys_result@,
            final(self).tree == old(self).tree,
            final(self).selected_key == old(self).selected_key,
            ({
                let o = *old(self);
                let f = *final(self);
                let tk = table_key(key);
                let raw_scroll = o.current_screen == CurrentScreen::ValuesViewer && plain && (
                o.selected_raw_value matches Some(p) && scroll_position(p, paragraph_key(key)) is Some);
                let paging = o.current_screen == CurrentScreen::ValuesViewer && !raw_scroll
                    && o.selected_hash_value is Some && ctrl && (key == ExplorerKey::Char('n') || key
                    == ExplorerKey::Char('p')) && (o.selected_key matches Some(k) && page_length(k)
                    >= PAGE_SIZE);
                let hash_takes = o.current_screen == CurrentScreen::ValuesViewer && !raw_scroll
                    && !paging && o.selected_hash_value is Some && table_takes(tk, press);
                let stream_took = o.current_screen == CurrentScreen::ValuesViewer && !raw_scroll
                    && !paging && !hash_takes && (o.selected_stream_value matches Some(sv)
                    && stream_takes(sv.opt_for_id, tk, press));
                let back = o.current_screen == CurrentScreen::ValuesViewer && !raw_scroll && !paging
                    && !hash_takes && !stream_took && (key == ExplorerKey::Left || key
                    == ExplorerKey::Char('h'));
                let on_tree = o.current_screen == CurrentScreen::KeysTree;
                let search = on_tree && ctrl && key == ExplorerKey::Char('k');
                let tree = on_tree && !search && plain && tree_move(key) is Some;
                let tree_keys = on_tree && !search && plain && !tree;
                if raw_scroll {
                    &&& r is Taken
                    &&& f.selected_raw_value matches Some(p) && same_but_position(
                        o.selected_raw_value->0,
                        p,
                    ) && p.position_y == scroll_position(
                        o.selected_raw_value->0,
                        paragraph_key(key),
                    )->0
                    &&& f.current_screen == o.current_screen
                } else if paging {
                    let k = o.selected_key->0;
                    let off = if key == ExplorerKey::Char('n') {
                        next_page(o.offset, page_length(k))
                    } else {
                        prev_page(o.offset, page_length(k))
                    };
                    &&& r matches TabStep::FetchPage { key_name, key_type, offset } && key_name@
                        == k.name@ && key_type@ == k.key_type@ && offset == off
                    &&& f.offset == off
                    &&& f.current_screen == o.current_screen
                } else if hash_takes {
                    let h0 = o.selected_hash_value->0;
                    &&& r is Taken
                    &&& f.current_screen == o.current_screen
                    &&& f.selected_hash_value matches Some(h) && h.items@ == h0.items@ && h.selected == (if tk
                        == FieldKey::Down || tk == FieldKey::Char('j') {
                        Some(wrap_next(h0.selected, h0.items@.len()) as usize)
                    } else if tk == FieldKey::Up || tk == FieldKey::Char('k') {
                        Some(wrap_prev(h0.selected, h0.items@.len()) as usize)
                    } else {
                        h0.selected
                    }) && h.scroll == (if tk == FieldKey::Esc {
                        h0.scroll
                    } else {
                        ScrollBar { position: (h.selected->0 * ITEM_HEIGHT) as usize, ..h0.scroll }
                    })
                } else if stream_took {
                    let s0 = o.selected_stream_value->0;
                    &&& r is Taken
                    &&& f.current_screen == o.current_screen
                    &&& f.selected_stream_value matches Some(sv) && sv.items@ == s0.items@ && (
                    (tk == FieldKey::Down || tk == FieldKey::Char('j')) ==> moved_down(s0, sv)) && ((tk
                        == FieldKey::Up || tk == FieldKey::Char('k')) ==> moved_up(s0, sv)) && ((tk
                        == FieldKey::Right || tk == FieldKey::Char('l')) ==> !sv.opt_for_id) && ((tk
                        == FieldKey::Left || tk == FieldKey::Char('h')) ==> sv.opt_for_id)
                } else if back {
                    r is Taken && f.current_screen == CurrentScreen::KeysTree
                } else if search {
                    r is ListIndexes && f.popups.show_search_popup
                } else if tree {
                    if (key == ExplorerKey::Right || key == ExplorerKey::Char('l'))
                        && o.selected_key is Some {
                        r is Taken && f.current_screen == CurrentScreen::ValuesViewer
                    } else {
                        r == TabStep::Tree(tree_move(key)->0) && f.current_screen == o.current_screen
                    }
                } else if tree_keys && key == ExplorerKey::Char('/') {
                    r is Taken && f.popups.show_filter
                } else if tree_keys && (key == ExplorerKey::Char('d') || key == ExplorerKey::Delete) {
                    r is Taken && f.popups.show_delete_popup == (o.popups.show_delete_popup
                        || o.selected_key is Some)
                } else if tree_keys && key == ExplorerKey::Char('c') {
                    r is Taken && f.popups.show_create
                } else if tree_keys && key == ExplorerKey::Char('r') {
                    match o.selected_key {
                        Some(k) => (r matches TabStep::StartRename(n) && n@ == k.name@)
                            && f.popups.show_rename,
                        None => r is Taken && f.popups.show_rename == o.popups.show_rename,
                    }
                } else if key == ExplorerKey::Char('`') {
                    r is Taken && f.current_screen == if o.current_screen == CurrentScreen::KeysTree {
                        CurrentScreen::ValuesViewer
                    } else {
                        CurrentScreen::KeysTree
                    }
                } else {
                    r is NotTaken && f.current_screen == o.current_screen
                }
            }),
    {
        if self.current_screen == CurrentScreen::ValuesViewer {
            if plain {
                if let Some(mut p) = self.selected_raw_value.take() {
                    let took = p.scroll_key(to_paragraph_key(key));
                    self.selected_raw_value = Some(p);
                    if took {
                        return TabStep::Taken;
                    }
                }
            }
            if self.selected_hash_value.is_some() && ctrl {
                let n = key == ExplorerKey::Char('n');
                let pp = key == ExplorerKey::Char('p');
                if n || pp {
                    if let Some(offset) = self.buffer_turning(n, pp) {
                        let k = self.selected_key.as_ref().unwrap();
                        return TabStep::FetchPage {
                            key_name: copy_str(&k.name),
                            key_type: copy_str(&k.key_type),
                            offset,
                        };
                    }
                }
            }
            let tk = to_table_key(key);
            if let Some(mut h) = self.selected_hash_value.take() {
                let took = h.handle_key(tk, press);
                self.selected_hash_value = Some(h);
                if took {
                    return TabStep::Taken;
                }
            }
            if let Some(mut sv) = self.selected_stream_value.take() {
                let took = sv.handle_key(tk, press);
                self.selected_stream_value = Some(sv);
                if took {
                    return TabStep::Taken;
                }
            }
            if key == ExplorerKey::Left || key == ExplorerKey::Char('h') {
                self.current_screen = CurrentScreen::KeysTree;
                return TabStep::Taken;
            }
        }
        if self.current_screen == CurrentScreen::KeysTree {
            if ctrl && key == ExplorerKey::Char('k') {
                self.popups.show_search_popup = true;
                return TabStep::ListIndexes;
            }
            if plain {
                if key == ExplorerKey::Right || key == ExplorerKey::Char('l') {
                    if self.selected_key.is_some() {
                        self.current_screen = CurrentScreen::ValuesViewer;
                        return TabStep::Taken;
                    }
                    return TabStep::Tree(TreeMove::Right);
                }
                match key {
                    ExplorerKey::Left | ExplorerKey::Char('h') => return TabStep::Tree(TreeMove::Left),
                    ExplorerKey::Down | ExplorerKey::Char('j') => return TabStep::Tree(TreeMove::DownOrFirst),
                    ExplorerKey::Up | ExplorerKey::Char('k') => return TabStep::Tree(TreeMove::UpOrLast),
                    ExplorerKey::Esc => return TabStep::Tree(TreeMove::Deselect),
                    ExplorerKey::Home => return TabStep::Tree(TreeMove::First),
                    ExplorerKey::End => return TabStep::Tree(TreeMove::Last),
                    ExplorerKey::PageDown => return TabStep::Tree(TreeMove::ScrollDown(3)),
                    ExplorerKey::PageUp => return TabStep::Tree(TreeMove::ScrollUp(3)),
                    ExplorerKey::Char('/') => {
                        self.popups.show_filter = true;
                        return TabStep::Taken;
                    },
                    ExplorerKey::Char('d') | ExplorerKey::Delete => {
                        if self.selected_key.is_some() {
                            self.popups.show_delete_popup = true;
                        }
                        return TabStep::Taken;
                    },
                    ExplorerKey::Char('c') => {
                        self.popups.show_create = true;
                        return TabStep::Taken;
                    },
                    ExplorerKey::Char('r') => {
                        if let Some(k) = &self.selected_key {
                            let name = copy_str(&k.name);
                            self.popups.show_rename = true;
                            return TabStep::StartRename(name);
                        }
                        return TabStep::Taken;
                    },
                    _ => {},
                }
            }
        }
        if key == ExplorerKey::Char('`') {
            self.current_screen = if self.current_screen == CurrentScreen::KeysTree {
                CurrentScreen::ValuesViewer
            } else {
                CurrentScreen::KeysTree
            };
            return TabStep::Taken;
        }
        TabStep::NotTaken
    }
}


// ---------------------------------------------------------------------------
// The tree nodes a filter opens
// ---------------------------------------------------------------------------
/// The last position at or before `i` where `needle` occurs in `hay`.
pub open spec fn last_at(hay: Seq<u8>, needle: Seq<u8>, i: int) -> Option<int>
    decreases i + 1,
{
    if i < 0 {
        None
    } else if i + needle.len() <= hay.len() && hay.subrange(i, i + needle.len()) == needle {
        Some(i)
    } else {
        last_at(hay, needle, i - 1)
    }
}

/// The byte position of the last occurrence of `needle` in `hay`
/// (`str::rfind`).
pub open spec fn byte_rfind(hay: Seq<u8>, needle: Seq<u8>) -> Option<int> {
    if needle.len() > hay.len() {
        None
    } else {
        last_at(hay, needle, hay.len() - needle.len())
    }
}

/// How many of the segments from the `k`-th on end, counting one byte for
/// each separator after them, before `limit`, `acc` bytes having come
/// before; the count stops at the first that does not.  A segment's length
/// is its UTF-8 length as `str::len` gives it.
pub open spec fn open_count(segs: Seq<Seq<char>>, limit: int, acc: int, k: int) -> int
    decreases segs.len() - k,
{
    if k < 0 || k >= segs.len() {
        0
    } else {
        let a = acc + (encode_utf8(segs[k]).len() as usize) + 1;
        if a < limit {
            1 + open_count(segs, limit, a, k + 1)
        } else {
            0
        }
    }
}

/// The path of tree node ids down to the `k`-th segment: the first
/// segment, the first two joined by `:`, and so on.
pub open spec fn prefix_path(segs: Seq<Seq<char>>, k: int) -> Seq<Seq<char>> {
    Seq::new((k + 1) as nat, |j: int| join(segs.take(j + 1), ":"@))
}

/// The tree nodes to open so that a key's match of the filter shows: the
/// paths down to each segment of the key (split at `:`) that ends before
/// the end of the filter's last occurrence in the name.
pub open spec fn open_paths_of(name: Seq<char>, filter: Seq<char>) -> Seq<Seq<Seq<char>>> {
    match byte_rfind(encode_utf8(name), encode_utf8(filter)) {
        None => seq![],
        Some(p) => {
            let segs = split_on(name, ':');
            let m = open_count(segs, p + encode_utf8(filter).len(), 0, 0);
            Seq::new(m as nat, |k: int| prefix_path(segs, k))
        },
    }
}

/// The views of a list of paths.
pub open spec fn paths_view(v: Seq<Vec<String>>) -> Seq<Seq<Seq<char>>> {
    v.map_values(|p: Vec<String>| strs_view(p@))
}

fn bytes_match_at(hay: &[u8], needle: &[u8], i: usize) -> (r: bool)
    requires
        i + needle@.len() <= hay@.len(),
    ensures
        r == (hay@.subrange(i as int, i + needle@.len()) == needle@),
{
    let mut j: usize = 0;
    while j < needle.len()
        invariant
            j <= needle@.len(),
            i + needle@.len() <= hay@.len(),
            hay@.len() == hay.len(),
            forall|k: int| 0 <= k < j ==> hay@[i + k] == needle@[k],
        decreases needle@.len() - j,
    {
        if hay[i + j] != needle[j] {
            proof {
                assert(hay@.subrange(i as int, i + needle@.len())[j as int] != needle@[j as int]);
            }
            return false;
        }
        j = j + 1;
    }
    proof {
        assert(hay@.subrange(i as int, i + needle@.len()) =~= needle@);
    }
    true
}

fn rfind_bytes(hay: &[u8], needle: &[u8]) -> (r: Option<usize>)
    ensures
        match r {
            Some(p) => byte_rfind(hay@, needle@) == Some(p as int) && p + needle@.len() <= hay@.len(),
            None => byte_rfind(hay@, needle@) is None,
        },
{
    if needle.len() > hay.len() {
        return None;
    }
    let mut i: usize = hay.len() - needle.len();
    loop
        invariant
            needle@.len() <= hay@.len(),
            i + needle@.len() <= hay@.len(),
            byte_rfind(hay@, needle@) == last_at(hay@, needle@, i as int),
        decreases i,
    {
        if bytes_match_at(hay, needle, i) {
            return Some(i);
        }
        if i == 0 {
            proof {
                assert(last_at(hay@, needle@, -1) is None);
            }
            return None;
        }
        i = i - 1;
    }
}

/// The tree nodes to open so that a key's match of the filter shows, as
/// `open_paths_of` says.
pub fn open_paths(name: &str, filter: &str) -> (r: Vec<Vec<String>>)
    ensures
        paths_view(r@) == open_paths_of(name@, filter@),
{
    let mut out: Vec<Vec<String>> = Vec::new();
    let name_bytes = name.as_bytes();
    let filter_bytes = filter.as_bytes();
    let p = match rfind_bytes(name_bytes, filter_bytes) {
        None => {
            proof {
                assert(paths_view(out@) =~= open_paths_of(name@, filter@));
            }
            return out;
        },
        Some(p) => p,
    };
    proof {
        assert(name_bytes@.len() == name_bytes.len());
    }
    let limit = p + filter.len();
    let segs = split_key(name, ':');
    let ghost sv = strs_view(segs@);
    let ghost m = open_count(sv, limit as int, 0, 0);
    let mut acc: usize = 0;
    let mut current: Vec<String> = Vec::new();
    let mut k: usize = 0;
    while k < segs.len()
        invariant
            k <= segs@.len(),
            sv == strs_view(segs@),
            sv == split_on(name@, ':'),
            m == open_count(sv, limit as int, 0, 0),
            m == k + open_count(sv, limit as int, acc as int, k as int),
            paths_view(out@) == Seq::new(k as nat, |x: int| prefix_path(sv, x)),
            k > 0 ==> strs_view(current@) == prefix_path(sv, k - 1),
            k > 0 ==> current@.len() == k,
            limit as int == byte_rfind(encode_utf8(name@), encode_utf8(filter@))->0 + encode_utf8(filter@).len(),
            byte_rfind(encode_utf8(name@), encode_utf8(filter@)) is Some,
        ensures
            open_count(sv, limit as int, acc as int, k as int) == 0,
            m == k + open_count(sv, limit as int, acc as int, k as int),
            paths_view(out@) == Seq::new(k as nat, |x: int| prefix_path(sv, x)),
        decreases segs@.len() - k,
    {
        let seg = &segs[k];
        let seg_len = seg.as_str().len();
        let a = acc.saturating_add(seg_len).saturating_add(1);
        proof {
            assert(seg@ == sv[k as int]);
            assert(seg_len == encode_utf8(sv[k as int]).len() as usize);
        }
        if a >= limit {
            proof {
                assert(open_count(sv, limit as int, acc as int, k as int) == 0);
            }
            break;
        }
        let path = if k == 0 {
            seg.clone()
        } else {
            let mut text: Vec<char> = crate::text::to_chars(current[k - 1].as_str());
            text.push(':');
            crate::text::push_str_chars(&mut text, seg.as_str());
            crate::text::from_chars(&text)
        };
        proof {
            reveal_strlit(":");
            if k == 0 {
                assert(sv.take(1) =~= seq![sv[0]]);
            } else {
                assert(sv.take(k + 1).drop_last() =~= sv.take(k as int));
                assert(sv.take(k + 1).last() == sv[k as int]);
                assert(strs_view(current@)[k - 1] == current@[k - 1]@);
                assert(prefix_path(sv, k - 1)[k - 1] == join(sv.take(k as int), ":"@));
            }
            assert(path@ == join(sv.take(k + 1), ":"@));
        }
        let mut next: Vec<String> = Vec::new();
        let mut j: usize = 0;
        while j < k
            invariant
                j <= k,
                k > 0 ==> strs_view(current@) == prefix_path(sv, k - 1),
                k > 0 ==> current@.len() == k,
                k == 0 ==> j == 0,
                strs_view(next@) == prefix_path(sv, k as int).take(j as int),
            decreases k - j,
        {
            let ghost before = next@;
            let c = current[j].clone();
            next.push(c);
            proof {
                assert(strs_view(next@) =~= strs_view(before).push(c@));
                assert(strs_view(current@)[j as int] == c@);
                assert(prefix_path(sv, k - 1)[j as int] == prefix_path(sv, k as int)[j as int]);
                assert(prefix_path(sv, k as int).take(j + 1) =~= prefix_path(sv, k as int).take(j as int).push(
                    prefix_path(sv, k as int)[j as int],
                ));
            }
            j = j + 1;
        }
        let ghost before_next = next@;
        next.push(path);
        proof {
            assert(strs_view(next@) =~= strs_view(before_next).push(path@));
            assert(strs_view(next@) =~= prefix_path(sv, k as int));
        }
        current = next;
        let ghost before_out = out@;
        let cp = copy_paths(&current);
        out.push(cp);
        proof {
            assert(paths_view(out@) =~= paths_view(before_out).push(strs_view(cp@)));
            assert(paths_view(out@) =~= Seq::new((k + 1) as nat, |x: int| prefix_path(sv, x)));
        }
        acc = a;
        k = k + 1;
    }
    proof {
        assert(m == k);
        assert(paths_view(out@) =~= open_paths_of(name@, filter@));
    }
    out
}

fn copy_paths(v: &Vec<String>) -> (r: Vec<String>)
    ensures
        strs_view(r@) == strs_view(v@),
{
    let mut out: Vec<String> = Vec::new();
    let mut i: usize = 0;
    while i < v.len()
        invariant
            i <= v.len(),
            strs_view(out@) == strs_view(v@).take(i as int),
        decreases v.len() - i,
    {
        let ghost before = out@;
        let c = v[i].clone();
        out.push(c);
        proof {
            assert(strs_view(out@) =~= strs_view(before).push(c@));
            assert(strs_view(v@).take(i + 1) =~= strs_view(v@).take(i as int).push(v@[i as int]@));
        }
        i = i + 1;
    }
    proof {
        assert(strs_view(v@).take(v@.len() as int) =~= strs_view(v@));
    }
    out
}

/// The tree nodes a non-empty filter opens for each of the keys, one key
/// after another; none for an empty filter.
pub open spec fn all_open_paths(names: Seq<Seq<char>>, filter: Seq<char>) -> Seq<Seq<Seq<char>>>
    decreases names.len(),
{
    if filter.len() == 0 || names.len() == 0 {
        seq![]
    } else {
        all_open_paths(names.drop_last(), filter) + open_paths_of(names.last(), filter)
    }
}

impl ExplorerTab {
    /// The tree nodes to open after a scan so that each key's match of the
    /// filter (the filter input's first line) shows.
    pub fn filter_open_paths(&self, filter: &str) -> (r: Vec<Vec<String>>)
        ensures
            paths_view(r@) == all_open_paths(
                self.scan_keys_result@.map_values(|k: RedisKey| k.name@),
                filter@,
            ),
    {
        let ghost names = self.scan_keys_result@.map_values(|k: RedisKey| k.name@);
        let mut out: Vec<Vec<String>> = Vec::new();
        if filter.is_empty() {
            proof {
                assert(paths_view(out@) =~= all_open_paths(names, filter@));
            }
            return out;
        }
        let mut i: usize = 0;
        while i < self.scan_keys_result.len()
            invariant
                i <= self.scan_keys_result@.len(),
                names == self.scan_keys_result@.map_values(|k: RedisKey| k.name@),
                filter@.len() > 0,
                paths_view(out@) == all_open_paths(names.take(i as int), filter@),
            decreases self.scan_keys_result@.len() - i,
        {
            let more = open_paths(self.scan_keys_result[i].name.as_str(), filter);
            let ghost before = out@;
            let mut j: usize = 0;
            while j < more.len()
                invariant
                    j <= more@.len(),
                    paths_view(out@) == paths_view(before) + paths_view(more@).take(j as int),
                decreases more@.len() - j,
            {
                let ghost prev = out@;
                let c = copy_paths(&more[j]);
                out.push(c);
                proof {
                    assert(paths_view(out@) =~= paths_view(prev).push(strs_view(c@)));
                    assert(paths_view(more@).take(j + 1) =~= paths_view(more@).take(j as int).push(
                        paths_view(more@)[j as int],
                    ));
                }
                j = j + 1;
            }
            proof {
                assert(paths_view(more@).take(more@.len() as int) =~= paths_view(more@));
                assert(names.take(i + 1).drop_last() =~= names.take(i as int));
                assert(names.take(i + 1).last() == self.scan_keys_result@[i as int].name@);
            }
            i = i + 1;
        }
        proof {
            assert(names.take(names.len() as int) =~= names);
        }
        out
    }
}

// ---------------------------------------------------------------------------
// Reading a key's information and value
// ---------------------------------------------------------------------------
/// The answer to a scan: each key found, of a type not known yet; an
/// answer that carries nothing where the scan failed.
pub fn scan_data(found: Option<Vec<String>>) -> (r: ExplorerData)
    ensures
        r.key_name@.len() == 0,
        match found {
            Some(names) => r.data_flags == SCAN_KEYS && keys_view(r.scan_keys_result@)
                == strs_view(names@).map_values(|n: Seq<char>| (n, "unknown"@)),
            None => r.data_flags == 0 && r.scan_keys_result@.len() == 0,
        },
{
    let mut data = ExplorerData::new(String::new());
    if let Some(names) = found {
        let mut keys: Vec<RedisKey> = Vec::new();
        let mut i: usize = 0;
        while i < names.len()
            invariant
                i <= names@.len(),
                keys_view(keys@) == strs_view(names@).take(i as int).map_values(|n: Seq<char>| (n, "unknown"@)),
            decreases names@.len() - i,
        {
            let ghost before = keys@;
            let k = RedisKey::new(names[i].as_str(), "unknown");
            keys.push(k);
            proof {
                assert(keys_view(keys@) =~= keys_view(before).push((k.name@, k.key_type@)));
                assert(strs_view(names@).take(i + 1) =~= strs_view(names@).take(i as int).push(names@[i as int]@));
            }
            i = i + 1;
        }
        proof {
            assert(strs_view(names@).take(names@.len() as int) =~= strs_view(names@));
        }
        data.data_flags = SCAN_KEYS;
        data.scan_keys_result = keys;
    }
    data
}

/// The command that measures a key's length.
#[derive(Clone, Copy, PartialEq, Eq, Debug, Structural)]
pub enum LengthQuery {
    Strlen,
    Llen,
    Hlen,
    Scard,
    Zcard,
    Xlen,
    /// Ask the JSON value's type, then measure it by `json_length_query`.
    Json,
    BloomItems,
    TimeSeriesTotal,
    /// The length is 0 without asking.
    Zero,
}

/// The length command for a key type, by its lower-cased name.
pub open spec fn spec_length_query(lower: Seq<char>) -> LengthQuery {
    if lower == "string"@ {
        LengthQuery::Strlen
    } else if lower == "list"@ {
        LengthQuery::Llen
    } else if lower == "hash"@ {
        LengthQuery::Hlen
    } else if lower == "set"@ {
        LengthQuery::Scard
    } else if lower == "zset"@ {
        LengthQuery::Zcard
    } else if lower == "stream"@ {
        LengthQuery::Xlen
    } else if lower == "rejson-rl"@ {
        LengthQuery::Json
    } else if lower == "mbbloom--"@ {
        LengthQuery::BloomItems
    } else if lower == "tsdb-type"@ {
        LengthQuery::TimeSeriesTotal
    } else {
        LengthQuery::Zero
    }
}

/// The command that measures a key's length, by its type.
pub fn length_query(key_type: &str) -> (r: LengthQuery)
    ensures
        r == spec_length_query(spec_to_lowercase(key_type@)),
{
    let lower = to_lowercase(key_type);
    let t = lower.as_str();
    if str_eq(t, "string") {
        LengthQuery::Strlen
    } else if str_eq(t, "list") {
        LengthQuery::Llen
    } else if str_eq(t, "hash") {
        LengthQuery::Hlen
    } else if str_eq(t, "set") {
        LengthQuery::Scard
    } else if str_eq(t, "zset") {
        LengthQuery::Zcard
    } else if str_eq(t, "stream") {
        LengthQuery::Xlen
    } else if str_eq(t, "rejson-rl") {
        LengthQuery::Json
    } else if str_eq(t, "mbbloom--") {
        LengthQuery::BloomItems
    } else if str_eq(t, "tsdb-type") {
        LengthQuery::TimeSeriesTotal
    } else {
        LengthQuery::Zero
    }
}

/// The command that measures a JSON value's length.
#[derive(Clone, Copy, PartialEq, Eq, Debug, Structural)]
pub enum JsonLengthQuery {
    ObjLen,
    ArrLen,
    StrLen,
    Zero,
}

/// The length command for a JSON value, by its lower-cased type.
pub open spec fn spec_json_length_query(lower: Seq<char>) -> JsonLengthQuery {
    if lower == "object"@ {
        JsonLengthQuery::ObjLen
    } else if lower == "array"@ {
        JsonLengthQuery::ArrLen
    } else if lower == "string"@ {
        JsonLengthQuery::StrLen
    } else {
        JsonLengthQuery::Zero
    }
}

/// The command that measures a JSON value's length, by its type.
pub fn json_length_query(json_type: &str) -> (r: JsonLengthQuery)
    ensures
        r == spec_json_length_query(spec_to_lowercase(json_type@)),
{
    let lower = to_lowercase(json_type);
    let t = lower.as_str();
    if str_eq(t, "object") {
        JsonLengthQuery::ObjLen
    } else if str_eq(t, "array") {
        JsonLengthQuery::ArrLen
    } else if str_eq(t, "string") {
        JsonLengthQuery::StrLen
    } else {
        JsonLengthQuery::Zero
    }
}

/// The answer about a key's information, from what the server said: its
/// type, memory size and time to live, each where it answered, and its
/// length where the type came and the length was measured.  A time to live
/// that is not positive means none.
pub fn key_info_data(
    key_name: String,
    key_type: Option<String>,
    key_size: Option<usize>,
    ttl: Option<i64>,
    length: Option<usize>,
) -> (r: ExplorerData)
    ensures
        r.key_name@ == key_name@,
        r.scan_keys_result@.len() == 0,
        r.selected_string_value is None,
        r.selected_hash_value is None,
        r.selected_stream_value is None,
        r.data_flags == (if key_type is Some { KEY_TYPE } else { 0 }) | (if key_type is Some && length
            is Some { LENGTH } else { 0 }) | (if key_size is Some { KEY_SIZE } else { 0 }) | (if ttl
            is Some { TTL } else { 0 }),
        match key_type {
            Some(t) => r.key_type matches Some(u) && u@ == t@,
            None => r.key_type is None,
        },
        r.length == (if key_type is Some { length } else { None }),
        r.key_size == key_size,
        r.ttl == match ttl {
            Some(t) => if t > 0 { Some(t as u64) } else { None },
            None => None,
        },
{
    let mut data = ExplorerData::new(key_name);
    let typed = key_type.is_some();
    if typed {
        data.data_flags = data.data_flags | KEY_TYPE;
        data.key_type = key_type;
        if length.is_some() {
            data.data_flags = data.data_flags | LENGTH;
            data.length = length;
        }
    }
    if key_size.is_some() {
        data.data_flags = data.data_flags | KEY_SIZE;
        data.key_size = key_size;
    }
    if let Some(t) = ttl {
        data.data_flags = data.data_flags | TTL;
        data.ttl = if t > 0 { Some(t as u64) } else { None };
    }
    proof {
        let k: u16 = if typed { KEY_TYPE } else { 0 };
        let l: u16 = if typed && length is Some { LENGTH } else { 0 };
        let z: u16 = if key_size is Some { KEY_SIZE } else { 0 };
        let t: u16 = if ttl is Some { TTL } else { 0 };
        assert(0u16 | k == k) by (bit_vector);
        assert((k | l) | z == k | l | z) by (bit_vector);
        assert(k | 0u16 == k) by (bit_vector);
        assert(k | l | 0u16 == k | l) by (bit_vector);
        assert(k | l | z | 0u16 == k | l | z) by (bit_vector);
        assert(0u16 | l == l) by (bit_vector);
    }
    data
}

/// The command that reads a page of a key's value.
#[derive(Clone, Copy, PartialEq, Eq, Debug, Structural)]
pub enum ValueQuery {
    /// The whole string.
    Get,
    /// The list elements from `start` to `stop`.
    ListRange { start: isize, stop: isize },
    /// A scan of the set from the cursor, asking for `count` members.
    SetScan { cursor: usize, count: usize },
    /// The sorted set members, with their scores, from `start` to `stop`.
    ZsetRange { start: isize, stop: isize },
    /// A scan of the hash from the cursor, asking for `count` fields.
    HashScan { cursor: usize, count: usize },
    /// The first `count` entries of the stream.
    StreamRange { count: usize },
    /// The whole JSON document.
    JsonGet,
    /// The first `count` samples of the time series.
    TimeSeriesRange { count: usize },
    /// Nothing is read.
    Nothing,
}

/// The page command for a key type, by its lower-cased name, for the page
/// that starts at `offset`.
pub open spec fn spec_value_query(lower: Seq<char>, offset: isize) -> ValueQuery {
    let stop = (offset + PAGE_SIZE - 1) as isize;
    if lower == "string"@ {
        ValueQuery::Get
    } else if lower == "list"@ {
        ValueQuery::ListRange { start: offset, stop }
    } else if lower == "set"@ {
        ValueQuery::SetScan { cursor: offset as usize, count: PAGE_SIZE as usize }
    } else if lower == "zset"@ {
        ValueQuery::ZsetRange { start: offset, stop }
    } else if lower == "hash"@ {
        ValueQuery::HashScan { cursor: offset as usize, count: PAGE_SIZE as usize }
    } else if lower == "stream"@ {
        ValueQuery::StreamRange { count: PAGE_SIZE as usize }
    } else if lower == "rejson-rl"@ {
        ValueQuery::JsonGet
    } else if lower == "tsdb-type"@ {
        ValueQuery::TimeSeriesRange { count: PAGE_SIZE as usize }
    } else {
        ValueQuery::Nothing
    }
}

/// The command that reads the page of a key's value that starts at
/// `offset`, by the key's type.
pub fn value_query(key_type: &str, offset: isize) -> (r: ValueQuery)
    requires
        0 <= offset <= isize::MAX - PAGE_SIZE,
    ensures
        r == spec_value_query(spec_to_lowercase(key_type@), offset),
{
    let lower = to_lowercase(key_type);
    let t = lower.as_str();
    let stop = offset + (PAGE_SIZE - 1);
    if str_eq(t, "string") {
        ValueQuery::Get
    } else if str_eq(t, "list") {
        ValueQuery::ListRange { start: offset, stop }
    } else if str_eq(t, "set") {
        ValueQuery::SetScan { cursor: offset as usize, count: 100 }
    } else if str_eq(t, "zset") {
        ValueQuery::ZsetRange { start: offset, stop }
    } else if str_eq(t, "hash") {
        ValueQuery::HashScan { cursor: offset as usize, count: 100 }
    } else if str_eq(t, "stream") {
        ValueQuery::StreamRange { count: 100 }
    } else if str_eq(t, "rejson-rl") {
        ValueQuery::JsonGet
    } else if str_eq(t, "tsdb-type") {
        ValueQuery::TimeSeriesRange { count: 100 }
    } else {
        ValueQuery::Nothing
    }
}

/// The text a bulk string of a reply is shown as, empty for any other
/// reply.
pub open spec fn bulk_text(v: RespValue) -> Seq<char> {
    match v {
        RespValue::BulkString { bytes: _, shown } => shown@,
        _ => seq![],
    }
}

/// The members a set scan answered: the bulk strings of the array after the
/// cursor, in order; none where the reply has no such array.
pub open spec fn spec_scan_members(reply: Seq<RespValue>) -> Option<Seq<Seq<char>>> {
    if reply.len() >= 2 && reply[1] is Array {
        let items = reply[1]->Array_0@;
        Some(items.filter(|v: RespValue| v is BulkString).map_values(|v: RespValue| bulk_text(v)))
    } else {
        None
    }
}

/// The fields and values a hash scan answered: the array after the cursor
/// taken two by two (an odd last item dropped), each as its bulk string's
/// text; none where the reply has no such array.
pub open spec fn spec_scan_pairs(reply: Seq<RespValue>) -> Option<Seq<(Seq<char>, Seq<char>)>> {
    if reply.len() >= 2 && reply[1] is Array {
        let items = reply[1]->Array_0@;
        Some(Seq::new(items.len() / 2, |k: int| (bulk_text(items[2 * k]), bulk_text(items[2 * k + 1]))))
    } else {
        None
    }
}

fn bulk_text_of(v: &RespValue) -> (r: String)
    ensures
        r@ == bulk_text(*v),
{
    match v {
        RespValue::BulkString { bytes: _, shown } => shown.clone(),
        _ => String::new(),
    }
}

/// The members a set scan answered.
pub fn scan_members(reply: &Vec<RespValue>) -> (r: Option<Vec<String>>)
    ensures
        match r {
            Some(v) => spec_scan_members(reply@) == Some(strs_view(v@)),
            None => spec_scan_members(reply@) is None,
        },
{
    if reply.len() < 2 {
        return None;
    }
    match &reply[1] {
        RespValue::Array(items) => {
            let ghost pred = |v: RespValue| v is BulkString;
            let ghost f = |v: RespValue| bulk_text(v);
            let mut out: Vec<String> = Vec::new();
            let mut i: usize = 0;
            while i < items.len()
                invariant
                    i <= items@.len(),
                    pred == (|v: RespValue| v is BulkString),
                    f == (|v: RespValue| bulk_text(v)),
                    strs_view(out@) == items@.take(i as int).filter(pred).map_values(f),
                decreases items@.len() - i,
            {
                proof {
                    assert(items@.take(i + 1) =~= items@.take(i as int).push(items@[i as int]));
                    items@.take(i as int).lemma_filter_push(items@[i as int], pred);
                }
                match &items[i] {
                    RespValue::BulkString { bytes: _, shown } => {
                        let ghost before = out@;
                        let c = shown.clone();
                        out.push(c);
                        proof {
                            assert(pred(items@[i as int]));
                            assert(strs_view(out@) =~= strs_view(before).push(c@));
                            assert(items@.take(i + 1).filter(pred) =~= items@.take(i as int).filter(pred).push(items@[i as int]));
                            assert(items@.take(i + 1).filter(pred).map_values(f) =~= items@.take(i as int).filter(pred).map_values(f).push(f(items@[i as int])));
                        }
                    },
                    _ => {
                        proof {
                            assert(!pred(items@[i as int]));
                            assert(items@.take(i + 1).filter(pred) =~= items@.take(i as int).filter(pred));
                        }
                    },
                }
                i = i + 1;
            }
            proof {
                assert(items@.take(items@.len() as int) =~= items@);
            }
            Some(out)
        },
        _ => None,
    }
}

/// The fields and values a hash scan answered.
pub fn scan_pairs(reply: &Vec<RespValue>) -> (r: Option<Vec<(String, String)>>)
    ensures
        match r {
            Some(v) => spec_scan_pairs(reply@) == Some(v@.map_values(|p: (String, String)| (p.0@, p.1@))),
            None => spec_scan_pairs(reply@) is None,
        },
{
    if reply.len() < 2 {
        return None;
    }
    match &reply[1] {
        RespValue::Array(items) => {
            let ghost target = Seq::new(items@.len() / 2, |k: int| (bulk_text(items@[2 * k]), bulk_text(items@[2 * k + 1])));
            let mut out: Vec<(String, String)> = Vec::new();
            let mut k: usize = 0;
            while k + 1 < items.len()
                invariant
                    k % 2 == 0,
                    k <= items@.len(),
                    out@.len() == k / 2,
                    forall|j: int| 0 <= j < out@.len() ==> (#[trigger] out@[j]).0@ == bulk_text(items@[2 * j])
                        && out@[j].1@ == bulk_text(items@[2 * j + 1]),
                decreases items@.len() - k,
            {
                let a = bulk_text_of(&items[k]);
                let b = bulk_text_of(&items[k + 1]);
                out.push((a, b));
                k = k + 2;
            }
            proof {
                assert(out@.len() == items@.len() / 2);
                assert(out@.map_values(|p: (String, String)| (p.0@, p.1@)) =~= target);
            }
            Some(out)
        },
        _ => None,
    }
}

impl ExplorerTab {
    /// Takes the settings: how many keys a scan asks for, and whether
    /// values are formatted.
    pub fn init_config(&mut self, scan_size: u16, try_format: bool)
        ensures
            final(self).scan_size == scan_size,
            final(self).try_format == try_format,
            final(self).scan_keys_result@ == old(self).scan_keys_result@,
            final(self).selected_key == old(self).selected_key,
            final(self).current_screen == old(self).current_screen,
    {
        self.scan_size = scan_size;
        self.try_format = try_format;
    }

    /// Starts afresh: the delete, filter and search popups close, the
    /// filter is emptied, and the answer is the pattern to scan with.
    pub fn reset(&mut self) -> (r: String)
        ensures
            !final(self).popups.show_delete_popup,
            !final(self).popups.show_filter,
            !final(self).popups.show_search_popup,
            final(self).popups.filter_mod == old(self).popups.filter_mod,
            r@ == spec_scan_pattern(old(self).popups.filter_mod, seq![]),
            final(self).scan_keys_result@ == old(self).scan_keys_result@,
            final(self).selected_key == old(self).selected_key,
    {
        self.popups.show_delete_popup = false;
        self.popups.show_filter = false;
        self.popups.show_search_popup = false;
        proof {
            reveal_strlit("");
        }
        scan_pattern(self.popups.filter_mod, "")
    }

    /// The server changed: the pattern to scan the new server's keys with,
    /// from the filter input's first line.
    pub fn client_changed(&self, filter: &str) -> (r: String)
        ensures
            r@ == spec_scan_pattern(self.popups.filter_mod, filter@),
    {
        scan_pattern(self.popups.filter_mod, filter)
    }
}

/// The kinds of key the explorer colours apart.
#[derive(Clone, Copy, PartialEq, Eq, Debug, Structural)]
pub enum KeyKind {
    Hash,
    List,
    SetType,
    ZSet,
    String,
    Json,
    Stream,
    TimeSeries,
    BloomFilter,
    Unknown,
}

/// The kind of a key by the type name the server gave; none for a type
/// the explorer does not colour.
pub open spec fn spec_key_kind(t: Seq<char>) -> Option<KeyKind> {
    if t == "Hash"@ || t == "hash"@ {
        Some(KeyKind::Hash)
    } else if t == "List"@ || t == "list"@ {
        Some(KeyKind::List)
    } else if t == "Set"@ || t == "set"@ {
        Some(KeyKind::SetType)
    } else if t == "ZSet"@ || t == "zset"@ {
        Some(KeyKind::ZSet)
    } else if t == "String"@ || t == "string"@ {
        Some(KeyKind::String)
    } else if t == "JSON"@ || t == "json"@ || t == "ReJSON-RL"@ || t == "ReJSON"@ {
        Some(KeyKind::Json)
    } else if t == "Stream"@ || t == "stream"@ {
        Some(KeyKind::Stream)
    } else if t == "TSDB-TYPE"@ || t == "tsdb-type"@ {
        Some(KeyKind::TimeSeries)
    } else if t == "MBbloom--"@ || t == "mbbloom--"@ {
        Some(KeyKind::BloomFilter)
    } else if t == "unknown"@ {
        Some(KeyKind::Unknown)
    } else {
        None
    }
}

/// The kind of a key, which picks its colour in the tree and the key
/// information.
pub fn key_kind(key_type: &str) -> (r: Option<KeyKind>)
    ensures
        r == spec_key_kind(key_type@),
{
    if str_eq(key_type, "Hash") || str_eq(key_type, "hash") {
        Some(KeyKind::Hash)
    } else if str_eq(key_type, "List") || str_eq(key_type, "list") {
        Some(KeyKind::List)
    } else if str_eq(key_type, "Set") || str_eq(key_type, "set") {
        Some(KeyKind::SetType)
    } else if str_eq(key_type, "ZSet") || str_eq(key_type, "zset") {
        Some(KeyKind::ZSet)
    } else if str_eq(key_type, "String") || str_eq(key_type, "string") {
        Some(KeyKind::String)
    } else if str_eq(key_type, "JSON") || str_eq(key_type, "json") || str_eq(key_type, "ReJSON-RL")
        || str_eq(key_type, "ReJSON") {
        Some(KeyKind::Json)
    } else if str_eq(key_type, "Stream") || str_eq(key_type, "stream") {
        Some(KeyKind::Stream)
    } else if str_eq(key_type, "TSDB-TYPE") || str_eq(key_type, "tsdb-type") {
        Some(KeyKind::TimeSeries)
    } else if str_eq(key_type, "MBbloom--") || str_eq(key_type, "mbbloom--") {
        Some(KeyKind::BloomFilter)
    } else if str_eq(key_type, "unknown") {
        Some(KeyKind::Unknown)
    } else {
        None
    }
}

/// The key hints of the explorer's footer: those of the open popup, or of
/// the tree, or of the shown value.
pub open spec fn explorer_hints(t: ExplorerTab) -> Seq<(Seq<char>, Seq<char>)> {
    let p = t.popups;
    if p.show_filter {
        seq![
            ("^/"@, if p.filter_mod == FilterMod::Fuzzy { "Pattern"@ } else { "Fuzzy"@ }),
            ("Enter"@, "Do Scan"@),
            ("Esc"@, "Close"@),
        ]
    } else if p.show_create {
        crate::create_key_editor::form_hints(p.create_key_form.editing) + seq![
            ("Enter"@, "Create"@),
            ("Esc"@, "Close"@),
        ]
    } else if p.show_search_popup {
        seq![("^Space"@, "Suggest"@), ("Enter"@, "Apply"@), ("Esc"@, "Close"@)]
    } else if t.current_screen == CurrentScreen::KeysTree {
        seq![("/"@, "Scan"@)] + (if t.has_search_module { seq![("^k"@, "FT.Search"@)] } else { seq![] })
            + seq![
            ("c"@, "Create"@),
            ("d/Del"@, "Delete"@),
            ("r"@, "Rename"@),
            ("↑/j"@, "Up"@),
            ("↓/k"@, "Down"@),
            ("←/h"@, "Close"@),
            ("→/l"@, "Open"@),
        ]
    } else {
        (match t.selected_hash_value {
            Some(_) => seq![
                ("↓/j"@, "Down"@),
                ("↑/k"@, "Up"@),
                ("←/h"@, "Close"@),
                ("^n"@, "Next Page"@),
                ("^p"@, "Prev Page"@),
            ],
            None => seq![],
        }) + (match t.selected_stream_value {
            Some(s) => (if s.opt_for_id { seq![("→/l"@, "Entry"@)] } else { seq![("←/h"@, "Id"@)] })
                + seq![("↑/j"@, "Up"@), ("↓/k"@, "Down"@), ("←/h"@, "Close"@)],
            None => seq![],
        })
    }
}

impl ExplorerTab {
    /// The key hints of the explorer's footer.
    pub fn footer_elements(&self) -> (r: Vec<(String, String)>)
        ensures
            hints(r@) == explorer_hints(*self),
    {
        let mut v: Vec<(String, String)> = Vec::new();
        if self.popups.show_filter {
            match self.popups.filter_mod {
                FilterMod::Fuzzy => push_hint(&mut v, "^/", "Pattern"),
                FilterMod::Pattern => push_hint(&mut v, "^/", "Fuzzy"),
            }
            push_hint(&mut v, "Enter", "Do Scan");
            push_hint(&mut v, "Esc", "Close");
        } else if self.popups.show_create {
            v = self.popups.create_key_form.footer_elements();
            push_hint(&mut v, "Enter", "Create");
            push_hint(&mut v, "Esc", "Close");
        } else if self.popups.show_search_popup {
            v = self.ft_search_panel.footer_elements();
            push_hint(&mut v, "Enter", "Apply");
            push_hint(&mut v, "Esc", "Close");
        } else if self.current_screen == CurrentScreen::KeysTree {
            push_hint(&mut v, "/", "Scan");
            if self.has_search_module {
                push_hint(&mut v, "^k", "FT.Search");
            }
            push_hint(&mut v, "c", "Create");
            push_hint(&mut v, "d/Del", "Delete");
            push_hint(&mut v, "r", "Rename");
            push_hint(&mut v, "↑/j", "Up");
            push_hint(&mut v, "↓/k", "Down");
            push_hint(&mut v, "←/h", "Close");
            push_hint(&mut v, "→/l", "Open");
        } else {
            if let Some(h) = &self.selected_hash_value {
                append_hints(&mut v, h.footer_elements());
                push_hint(&mut v, "←/h", "Close");
                push_hint(&mut v, "^n", "Next Page");
                push_hint(&mut v, "^p", "Prev Page");
            }
            if let Some(sv) = &self.selected_stream_value {
                append_hints(&mut v, sv.footer_elements());
                push_hint(&mut v, "←/h", "Close");
            }
        }
        proof {
            assert(hints(v@) =~= explorer_hints(*self));
        }
        v
    }
}

/// Paging keeps the offset within a value at least a page long, and a page
/// on followed by a page back returns to where it started while the page
/// on stays within the value.
pub proof fn lemma_paging(offset: isize, length: isize)
    requires
        0 <= offset < length,
        length >= PAGE_SIZE,
    ensures
        0 <= next_page(offset, length) < length,
        0 <= prev_page(offset, length) < length,
        offset + PAGE_SIZE < length ==> prev_page(next_page(offset, length), length) == offset,
{
}

} // verus!
