use ratisui::cli_tab::{CliKey, CliSession, Mode};
use ratisui::context::{logger_event, logger_footer, tab_at_column, Context, LoggerEvent};
use ratisui::explorer::{CurrentScreen, FilterMod, RedisKey};
use ratisui::explorer_tab::{
    json_length_query, key_info_data, scan_data, length_query, scan_members, scan_pairs, value_query,
    JsonLengthQuery, LengthQuery, ValueQuery, KEY_SIZE,
    key_kind, open_paths, ExplorerData, ExplorerKey, ExplorerTab, KeyKind, TabStep, TreeMove,
    HASH_VALUE, KEY_TYPE, LENGTH, SCAN_KEYS, STREAM_VALUE, STRING_VALUE, TTL,
};
use ratisui::field::FieldKey;
use ratisui::ft_search::{AttributeInfo, IndexInfo};
use ratisui::ft_search_panel::{FtEditing, FtSearchPanel};
use ratisui::raw_paragraph::{ParagraphOutcome, RawParagraph};
use ratisui::resp::RespValue;
use ratisui::utils::ContentType;
use ratisui::value_tables::{HashValue, ListValue, MouseMove, ScrollBar, StreamView};

fn strs(v: &[&str]) -> Vec<String> {
    v.iter().map(|s| s.to_string()).collect()
}

fn pairs(v: Vec<(String, String)>) -> Vec<(String, String)> {
    v
}

fn hint_list(v: &[(&str, &str)]) -> Vec<(String, String)> {
    v.iter().map(|(a, b)| (a.to_string(), b.to_string())).collect()
}

#[test]
fn list_value_rows_and_selection() {
    let mut list = ListValue::new(strs(&["a\nb", "longer value", "c"]));
    assert_eq!(list.items[0].index, "0");
    assert_eq!(list.items[0].value, "a\\nb");
    assert_eq!(list.items[2].index, "2");
    assert_eq!(list.longest_item_lens, (1, 12));
    assert_eq!(list.selected, Some(0));
    assert_eq!(list.scroll, ScrollBar { content_length: 8, position: 0 });
    assert_eq!(list.color_index, 3);
    list.previous();
    assert_eq!(list.selected, Some(2));
    assert_eq!(list.scroll.position, 8);
    list.next();
    assert_eq!(list.selected, Some(0));
    list.next_color();
    assert_eq!(list.color_index, 0);
    list.previous_color();
    assert_eq!(list.color_index, 3);
    assert!(list.handle_key(FieldKey::Char('j'), true));
    assert_eq!(list.selected, Some(1));
    assert!(list.handle_key(FieldKey::Esc, true));
    assert!(!list.handle_key(FieldKey::Char('j'), false));
    assert!(!list.handle_key(FieldKey::Char('x'), true));
    assert_eq!(list.selected, Some(1));
    assert_eq!(list.footer_elements(), hint_list(&[("Esc", "Escape"), ("↑/j", "Up"), ("↓/k", "Down")]));
}

#[test]
fn hash_value_rows_numbered_from_offset() {
    let data = pairs(vec![
        ("name".to_string(), "line one\nline two".to_string()),
        ("k".to_string(), "v".to_string()),
    ]);
    let mut hash = HashValue::new(data, 100);
    assert_eq!(hash.items[0].index, "100");
    assert_eq!(hash.items[1].index, "101");
    assert_eq!(hash.items[0].value, "line one\\nline two");
    assert_eq!(hash.items[0].origin_value, "line one\nline two");
    assert_eq!(hash.longest_item_lens, (3, 4, 18));
    assert!(hash.handle_mouse(MouseMove::ScrollDown));
    assert_eq!(hash.selected, Some(1));
    assert_eq!(hash.scroll.position, 4);
    assert!(hash.handle_mouse(MouseMove::ScrollDown));
    assert_eq!(hash.selected, Some(0));
    assert!(!hash.handle_mouse(MouseMove::Other));
    assert!(hash.handle_key(FieldKey::Up, true));
    assert_eq!(hash.selected, Some(1));
    assert_eq!(hash.footer_elements(), hint_list(&[("↓/j", "Down"), ("↑/k", "Up")]));
}

#[test]
fn hash_row_numbers_stop_at_the_largest() {
    let data = pairs(vec![("a".to_string(), "1".to_string()), ("b".to_string(), "2".to_string())]);
    let hash = HashValue::new(data, usize::MAX);
    assert_eq!(hash.items[0].index, usize::MAX.to_string());
    assert_eq!(hash.items[1].index, usize::MAX.to_string());
}

fn stream_data() -> Vec<(String, Vec<String>)> {
    vec![
        ("1-0".to_string(), strs(&["f1", "v1", "f2", "value two", "odd"])),
        ("2-0".to_string(), strs(&["g", "w"])),
    ]
}

#[test]
fn stream_view_pairs_fields_and_moves() {
    let mut view = StreamView::new(stream_data());
    assert!(view.opt_for_id);
    assert_eq!(view.items[0].value, pairs(vec![
        ("f1".to_string(), "v1".to_string()),
        ("f2".to_string(), "value two".to_string()),
    ]));
    assert_eq!(view.entry_longest, (2, 9));
    assert_eq!(view.entry_scroll, ScrollBar { content_length: 4, position: 0 });
    assert_eq!(view.id_scroll, ScrollBar { content_length: 4, position: 0 });
    view.next();
    assert_eq!(view.id_selected, Some(1));
    assert_eq!(view.entry_selected, Some(0));
    assert_eq!(view.entry_longest, (1, 1));
    assert_eq!(view.entry_scroll.content_length, 0);
    assert!(view.handle_key(FieldKey::Char('l'), true));
    assert!(!view.opt_for_id);
    assert!(!view.handle_key(FieldKey::Right, true));
    view.previous();
    assert_eq!(view.id_selected, Some(1));
    assert_eq!(view.entry_selected, Some(0));
    assert!(view.handle_key(FieldKey::Left, true));
    assert!(view.opt_for_id);
    assert_eq!(view.footer_elements(), hint_list(&[("→/l", "Entry"), ("↑/j", "Up"), ("↓/k", "Down")]));
}

#[test]
fn stream_view_single_entry_stays() {
    let mut view = StreamView::new(vec![("1-0".to_string(), strs(&["a", "b"]))]);
    view.next();
    assert_eq!(view.id_selected, Some(0));
    assert_eq!(view.id_scroll.position, 0);
}

#[test]
fn raw_paragraph_scrolls_within_reach() {
    let mut p = RawParagraph::new("text".to_string(), Some(ContentType::Json), true);
    p.update(10, 40, 25);
    assert_eq!(p.max_offset(), 15);
    assert_eq!(p.handle_key(CliKey::Char('j'), false, true), ParagraphOutcome::Taken);
    assert_eq!(p.position_y, 3);
    p.scroll_page_down();
    assert_eq!(p.position_y, 13);
    p.scroll_page_down();
    assert_eq!(p.position_y, 15);
    p.scroll_up();
    assert_eq!(p.position_y, 12);
    p.scroll_start();
    assert_eq!(p.position_y, 0);
    p.scroll_up();
    assert_eq!(p.position_y, 0);
    assert_eq!(p.handle_key(CliKey::End, false, true), ParagraphOutcome::Taken);
    assert_eq!(p.position_y, 15);
    assert_eq!(p.handle_key(CliKey::End, false, false), ParagraphOutcome::NotTaken);
    assert_eq!(p.handle_key(CliKey::Char('y'), true, false), ParagraphOutcome::Yank("text".to_string()));
    assert_eq!(p.footer_elements(), hint_list(&[("^y", "Yank"), ("↓/j", "Down"), ("↑/k", "Up")]));
}

#[test]
fn raw_paragraph_row_count_is_cut_to_sixteen_bits() {
    let mut p = RawParagraph::new(String::new(), None, false);
    p.update(5, 10, 65536 + 20);
    assert_eq!(p.max_offset(), 15);
}

fn info(name: &str, prefixes: &[&str], docs: i64) -> IndexInfo {
    IndexInfo {
        name: name.to_string(),
        key_type: "HASH".to_string(),
        prefixes: strs(prefixes),
        attributes: vec![AttributeInfo {
            identifier: "title".to_string(),
            attribute: "title".to_string(),
            kind: "TEXT".to_string(),
        }],
        num_docs: docs,
        max_doc_id: 7,
        total_index_memory_sz_mb_bits: 0,
    }
}

#[test]
fn search_panel_remembers_index_information() {
    let mut panel = FtSearchPanel::new();
    assert_eq!(panel.editing, FtEditing::Index);
    panel.update_data(true, false, Some(strs(&["idx:users", "books"])), None);
    panel.update_data(false, true, None, Some(info("idx:users", &["user:", "u:"], 3)));
    panel.update_data(false, true, None, Some(info("idx:users", &["user:"], 5)));
    assert_eq!(panel.indexes_info.len(), 1);
    let (items, segment) = panel.index_items("USER", &strs(&["0.125M"]));
    assert_eq!(segment, "USER");
    assert_eq!(items.len(), 1);
    assert_eq!(items[0].label.label, "idx:users");
    assert_eq!(items[0].label.detail.as_deref(), Some("0.125M"));
    let doc = items[0].label.description.as_ref().unwrap();
    assert_eq!(doc.syntax, "idx:users");
    assert_eq!(doc.summary, "[user:]");
    assert_eq!(doc.attributes[1], ("num_docs                 ".to_string(), "5".to_string()));
    assert_eq!(doc.attributes[4], ("attributes_count         ".to_string(), "1".to_string()));
    let (all, _) = panel.index_items("", &strs(&["0.125M"]));
    assert_eq!(all.len(), 2);
    assert!(all[1].label.detail.is_none());
    assert!(panel.tab_key(false, "idx:users"));
    assert_eq!(panel.editing, FtEditing::Search);
    assert_eq!(panel.index_info.as_ref().map(|i| i.num_docs), Some(5));
    panel.next("ignored");
    assert_eq!(panel.editing, FtEditing::Index);
    panel.next("missing");
    assert!(panel.index_info.is_none());
    assert_eq!(panel.footer_elements(), hint_list(&[("^Space", "Suggest")]));
}

#[test]
fn search_panel_without_list_suggests_nothing() {
    let panel = FtSearchPanel::new();
    let (items, segment) = panel.index_items("a", &Vec::new());
    assert!(items.is_empty());
    assert_eq!(segment, "");
}

fn key(name: &str, key_type: &str, length: Option<usize>) -> RedisKey {
    let mut k = RedisKey::new(name, key_type);
    k.length = length;
    k
}

#[test]
fn explorer_scans_selects_and_reads_values() {
    let mut tab = ExplorerTab::new();
    let mut scan = ExplorerData::new(String::new());
    scan.add(SCAN_KEYS);
    scan.scan_keys_result = vec![key("user:1", "unknown", None), key("order:1", "unknown", None), key("user:2", "unknown", None)];
    tab.update_data(scan, "user");
    let names: Vec<&str> = tab.scan_keys_result.iter().map(|k| k.name.as_str()).collect();
    assert_eq!(names, vec!["user:1", "user:2"]);
    assert_eq!(tab.tree.children.len(), 1);
    assert_eq!(tab.tree.children[0].name, "user");
    assert!(tab.select_node(Some("user:2".to_string())));
    assert_eq!(tab.popups.selected_key.as_deref(), Some("user:2"));
    assert!(!tab.select_node(Some("user:2".to_string())));
    assert!(!tab.select_node(None));

    let mut answer = ExplorerData::new("user:2".to_string());
    answer.add(KEY_TYPE | LENGTH | TTL | STRING_VALUE);
    answer.key_type = None;
    answer.length = Some(250);
    answer.ttl = Some(60);
    answer.selected_string_value = Some(("{}".to_string(), Some(ContentType::Json)));
    tab.update_data(answer, "user");
    let k = tab.selected_key.as_ref().unwrap();
    assert_eq!(k.key_type, "unknown");
    assert_eq!(k.length, Some(250));
    assert_eq!(k.ttl, Some(60));
    assert_eq!(tab.selected_raw_value.as_ref().unwrap().raw, "{}");

    let mut other = ExplorerData::new("user:1".to_string());
    other.add(KEY_TYPE);
    other.key_type = Some("hash".to_string());
    tab.update_data(other, "user");
    assert_eq!(tab.selected_key.as_ref().unwrap().key_type, "unknown");

    let mut hash = ExplorerData::new("user:2".to_string());
    hash.add(HASH_VALUE | KEY_TYPE);
    hash.key_type = Some("hash".to_string());
    hash.selected_hash_value = Some(vec![("f".to_string(), "v".to_string())]);
    tab.update_data(hash, "user");
    assert_eq!(tab.selected_hash_value.as_ref().unwrap().items[0].key, "f");

    let mut stream = ExplorerData::new("user:2".to_string());
    stream.add(STREAM_VALUE);
    stream.selected_stream_value = Some(stream_data());
    tab.update_data(stream, "user");
    assert_eq!(tab.selected_stream_value.as_ref().unwrap().items.len(), 2);
}

#[test]
fn explorer_pages_through_long_values() {
    let mut tab = ExplorerTab::new();
    assert_eq!(tab.buffer_turning(true, false), None);
    tab.selected_key = Some(key("list", "list", Some(250)));
    assert_eq!(tab.buffer_turning(true, false), Some(100));
    assert_eq!(tab.buffer_turning(true, false), Some(200));
    assert_eq!(tab.buffer_turning(true, false), Some(0));
    assert_eq!(tab.buffer_turning(false, true), Some(150));
    assert_eq!(tab.buffer_turning(false, true), Some(50));
    assert_eq!(tab.buffer_turning(false, false), None);
    tab.selected_key = Some(key("short", "list", Some(99)));
    assert_eq!(tab.buffer_turning(true, false), None);
    assert_eq!(tab.offset, 50);
}

#[test]
fn explorer_keys_on_tree_and_value() {
    let mut tab = ExplorerTab::new();
    assert!(matches!(tab.handle_key(ExplorerKey::Char('j'), true, true, false), TabStep::Tree(TreeMove::DownOrFirst)));
    assert!(matches!(tab.handle_key(ExplorerKey::PageUp, true, true, false), TabStep::Tree(TreeMove::ScrollUp(3))));
    assert!(matches!(tab.handle_key(ExplorerKey::Right, true, true, false), TabStep::Tree(TreeMove::Right)));
    assert!(matches!(tab.handle_key(ExplorerKey::Char('d'), true, true, false), TabStep::Taken));
    assert!(!tab.popups.show_delete_popup);
    assert!(matches!(tab.handle_key(ExplorerKey::Char('/'), true, true, false), TabStep::Taken));
    assert!(tab.popups.show_filter);
    assert!(matches!(tab.handle_key(ExplorerKey::Char('k'), true, false, true), TabStep::ListIndexes));
    assert!(tab.popups.show_search_popup);

    let mut tab = ExplorerTab::new();
    tab.selected_key = Some(key("user:1", "hash", Some(300)));
    match tab.handle_key(ExplorerKey::Char('r'), true, true, false) {
        TabStep::StartRename(name) => assert_eq!(name, "user:1"),
        other => panic!("unexpected {:?}", other),
    }
    assert!(matches!(tab.handle_key(ExplorerKey::Char('l'), true, true, false), TabStep::Taken));
    assert_eq!(tab.current_screen, CurrentScreen::ValuesViewer);
    tab.selected_hash_value = Some(HashValue::new(vec![("a".to_string(), "1".to_string()), ("b".to_string(), "2".to_string())], 0));
    match tab.handle_key(ExplorerKey::Char('n'), true, false, true) {
        TabStep::FetchPage { key_name, key_type, offset } => {
            assert_eq!(key_name, "user:1");
            assert_eq!(key_type, "hash");
            assert_eq!(offset, 100);
        }
        other => panic!("unexpected {:?}", other),
    }
    assert!(matches!(tab.handle_key(ExplorerKey::Down, true, true, false), TabStep::Taken));
    assert_eq!(tab.selected_hash_value.as_ref().unwrap().selected, Some(1));
    assert!(matches!(tab.handle_key(ExplorerKey::Char('h'), true, true, false), TabStep::Taken));
    assert_eq!(tab.current_screen, CurrentScreen::KeysTree);
    assert!(matches!(tab.handle_key(ExplorerKey::Char('`'), true, false, false), TabStep::Taken));
    assert_eq!(tab.current_screen, CurrentScreen::ValuesViewer);
    assert!(matches!(tab.handle_key(ExplorerKey::Char('x'), true, true, false), TabStep::NotTaken));
}

#[test]
fn explorer_footer_follows_the_view() {
    let mut tab = ExplorerTab::new();
    let tree = tab.footer_elements();
    assert_eq!(tree[0], ("/".to_string(), "Scan".to_string()));
    assert_eq!(tree.len(), 8);
    tab.has_search_module = true;
    assert_eq!(tab.footer_elements()[1], ("^k".to_string(), "FT.Search".to_string()));
    tab.popups.show_filter = true;
    tab.popups.filter_mod = FilterMod::Pattern;
    assert_eq!(tab.footer_elements(), hint_list(&[("^/", "Fuzzy"), ("Enter", "Do Scan"), ("Esc", "Close")]));
    tab.popups.show_filter = false;
    tab.popups.show_create = true;
    let create = tab.footer_elements();
    assert_eq!(create.len(), 2 + 6 + 2);
    assert_eq!(create[2], ("1".to_string(), "String".to_string()));
}

#[test]
fn application_and_tab_footers() {
    let mut cli = CliSession::new(10);
    assert_eq!(cli.footer_elements(true), hint_list(&[("Esc", "Stop")]));
    assert_eq!(cli.footer_elements(false), hint_list(&[("Esc", "Normal"), ("^Space", "Suggest")]));
    cli.mode = Mode::Normal;
    assert_eq!(cli.footer_elements(false), hint_list(&[("i", "Insert")]));
    let ctx = Context::new();
    let all = ctx.footer_elements(Vec::new(), Vec::new(), logger_footer());
    assert_eq!(all.len(), 6 + 2 + 4);
    assert_eq!(all[6], ("s".to_string(), "Server".to_string()));
    assert_eq!(all[11], ("^h".to_string(), "Help".to_string()));
}

#[test]
fn filter_opens_the_nodes_above_the_match() {
    assert_eq!(open_paths("user:1:profile", "1"), vec![strs(&["user"])]);
    assert_eq!(open_paths("a:b:c:d", "c"), vec![strs(&["a"]), strs(&["a", "a:b"])]);
    assert!(open_paths("a:b", "zzz").is_empty());
    assert_eq!(open_paths("é:x", "x"), vec![strs(&["é"])]);
    let mut tab = ExplorerTab::new();
    tab.scan_keys_result = vec![key("a:b:c", "unknown", None), key("x:c", "unknown", None)];
    assert_eq!(tab.filter_open_paths("c"), vec![strs(&["a"]), strs(&["a", "a:b"]), strs(&["x"])]);
    assert!(tab.filter_open_paths("").is_empty());
}

#[test]
fn key_kinds_by_type_name() {
    assert_eq!(key_kind("hash"), Some(KeyKind::Hash));
    assert_eq!(key_kind("ReJSON-RL"), Some(KeyKind::Json));
    assert_eq!(key_kind("MBbloom--"), Some(KeyKind::BloomFilter));
    assert_eq!(key_kind("unknown"), Some(KeyKind::Unknown));
    assert_eq!(key_kind("HASH"), None);
}

#[test]
fn tab_bar_clicks() {
    assert_eq!(tab_at_column(0), Some(0));
    assert_eq!(tab_at_column(11), Some(0));
    assert_eq!(tab_at_column(12), None);
    assert_eq!(tab_at_column(13), Some(1));
    assert_eq!(tab_at_column(30), Some(2));
    assert_eq!(tab_at_column(40), None);
    let mut ctx = Context::new();
    assert!(ctx.handle_mouse(false, true, true, 14));
    assert_eq!(ctx.current_tab_index, 1);
    assert!(!ctx.handle_mouse(false, true, false, 14));
    ctx.show_server_switcher = true;
    assert!(ctx.handle_mouse(true, true, true, 0));
    assert!(ctx.show_server_switcher);
    assert!(ctx.handle_mouse(false, true, true, 0));
    assert!(!ctx.show_server_switcher);
    assert_eq!(ctx.current_tab_index, 1);
}

fn bulk(s: &str) -> RespValue {
    RespValue::BulkString { bytes: s.as_bytes().to_vec(), shown: s.to_string() }
}

#[test]
fn reading_key_information() {
    assert_eq!(length_query("Hash"), LengthQuery::Hlen);
    assert_eq!(length_query("ReJSON-RL"), LengthQuery::Json);
    assert_eq!(length_query("TSDB-TYPE"), LengthQuery::TimeSeriesTotal);
    assert_eq!(length_query("whatever"), LengthQuery::Zero);
    assert_eq!(json_length_query("Array"), JsonLengthQuery::ArrLen);
    assert_eq!(json_length_query("number"), JsonLengthQuery::Zero);
    let data = key_info_data("k".to_string(), Some("hash".to_string()), Some(64), Some(-1), Some(3));
    assert_eq!(data.data_flags, KEY_TYPE | LENGTH | KEY_SIZE | TTL);
    assert_eq!(data.ttl, None);
    assert_eq!(data.length, Some(3));
    let data = key_info_data("k".to_string(), None, None, Some(30), Some(3));
    assert_eq!(data.data_flags, TTL);
    assert_eq!(data.ttl, Some(30));
    assert_eq!(data.length, None);
}

#[test]
fn reading_a_page_of_a_value() {
    assert_eq!(value_query("LIST", 100), ValueQuery::ListRange { start: 100, stop: 199 });
    assert_eq!(value_query("hash", 200), ValueQuery::HashScan { cursor: 200, count: 100 });
    assert_eq!(value_query("stream", 0), ValueQuery::StreamRange { count: 100 });
    assert_eq!(value_query("mbbloom--", 0), ValueQuery::Nothing);
    let reply = vec![bulk("0"), RespValue::Array(vec![bulk("a"), RespValue::Int(1), bulk("b")])];
    assert_eq!(scan_members(&reply), Some(strs(&["a", "b"])));
    assert_eq!(
        scan_pairs(&reply),
        Some(vec![("a".to_string(), "".to_string())])
    );
    assert_eq!(scan_members(&vec![bulk("0")]), None);
    assert_eq!(scan_pairs(&vec![bulk("0"), RespValue::Nil]), None);
}

#[test]
fn explorer_settings_and_reset() {
    let mut tab = ExplorerTab::new();
    tab.init_config(500, true);
    assert_eq!(tab.scan_size, 500);
    assert!(tab.try_format);
    tab.popups.show_filter = true;
    tab.popups.show_search_popup = true;
    assert_eq!(tab.reset(), "*");
    assert!(!tab.popups.show_filter && !tab.popups.show_search_popup);
    assert_eq!(tab.client_changed("user"), "*user*");
    tab.popups.filter_mod = FilterMod::Pattern;
    assert_eq!(tab.client_changed("user:*"), "user:*");
}

#[test]
fn log_view_keys() {
    assert_eq!(logger_event(ExplorerKey::Char('h'), true, true), Some(LoggerEvent::Up));
    assert_eq!(logger_event(ExplorerKey::Right, true, true), Some(LoggerEvent::Right));
    assert_eq!(logger_event(ExplorerKey::PageDown, true, true), Some(LoggerEvent::NextPage));
    assert_eq!(logger_event(ExplorerKey::Char('v'), true, false), None);
    assert_eq!(logger_event(ExplorerKey::Char('v'), false, true), None);
    assert_eq!(logger_event(ExplorerKey::Char('x'), true, true), None);
}

#[test]
fn scan_answers() {
    let data = scan_data(Some(strs(&["a", "b"])));
    assert_eq!(data.data_flags, SCAN_KEYS);
    assert_eq!(data.scan_keys_result.len(), 2);
    assert_eq!(data.scan_keys_result[1].name, "b");
    assert_eq!(data.scan_keys_result[1].key_type, "unknown");
    let failed = scan_data(None);
    assert_eq!(failed.data_flags, 0);
    assert!(failed.scan_keys_result.is_empty());
}
