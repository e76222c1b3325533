use ratisui::app::{
    exit_after_key, keep_reading_inputs, next_toast, on_input, on_signal, tick_has_work,
    AppState, BusSignal, InputStep, LoopInput, SignalStep,
};
use ratisui::bus::{publish_msg, try_take_msg, BusError, Channel, Kind, Message};
use ratisui::cli::{AppArguments, Value};
use ratisui::completion::{ArgSpan, CompletionItem, CompletionItemKind, Doc, Parameter, get_items};
use ratisui::configuration::{
    decode_password, encode_password, Configuration, Database, Databases, PasswordError, Protocol,
};
use ratisui::explorer::{build_tree, filter_keys, scan_pattern, split_key, FilterMod, RedisKey, TreeNode};
use ratisui::ft_search::{get_ft_search_arguments, get_search_items, AttributeInfo, IndexInfo};
use ratisui::resp::RespValue;

fn span(arg: &str, start: usize, end: usize) -> ArgSpan {
    ArgSpan { arg: arg.to_string(), quote: None, start, end }
}

#[test]
fn parameter_usage_text() {
    assert_eq!(Parameter::flag("CH", "changed").to_string(), "[CH]");
    assert_eq!(
        Parameter::enums(vec![("NX".to_string(), "".to_string()), ("XX".to_string(), "".to_string())]).to_string(),
        "[NX | XX]"
    );
    assert_eq!(Parameter::arg("MATCH", "pattern", "").to_string(), "[MATCH pattern]");
    assert_eq!(Parameter::single("cursor").to_string(), "cursor");
    assert_eq!(Parameter::many("member").to_string(), "member [member...]");
    let item = CompletionItem::default("ZADD")
        .add_param(Parameter::single("key"))
        .add_param(Parameter::flag("CH", "changed"))
        .build_label();
    assert_eq!(item.label.detail, Some("key [CH] ".to_string()));
    assert_eq!(CompletionItemKind::Flag.name(), "Option");
    let doc = Doc::new().syntax("GET key").summary("gets").attribute("since", "1.0.0");
    assert_eq!(doc.attributes, vec![("since".to_string(), "1.0.0".to_string())]);
}

#[test]
fn command_suggestions() {
    let commands = vec![
        CompletionItem::default("GET"),
        CompletionItem::default("GETDEL"),
        CompletionItem::default("SET").add_param(Parameter::flag("NX", "only new")).add_param(
            Parameter::flag("XX", "only existing"),
        ),
    ];
    let (items, segment) = get_items("ge", 2, &vec![span("ge", 0, 2)], &commands);
    assert_eq!(segment, "GE");
    let labels: Vec<&str> = items.iter().map(|i| i.label.label.as_str()).collect();
    assert_eq!(labels, vec!["GET", "GETDEL"]);
    assert_eq!(items[0].range, (0, 2));
    let (items, segment) = get_items("set k n", 7, &vec![span("set", 0, 3), span("k", 4, 5), span("n", 6, 7)], &commands);
    assert_eq!(segment, "N");
    let labels: Vec<&str> = items.iter().map(|i| i.label.label.as_str()).collect();
    assert_eq!(labels, vec!["NX"]);
    assert_eq!(items[0].kind, CompletionItemKind::Flag);
    assert_eq!(items[0].range, (6, 7));
}

#[test]
fn search_arguments() {
    let args = get_ft_search_arguments(0, -1);
    assert_eq!(args.len(), 26);
    assert_eq!(args[0].label.label, "DIALECT");
    let info = IndexInfo {
        name: "idx".to_string(),
        key_type: "HASH".to_string(),
        prefixes: vec![],
        attributes: vec![
            AttributeInfo { identifier: "age".to_string(), attribute: "age".to_string(), kind: "NUMERIC".to_string() },
            AttributeInfo { identifier: "title".to_string(), attribute: "title".to_string(), kind: "TEXT".to_string() },
        ],
        num_docs: 0,
        max_doc_id: 0,
        total_index_memory_sz_mb_bits: 0,
    };
    let (items, segment) = get_search_items("ti", 2, &vec![span("ti", 0, 2)], Some(&info));
    assert_eq!(segment, "ti");
    assert_eq!(items[0].label.label, "@title");
    assert_eq!(items[0].insert_text, "'@title:\"$end\"'");
    assert_eq!(items[0].kind, CompletionItemKind::Attr);
    assert_eq!(items[0].label.detail, Some("TEXT".to_string()));
    assert!(items.iter().skip(1).all(|i| i.label.label.to_lowercase().contains("ti")));
    let (items, _) = get_search_items("ag", 2, &vec![span("ag", 0, 2)], Some(&info));
    assert_eq!(items[0].insert_text, "'@age$end'");
    let doc = items[0].label.description.as_ref().unwrap();
    assert_eq!(doc.syntax, "@age<op><q>");
    assert!(doc.summary.starts_with("Search by number\n- Equal: @age:[q] | @age==<q>\n"));
    let (items, segment) = get_search_items("", 0, &vec![], None);
    assert_eq!(segment, "");
    assert_eq!(items.len(), 26);
}

#[test]
fn index_info_from_reply() {
    let reply = RespValue::MapOf(vec![
        (RespValue::SimpleString("index_name".to_string()), RespValue::SimpleString("idx".to_string())),
        (RespValue::SimpleString("num_docs".to_string()), RespValue::Int(3)),
    ]);
    let info = IndexInfo::from_resp(&reply);
    assert_eq!(info.name, "idx");
    assert_eq!(info.num_docs, 3);
    let empty = IndexInfo::from_resp(&RespValue::Nil);
    assert_eq!(empty.name, "");
}

#[test]
fn toast_messages() {
    let m = Message::error("boom".to_string()).title("Oops".to_string());
    assert_eq!(m.kind, Kind::Error);
    assert_eq!(m.title, Some("Oops".to_string()));
    assert_eq!(Message::info("i".to_string()).kind, Kind::Info);
    assert_eq!(Message::warning("w".to_string()).kind, Kind::Warning);
    let mut channel = Channel::new();
    assert!(matches!(try_take_msg(&mut channel), Err(BusError::TakeFailed)));
    publish_msg(&mut channel, Message::info("hello".to_string())).unwrap();
    let got = try_take_msg(&mut channel).unwrap();
    assert_eq!(got.msg, "hello");
}

#[test]
fn toast_queue_is_first_in_first_out() {
    let mut channel = Channel::new();
    for text in ["a", "b", "c", "d"] {
        assert_eq!(publish_msg(&mut channel, Message::warning(text.to_string())), Ok(()));
    }
    for text in ["a", "b", "c", "d"] {
        let m = try_take_msg(&mut channel).unwrap();
        assert_eq!(m.msg, text);
        assert_eq!(m.kind, Kind::Warning);
    }
    assert!(matches!(try_take_msg(&mut channel), Err(BusError::TakeFailed)));
}

#[test]
fn arguments_pick_last_target() {
    let values = Value::from_occurrences(vec![
        (3, "target".to_string(), Value::Text("b".to_string())),
        (1, "target".to_string(), Value::Text("a".to_string())),
        (2, "once".to_string(), Value::Bool(true)),
    ]);
    let ids: Vec<&str> = values.iter().map(|(id, _)| id.as_str()).collect();
    assert_eq!(ids, vec!["target", "once", "target"]);
    let args = AppArguments::from_values(values);
    assert_eq!(args.target, Some("b".to_string()));
    assert_eq!(AppArguments::from_values(vec![]).target, None);
}

#[test]
fn configuration_defaults_and_passwords() {
    let c = Configuration::default();
    assert_eq!((c.fps, c.scan_size, c.try_format, c.theme), (30, 2000, false, None));
    let encoded = encode_password("s3cret");
    assert_eq!(encoded, "czNjcmV0");
    assert_eq!(decode_password(&encoded), Ok("s3cret".to_string()));
    assert!(decode_password("%%%").is_err());
    assert_eq!(Protocol::RESP2.name(), "RESP2");
    let db = Database {
        host: "h".to_string(),
        port: 1,
        username: None,
        password: Some("abc".to_string()),
        use_tls: false,
        use_ssh_tunnel: false,
        db: 0,
        protocol: Protocol::RESP3,
        ssh_tunnel: None,
    };
    assert_eq!(db.masked_password(), Some("***".to_string()));
    assert_eq!(Database::from(&db).password, Some("abc".to_string()));
    let dbs = Databases::empty();
    assert!(dbs.databases.is_empty());
    let _ = PasswordError::Base64;
}

#[test]
fn key_filters_and_tree() {
    assert_eq!(scan_pattern(FilterMod::Fuzzy, ""), "*");
    assert_eq!(scan_pattern(FilterMod::Fuzzy, "user"), "*user*");
    assert_eq!(scan_pattern(FilterMod::Pattern, "user:*"), "user:*");
    let keys = vec![RedisKey::new("user:1", "string"), RedisKey::new("order:1", "hash"), RedisKey::new("user", "set")];
    let names: Vec<String> = filter_keys(FilterMod::Pattern, "user*", keys).into_iter().map(|k| k.name).collect();
    assert_eq!(names, vec!["user:1", "user"]);
    let keys = vec![RedisKey::new("a:b", "string"), RedisKey::new("a:c", "hash"), RedisKey::new("d", "list")];
    assert_eq!(split_key("a:b:c", ':'), vec!["a", "b", "c"]);
    let tree: TreeNode = build_tree(&keys, ':');
    let top: Vec<&str> = tree.children.iter().map(|c| c.name.as_str()).collect();
    assert_eq!(top, vec!["a", "d"]);
    let a = &tree.children[0];
    let under_a: Vec<(&str, &str)> = a.children.iter().map(|c| (c.name.as_str(), c.id.as_str())).collect();
    assert_eq!(under_a, vec![("b", "a:b"), ("c", "a:c")]);
    assert_eq!(a.children[1].key_type, Some("hash".to_string()));
    assert_eq!(tree.children[1].key_type, Some("list".to_string()));
}

#[test]
fn tree_insert_gives_full_ids() {
    let mut root = TreeNode::new();
    let path: Vec<String> = vec!["a".to_string(), "b".to_string(), "c".to_string()];
    root.insert(&path, 0, "string", ":");
    let a = &root.children[0];
    assert_eq!(a.id, "a");
    assert_eq!(a.key_type, None);
    let b = &a.children[0];
    assert_eq!(b.id, "a:b");
    let c = &b.children[0];
    assert_eq!(c.id, "a:b:c");
    assert_eq!(c.key_type, Some("string".to_string()));
    assert!(c.children.is_empty());
    let other: Vec<String> = vec!["a".to_string(), "d".to_string()];
    root.insert(&other, 0, "hash", ":");
    assert_eq!(root.children.len(), 1);
    assert_eq!(root.children[0].id, "a");
    assert_eq!(root.children[0].children[1].id, "a:d");
    root.insert(&other, 2, "set", ":");
    assert_eq!(root.children[0].children[1].key_type, Some("hash".to_string()));
}

#[test]
fn run_loop_steps() {
    let mut state = AppState::Running;
    assert_eq!(on_signal(&mut state, BusSignal::Tick), SignalStep::Proceed);
    assert_eq!(state, AppState::Running);
    assert_eq!(on_signal(&mut state, BusSignal::Other), SignalStep::Forward);
    assert_eq!(on_signal(&mut state, BusSignal::Exit), SignalStep::Destroy);
    assert_eq!(state, AppState::Closing);
    let mut state = AppState::Running;
    assert_eq!(on_signal(&mut state, BusSignal::Restart), SignalStep::Restart);
    assert_eq!(state, AppState::Closed);
    assert_eq!(on_input(LoopInput::Key { press: true, ctrl_f5: true }), InputStep::Reset);
    assert_eq!(on_input(LoopInput::Key { press: true, ctrl_f5: false }), InputStep::HandleKey);
    assert_eq!(on_input(LoopInput::Key { press: false, ctrl_f5: false }), InputStep::Ignore);
    assert_eq!(on_input(LoopInput::Mouse), InputStep::HandleMouse);
    assert_eq!(on_input(LoopInput::Resize(63, 40)), InputStep::TooSmall);
    assert_eq!(on_input(LoopInput::Resize(80, 15)), InputStep::TooSmall);
    assert_eq!(on_input(LoopInput::Resize(64, 16)), InputStep::Ignore);
    assert!(exit_after_key(false, true));
    assert!(!exit_after_key(true, true));
    assert!(!exit_after_key(false, false));
    assert!(keep_reading_inputs(50));
    assert!(!keep_reading_inputs(51));
    assert!(!tick_has_work(false, false, false, false));
    assert!(tick_has_work(false, false, true, false));
    let shown = next_toast(None, Ok(Message::info("t".to_string())));
    assert_eq!(shown.as_ref().map(|m| m.msg.clone()), Some("t".to_string()));
    let kept = next_toast(shown, Err(BusError::TakeFailed));
    assert_eq!(kept.map(|m| m.msg), Some("t".to_string()));
}

fn tree_shape(node: &TreeNode) -> Vec<(String, String, Option<String>, usize)> {
    let mut out = vec![(node.name.clone(), node.id.clone(), node.key_type.clone(), node.children.len())];
    for child in &node.children {
        out.extend(tree_shape(child));
    }
    out
}

#[test]
fn tree_insert_order_and_repeat() {
    let p: Vec<String> = vec!["user".to_string(), "1".to_string()];
    let q: Vec<String> = vec!["user".to_string(), "2".to_string(), "x".to_string()];
    let mut one = TreeNode::new();
    one.insert(&p, 0, "string", ":");
    one.insert(&q, 0, "hash", ":");
    let mut two = TreeNode::new();
    two.insert(&q, 0, "hash", ":");
    two.insert(&p, 0, "string", ":");
    assert_eq!(tree_shape(&one), tree_shape(&two));
    let once = tree_shape(&one);
    one.insert(&p, 0, "string", ":");
    assert_eq!(tree_shape(&one), once);
}
