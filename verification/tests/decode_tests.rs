use ratisui::console::{ConsoleData, OutputKind, ScrollOp};
use ratisui::redis_opt::{
    server_mode, ModeError, get_server_info, is_cluster_mode, node_is_master, parse_cluster_nodes, parse_cluster_slots,
    ClusterError,
};
use ratisui::resp::{value_to_lines, RespValue, VerbatimFormat};
use ratisui::utils::{
    bytes_to_string, des_protobuf_fields, deserialize_bytes, escape_bytes,
    escape_string, split_args, ContentType, DecodeFailure, ProtoField,
};

fn bulk(s: &str) -> RespValue {
    RespValue::BulkString { bytes: s.as_bytes().to_vec(), shown: s.to_string() }
}

#[test]
fn escape_keeps_one_line() {
    assert_eq!(escape_string("a\tb\nc\\d\r"), "a\\tb\\nc\\\\d\\r");
    assert_eq!(escape_string("plain"), "plain");
}

#[test]
fn split_command_line() {
    assert_eq!(split_args("set key value"), vec!["set", "key", "value"]);
    assert_eq!(split_args("  get   'a b'  \"c d\" "), vec!["get", "a b", "c d"]);
    assert_eq!(split_args("echo 'open"), vec!["echo", "open"]);
    assert_eq!(split_args(""), Vec::<String>::new());
}

#[test]
fn bytes_shown_as_text() {
    assert_eq!(escape_bytes(&vec![b'a', 0xff, 0x0f]), "a\\xff\u{f}");
    assert_eq!(bytes_to_string(vec![], None, None), "");
    assert_eq!(bytes_to_string(b"hello".to_vec(), None, None), "hello");
    assert_eq!(bytes_to_string(vec![0xc3, 0x28], None, None), "\\xc3(");
    assert_eq!(
        deserialize_bytes(vec![0xc3, 0x28], None, Some("(1: \"x\")".to_string())),
        ("(1: \"x\")".to_string(), Some(ContentType::Ron))
    );
    assert_eq!(
        deserialize_bytes(b"text".to_vec(), Some("Obj".to_string()), None),
        ("Obj".to_string(), Some(ContentType::Ron))
    );
    assert_eq!(ContentType::Json.name(), "Json");
    assert_eq!(ContentType::String.name(), "String");
}

fn field_list(bytes: &Vec<u8>) -> Result<Vec<(u32, ProtoField)>, DecodeFailure> {
    des_protobuf_fields(bytes).map(|m| m.into_iter().collect())
}

#[test]
fn protobuf_edges() {
    assert_eq!(field_list(&vec![0x00]), Err(DecodeFailure::Protobuf));
    assert_eq!(field_list(&vec![0x07, 0x01]), Err(DecodeFailure::Protobuf));
    assert_eq!(field_list(&vec![]), Ok(vec![]));
    assert_eq!(field_list(&vec![0x12, 1, 0xff]), Err(DecodeFailure::Utf8));
    assert_eq!(field_list(&vec![0x18, 5, 0x18, 7]), Ok(vec![(3, ProtoField::Varint(7))]));
    assert_eq!(field_list(&vec![0x0a, 1, b'a', 0x08, 3]), Ok(vec![(1, ProtoField::Varint(3))]));
}

#[test]
fn protobuf_any_fields() {
    let bytes = vec![0x0a, 1, b't', 0x12, 1, b'v', 0x18, 5];
    let fields = field_list(&bytes).unwrap();
    assert_eq!(
        fields,
        vec![
            (1, ProtoField::LengthDelimited("t".to_string())),
            (2, ProtoField::LengthDelimited("v".to_string())),
            (3, ProtoField::Varint(5)),
        ]
    );
    assert!(des_protobuf_fields(&vec![0xff, 0xff, 0xff]).is_err());
}

#[test]
fn reply_lines() {
    let v = RespValue::Array(vec![RespValue::Int(1), RespValue::SimpleString("a".to_string())]);
    assert_eq!(
        value_to_lines(&v, 0),
        vec![(OutputKind::Std, "1) 1".to_string()), (OutputKind::Std, "2) a".to_string())]
    );
    let nested = RespValue::Array(vec![RespValue::Array(vec![RespValue::Int(1), RespValue::Int(2)])]);
    assert_eq!(
        value_to_lines(&nested, 0),
        vec![
            (OutputKind::Std, "1) ".to_string()),
            (OutputKind::Std, "  1)   1".to_string()),
            (OutputKind::Std, "  2)   2".to_string()),
        ]
    );
    assert_eq!(value_to_lines(&RespValue::Nil, 2), vec![(OutputKind::Std, "  (Nil)".to_string())]);
    assert_eq!(value_to_lines(&RespValue::Okay, 0), vec![(OutputKind::Std, "Okay".to_string())]);
    assert_eq!(
        value_to_lines(&bulk("a\tb\nc"), 0),
        vec![(OutputKind::Std, "a\\tb".to_string()), (OutputKind::Std, "c".to_string())]
    );
    let err = RespValue::VerbatimString {
        format: VerbatimFormat::Unknown("ERROR".to_string()),
        text: "bad".to_string(),
    };
    assert_eq!(value_to_lines(&err, 0), vec![(OutputKind::Error, "bad".to_string())]);
}

#[test]
fn console_keeps_capacity() {
    let mut c = ConsoleData::new(2);
    c.push_std("a".to_string());
    c.push_err("b".to_string());
    c.push(OutputKind::Cmd, "c".to_string());
    let lines: Vec<(OutputKind, String)> = c.lines().iter().cloned().collect();
    assert_eq!(lines, vec![(OutputKind::Error, "b".to_string()), (OutputKind::Cmd, "c".to_string())]);
    c.update(1, 10, 5);
    assert_eq!(c.max_offset(), 4);
    assert_eq!(c.position_y(), 4);
    c.scroll(ScrollOp::Up);
    assert_eq!(c.position_y(), 1);
    assert!(!c.is_bottom());
    c.scroll(ScrollOp::End);
    assert_eq!(c.position_y(), 4);
    assert!(c.is_bottom());
}

#[test]
fn server_info_lookup() {
    let info = "# Server\r\nredis_version:7.2.4\r\nredis_mode:cluster\r\n";
    assert_eq!(get_server_info(info, "redis_version"), Some("7.2.4".to_string()));
    assert_eq!(get_server_info(info, "missing"), None);
    assert!(is_cluster_mode(info));
    assert!(!is_cluster_mode("redis_mode:standalone\n"));
}

#[test]
fn cluster_topology() {
    let text = "id1 127.0.0.1:7000@17000 myself,master - 0 0 1 connected 0-5460\nid2 127.0.0.1:7001@17001 slave id1 0 0 1 connected";
    let nodes = parse_cluster_nodes(text);
    assert_eq!(nodes, vec![("id1".to_string(), true), ("id2".to_string(), false)]);
    assert!(node_is_master(&nodes, "id1"));
    assert!(!node_is_master(&nodes, "id2"));
    let slots = RespValue::Array(vec![RespValue::Array(vec![
        RespValue::Int(0),
        RespValue::Int(5460),
        RespValue::Array(vec![bulk("127.0.0.1"), RespValue::Int(7000), bulk("id1")]),
    ])]);
    assert_eq!(
        parse_cluster_slots(&slots),
        Ok(vec![("127.0.0.1".to_string(), 7000, "id1".to_string())])
    );
    assert_eq!(parse_cluster_slots(&RespValue::Nil), Err(ClusterError::NotAnArray));
    let short = RespValue::Array(vec![RespValue::Array(vec![RespValue::Int(0)])]);
    assert_eq!(parse_cluster_slots(&short), Err(ClusterError::MissingNodes));
}

#[test]
fn console_counts_its_lines() {
    let mut console = ConsoleData::new(2);
    assert_eq!(console.total_lines(), 0);
    console.push(OutputKind::Std, "a".to_string());
    assert_eq!(console.total_lines(), 1);
    console.push(OutputKind::Std, "b".to_string());
    console.push(OutputKind::Error, "c".to_string());
    assert_eq!(console.total_lines(), 2);
    assert_eq!(console.lines().len(), 2);
}

#[test]
fn server_mode_from_info_reply() {
    let reply = |text: &str| RespValue::VerbatimString { format: VerbatimFormat::Text, text: text.to_string() };
    assert_eq!(server_mode(&reply("# Server\r\nredis_mode:cluster\r\n")), Ok(true));
    assert_eq!(server_mode(&reply("# Server\r\nredis_mode:standalone\r\n")), Ok(false));
    assert_eq!(server_mode(&reply("# Server\r\nredis_version:7.2.0\r\n")), Err(ModeError::MissingMode));
    assert_eq!(server_mode(&RespValue::SimpleString("redis_mode:cluster".to_string())), Err(ModeError::NotVerbatim));
}
