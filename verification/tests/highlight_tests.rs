use ratisui::highlight_value::{
    fallback_fragments, fold_events, highlight_lines, Grammar, HighlightError, HighlightKind,
    HighlightProcessor, HlEvent, ProcessStep, json_highlights_query, xml_highlights_query,
    JSON_HIGHLIGHTS, XML_HIGHLIGHTS,
};
use ratisui::redis_cli::{command_items, resolve_commands, value_to_string, Json};
use ratisui::completion::{CompletionItemKind, Parameter};
use ratisui::utils::ContentType;

fn text_kinds(v: &[ratisui::highlight_value::HighlightText]) -> Vec<(String, HighlightKind)> {
    v.iter().map(|h| (h.text.clone(), h.kind)).collect()
}

#[test]
fn events_fold_into_fragments() {
    let source = "{\"a\": 1}";
    let events = vec![
        HlEvent::Source(0, 1),
        HlEvent::Start(1),
        HlEvent::Source(1, 4),
        HlEvent::End,
        HlEvent::Source(4, 6),
        HlEvent::Start(4),
        HlEvent::Source(6, 7),
        HlEvent::End,
        HlEvent::Source(7, 8),
    ];
    let frags = fold_events(source, &events, Grammar::Json).unwrap();
    assert_eq!(
        text_kinds(&frags),
        vec![
            ("{".to_string(), HighlightKind::Unknown),
            ("\"a\"".to_string(), HighlightKind::Property),
            (": ".to_string(), HighlightKind::Unknown),
            ("1".to_string(), HighlightKind::Number),
            ("}".to_string(), HighlightKind::Unknown),
        ]
    );
    assert_eq!(fold_events(source, &vec![HlEvent::Source(3, 99)], Grammar::Json).unwrap_err(), HighlightError::Range);
    let ron = fold_events("x", &vec![HlEvent::Start(1), HlEvent::Source(0, 1), HlEvent::End], Grammar::Ron).unwrap();
    assert_eq!(text_kinds(&ron), vec![("x".to_string(), HighlightKind::Keyword)]);
    let xml = fold_events("é", &vec![HlEvent::Start(12), HlEvent::Source(0, 2), HlEvent::End], Grammar::Xml).unwrap();
    assert_eq!(text_kinds(&xml), vec![("é".to_string(), HighlightKind::Constant)]);
    assert!(fold_events("é", &vec![HlEvent::Source(0, 1)], Grammar::Xml).is_err());
}

#[test]
fn processor_paths() {
    let mut p = HighlightProcessor::new("a\tb", Some(ContentType::String));
    assert_eq!(p.source, "a    b");
    assert_eq!(p.process(), Ok(ProcessStep::Done));
    assert_eq!(text_kinds(&p.fragments), vec![("a    b".to_string(), HighlightKind::String)]);
    let mut x = HighlightProcessor::new("<a href=\"x\">t</a>", None);
    assert_eq!(x.process(), Ok(ProcessStep::Done));
    assert!(x.fragments.iter().any(|f| f.kind == HighlightKind::Property && f.text == "href"));
    let joined: String = x.fragments.iter().map(|f| f.text.as_str()).collect();
    assert_eq!(joined, "<a href=\"x\">t</a>");
    let mut plain = HighlightProcessor::new("just words", None);
    let step = plain.process().unwrap();
    assert_eq!(step, ProcessStep::NeedRon);
    plain.finish_ron(None).unwrap();
    assert_eq!(text_kinds(&plain.fragments), vec![("just words".to_string(), HighlightKind::String)]);
    let mut unformatted = HighlightProcessor::new("{\"a\":1}", Some(ContentType::Json));
    unformatted.disable_formatting();
    unformatted.process().unwrap();
    assert_eq!(unformatted.source, "{\"a\":1}");
}

#[test]
fn fragments_become_lines() {
    let frags = fallback_fragments("one\ntwo");
    let lines = highlight_lines(&frags);
    let texts: Vec<Vec<String>> = lines.iter().map(|l| l.iter().map(|s| s.text.clone()).collect()).collect();
    assert_eq!(texts, vec![vec!["one".to_string()], vec!["two".to_string()]]);
    let mut p = HighlightProcessor::new("{\"k\":[1]}", Some(ContentType::Json));
    p.process().unwrap();
    let lines = highlight_lines(&p.fragments);
    let rendered: Vec<String> = lines.iter().map(|l| l.iter().map(|s| s.text.as_str()).collect()).collect();
    assert_eq!(rendered, vec!["{", "  \"k\": [", "    1", "  ]", "}"]);
}

fn obj(entries: Vec<(&str, Json)>) -> Json {
    Json::Object(entries.into_iter().map(|(k, v)| (k.to_string(), v)).collect())
}

fn s(t: &str) -> Json {
    Json::Str(t.to_string())
}

fn command(name: &str, group: &str, args: Vec<Json>) -> Json {
    obj(vec![
        ("command", s(name)),
        ("group", s(group)),
        ("syntax", s(&format!("{name} key"))),
        ("summary", s("does it")),
        ("since", s("1.0.0")),
        ("complexity", s("O(1)")),
        ("acl", s("@read")),
        ("arguments", Json::Array(args)),
    ])
}

#[test]
fn commands_from_descriptions() {
    let cmds = vec![
        command("GET", "string", vec![obj(vec![("type", s("single")), ("name", s("key"))])]),
        command(
            "SET",
            "string",
            vec![
                obj(vec![("type", s("single")), ("name", s("key"))]),
                obj(vec![("type", s("enum")), ("values", Json::Array(vec![s("NX"), s("XX"), s("")]))]),
                obj(vec![("type", s("flag")), ("value", s("GET"))]),
                obj(vec![("type", Json::Number("1".to_string()))]),
            ],
        ),
        obj(vec![("command", s("BROKEN"))]),
        command("LATER", "list", vec![]),
    ];
    let mut items = vec![];
    assert_eq!(resolve_commands(&cmds, &mut items), None);
    assert_eq!(items.len(), 2);
    assert_eq!(items[0].kind, CompletionItemKind::Text);
    assert_eq!(items[0].label.detail, Some("key ".to_string()));
    assert_eq!(items[1].label.detail, Some("key [NX | XX] [GET] ".to_string()));
    match &items[1].parameters[1] {
        Parameter::Enum(choices) => assert_eq!(choices.len(), 2),
        other => panic!("unexpected {:?}", other),
    }
    let doc = items[0].label.description.as_ref().unwrap();
    assert_eq!(doc.attributes[1], ("complexity".to_string(), "O(1)".to_string()));
    let all = command_items(Some(vec![command("HGET", "hash", vec![])]));
    let labels: Vec<&str> = all.iter().map(|i| i.label.label.as_str()).collect();
    assert_eq!(labels, vec!["CLEAR", "EXIT", "RESTART", "HELP", "HGET"]);
    assert_eq!(all[0].insert_text, "clear");
    assert_eq!(all[4].kind, CompletionItemKind::Hash);
    assert_eq!(command_items(None).len(), 4);
    assert_eq!(value_to_string(&Json::Bool(true)), "");
    assert_eq!(value_to_string(&s("x")), "x");
}

#[test]
fn highlight_queries_name_their_captures() {
    assert_eq!(json_highlights_query(), JSON_HIGHLIGHTS);
    assert!(json_highlights_query().contains("key: (_) @property"));
    assert_eq!(xml_highlights_query(), XML_HIGHLIGHTS);
    assert!(xml_highlights_query().contains("(tag_name) @tag"));
}
