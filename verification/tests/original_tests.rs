use ratisui::highlight_value::{HighlightKind, HighlightProcessor, ProcessStep};
use ratisui::list_list::Data;
use ratisui::utils::ContentType;

#[test]
fn constraint_len_calculator() {
    let test_data = vec![
        Data {
            index: "Emirhan Tala".to_string(),
            value: "Cambridgelaan 6XX\n3584 XX Utrecht".to_string(),
        },
        Data {
            index: "thistextis26characterslong".to_string(),
            value: "this line is 31 characters long\nbottom line is 33 characters long".to_string(),
        },
    ];
    let (longest_name_len, longest_address_len) =
        ratisui::list_list::constraint_len_calculator(&test_data);

    assert_eq!(26, longest_name_len);
    assert_eq!(33, longest_address_len);
}

#[test]
fn test_process_json() {
    let json = String::from(r#"{"tags":["1",2,"3"]}"#);
    assert_eq!(r#"{"tags":["1",2,"3"]}"#, json);
    let mut processor = HighlightProcessor::new(&json, Some(ContentType::Json));
    let step = processor.process().unwrap();
    assert_eq!(step, ProcessStep::Done);
    assert_eq!(
        r#"{
  "tags": [
    "1",
    2,
    "3"
  ]
}"#,
        processor.source
    );
    let mut string = String::new();
    for highlight_text in processor.fragments {
        let mut has_highlight = true;
        match highlight_text.kind {
            HighlightKind::String => string.push_str("\x1b[33m"),
            HighlightKind::Number => string.push_str("\x1b[34m"),
            HighlightKind::Constant | HighlightKind::Property => string.push_str("\x1b[35m"),
            HighlightKind::Comment => string.push_str("\x1b[36m"),
            _ => has_highlight = false,
        }
        string.push_str(highlight_text.text.as_str());
        if has_highlight {
            string.push_str("\x1b[0m");
        }
    }
    let result = vec![
        "{",
        "  \x1b[35m\"tags\"\x1b[0m: [",
        "    \x1b[33m\"1\"\x1b[0m,",
        "    \x1b[34m2\x1b[0m,",
        "    \x1b[33m\"3\"\x1b[0m",
        "  ]",
        "}",
    ]
    .join("\n");

    assert_eq!(string, result);
}
