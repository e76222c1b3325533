use ratisui::app_configuration_editor::{normalize_count_text, Options, OptionsOutcome, OptionsTexts, OutputFormat};
use ratisui::configuration::{Database, Databases, Protocol, SshTunnel};
use ratisui::create_key_editor::{Form as KeyForm, KeyType};
use ratisui::database_editor::{empty_texts, normalize_port_text, number_input, Form, FormTexts};
use ratisui::field::{FieldKey, TextEdit};
use ratisui::servers::{constraint_len_calculator, Data, DeleteOutcome, ProfileError, ServerList, ServerOutcome};

fn db(host: &str, port: u16) -> Database {
    Database {
        host: host.to_string(),
        port,
        username: None,
        password: None,
        use_tls: false,
        use_ssh_tunnel: false,
        db: 0,
        protocol: Protocol::RESP3,
        ssh_tunnel: None,
    }
}

#[test]
fn form_walk_skips_hidden_fields() {
    let mut f = Form::default();
    f.enabled_authentication = false;
    f.editing = 3;
    f.next();
    assert_eq!(f.editing, 6);
    f.prev();
    assert_eq!(f.editing, 3);
    f.editing = 9;
    f.next();
    assert_eq!(f.editing, 0);
    f.prev();
    assert_eq!(f.editing, 9);
    f.use_ssh_tunnel = true;
    f.next();
    assert_eq!(f.editing, 10);
    for start in 0..14usize {
        let mut g = Form::default();
        g.enabled_authentication = start % 2 == 0;
        g.use_ssh_tunnel = start % 3 == 0;
        g.editing = 0;
        for _ in 0..start {
            g.next();
        }
        let at = g.editing;
        g.next();
        g.prev();
        assert_eq!(g.editing, at);
    }
}

#[test]
fn form_keys() {
    let mut f = Form::default();
    f.editing = 2;
    assert_eq!(f.handle_key(FieldKey::Char('7'), true, false, "637"), (true, TextEdit::InputThenNormalize));
    assert_eq!(f.handle_key(FieldKey::Char('x'), true, false, "637"), (true, TextEdit::Keep));
    assert_eq!(f.handle_key(FieldKey::Up, true, false, "6379"), (true, TextEdit::Replace("6389".to_string())));
    assert_eq!(f.handle_key(FieldKey::Esc, true, true, ""), (true, TextEdit::CancelSelection));
    assert_eq!(f.handle_key(FieldKey::Esc, true, false, ""), (false, TextEdit::Keep));
    assert_eq!(f.handle_key(FieldKey::Up, false, false, "6379"), (true, TextEdit::Keep));
    f.editing = 8;
    assert_eq!(f.handle_key(FieldKey::Left, true, false, ""), (true, TextEdit::Keep));
    assert_eq!(f.protocol, Protocol::RESP2);
    f.editing = 3;
    f.handle_key(FieldKey::Char('l'), true, false, "");
    assert!(!f.enabled_authentication);
    assert_eq!(normalize_port_text("70000"), "65535");
    assert_eq!(normalize_port_text("x1"), "0");
    assert_eq!(normalize_port_text("8080"), "8080");
}

#[test]
fn form_makes_profile() {
    let mut f = Form::default();
    let mut t = empty_texts();
    let d = f.to_database(&t);
    assert_eq!((d.host.as_str(), d.port, d.db), ("127.0.0.1", 6379, 0));
    assert_eq!(d.username, None);
    assert!(d.ssh_tunnel.is_none());
    t.port = "abc".to_string();
    t.db = "3".to_string();
    t.username = "me".to_string();
    f.use_ssh_tunnel = true;
    let d = f.to_database(&t);
    assert_eq!((d.port, d.db), (6379, 3));
    assert_eq!(d.username, Some("me".to_string()));
    let tunnel = d.ssh_tunnel.unwrap();
    assert_eq!((tunnel.host.as_str(), tunnel.port, tunnel.username.as_str()), ("127.0.0.1", 22, "root"));
    let mut profile = db("10.0.0.1", 7000);
    profile.password = Some("pw".to_string());
    profile.ssh_tunnel = Some(SshTunnel { host: "j".to_string(), port: 2222, username: "u".to_string(), password: "p".to_string() });
    let row = Data::from_database("*", "prod", profile);
    assert_eq!(row.location, "10.0.0.1:7000");
    assert_eq!(row.use_tls, "false");
    assert_eq!(row.protocol, "RESP3");
    let (form, texts): (Form, FormTexts) = Form::from_data(&row);
    assert!(form.enabled_authentication);
    assert_eq!((texts.name.as_str(), texts.port.as_str(), texts.ssh_port.as_str()), ("prod", "7000", "2222"));
}

#[test]
fn server_list_order_and_edits() {
    let databases = Databases {
        default_database: Some("b".to_string()),
        databases: vec![("c".to_string(), db("h3", 3)), ("a".to_string(), db("h1", 1)), ("b".to_string(), db("h2", 2))],
    };
    let mut list = ServerList::new(&databases);
    let names: Vec<&str> = list.items.iter().map(|d| d.name.as_str()).collect();
    assert_eq!(names, vec!["a", "b", "c"]);
    assert_eq!(list.selected, Some(1));
    assert_eq!(list.items[1].selected, "*");
    assert_eq!(list.init_database_name, Some("b".to_string()));
    assert!(list.save_plan().is_none());
    list.next();
    assert_eq!(list.selected, Some(2));
    list.next();
    assert_eq!(list.selected, Some(0));
    list.previous();
    assert_eq!(list.selected, Some(2));
    list.selected = Some(1);
    list.show_delete_popup = true;
    assert_eq!(list.handle_delete_key(FieldKey::Enter, true, true), DeleteOutcome::RefusedSelected);
    list.selected = Some(0);
    list.show_delete_popup = true;
    assert_eq!(list.handle_delete_key(FieldKey::Enter, true, true), DeleteOutcome::Deleted);
    assert_eq!(list.items.len(), 2);
    let plan = list.save_plan().unwrap();
    assert_eq!(plan.default_database, Some("b".to_string()));
    let saved: Vec<&str> = plan.databases.iter().map(|(n, _)| n.as_str()).collect();
    assert_eq!(saved, vec!["b", "c"]);
    let mut texts = empty_texts();
    texts.name = "c".to_string();
    assert_eq!(list.create_profile(&texts), Err(ProfileError::Exists("c".to_string())));
    texts.name = String::new();
    assert_eq!(list.create_profile(&texts), Err(ProfileError::BlankName));
    texts.name = "new".to_string();
    list.show_create_popup = true;
    assert_eq!(list.create_profile(&texts), Ok(()));
    assert!(!list.show_create_popup);
    assert_eq!(list.items[2].location, "127.0.0.1:6379");
    list.mark_selected("new");
    assert_eq!(list.items[2].selected, "*");
    assert_eq!(list.items[0].selected, "");
    let widths = constraint_len_calculator(&list.items);
    assert_eq!(widths, (1, 3, 14, 1, 0, 5, 5));
}

#[test]
fn server_list_keys() {
    let databases = Databases { default_database: None, databases: vec![("a".to_string(), db("h", 1))] };
    let mut list = ServerList::new(&databases);
    let t = empty_texts();
    assert!(matches!(list.handle_key(FieldKey::CtrlC, true, false, false, "", &t), ServerOutcome::NotTaken));
    assert!(matches!(list.handle_key(FieldKey::Char('d'), true, true, false, "", &t), ServerOutcome::Taken));
    assert!(list.show_delete_popup);
    assert!(matches!(
        list.handle_key(FieldKey::Esc, true, true, false, "", &t),
        ServerOutcome::Delete(DeleteOutcome::Closed)
    ));
    assert!(matches!(list.handle_key(FieldKey::Enter, true, true, false, "", &t), ServerOutcome::Switch));
    match list.handle_key(FieldKey::Char('e'), true, true, false, "", &t) {
        ServerOutcome::OpenEdit(texts) => assert_eq!(texts.host, "h"),
        other => panic!("unexpected {:?}", other),
    }
    assert!(list.show_edit_popup);
    assert!(matches!(list.handle_key(FieldKey::Esc, true, true, false, "", &t), ServerOutcome::Taken));
    assert!(!list.show_edit_popup);
    assert!(matches!(list.handle_key(FieldKey::Char('q'), true, true, false, "", &t), ServerOutcome::NotTaken));
}

#[test]
fn options_dialog() {
    let mut o = Options::default();
    let texts = o.init_values(60, 500, true, &Some("dark".to_string()), 100, OutputFormat::Ron, 2000, false);
    assert_eq!((texts.fps.as_str(), texts.scan_size.as_str(), texts.theme.as_str()), ("60", "500", "dark"));
    o.prev();
    assert_eq!(o.editing, 7);
    o.next();
    assert_eq!(o.editing, 0);
    match o.handle_key(FieldKey::Enter, true, false, "", &texts) {
        OptionsOutcome::Save(v) => {
            assert_eq!((v.fps, v.scan_size, v.history_size, v.console_capacity), (60, 500, 100, 2000));
            assert_eq!(v.theme, Some("dark".to_string()));
            assert_eq!(v.cli_output_format, OutputFormat::Ron);
            assert!(v.try_format);
        },
        other => panic!("unexpected {:?}", other),
    }
    let bad = OptionsTexts {
        fps: "300".to_string(),
        scan_size: "x".to_string(),
        theme: String::new(),
        history_size: "7".to_string(),
        console_capacity: "0".to_string(),
    };
    let v = o.values(&bad);
    assert_eq!((v.fps, v.scan_size, v.theme), (0, 0, None));
    assert!(matches!(o.handle_key(FieldKey::CtrlC, false, false, "", &texts), OptionsOutcome::NotTaken));
    assert!(matches!(
        o.handle_key(FieldKey::Right, true, false, "60", &texts),
        OptionsOutcome::Edit(_, TextEdit::Replace(ref s)) if s == "61"
    ));
    o.editing = 3;
    assert!(matches!(
        o.handle_key(FieldKey::Char('d'), true, false, "", &texts),
        OptionsOutcome::Edit(ratisui::app_configuration_editor::Editing::Theme, TextEdit::Input)
    ));
    o.editing = 5;
    o.handle_key(FieldKey::Left, true, false, "", &texts);
    assert_eq!(o.cli_output_format, OutputFormat::Redis);
    assert!(matches!(o.handle_key(FieldKey::Esc, true, false, "", &texts), OptionsOutcome::NotTaken));
    assert_eq!(normalize_count_text("0012"), "12");
    assert_eq!(normalize_count_text("99999999999999999999"), "99999999999999999999");
    assert_eq!(OutputFormat::Ron.name(), "Ron");
}

#[test]
fn create_key_form() {
    let mut f = KeyForm::default().title("New key");
    assert_eq!(f.title, "New key");
    assert_eq!(f.handle_key(FieldKey::Left, true, false, ""), (true, TextEdit::Keep));
    assert_eq!(f.get_type(), KeyType::Stream);
    f.handle_key(FieldKey::Char('l'), true, false, "");
    assert_eq!(f.get_type(), KeyType::String);
    f.handle_key(FieldKey::Char('5'), true, false, "");
    assert_eq!(f.get_type(), KeyType::SortedSet);
    assert_eq!(KeyType::SortedSet.name(), "Sorted Set");
    f.handle_key(FieldKey::BackTab, true, false, "");
    assert_eq!(f.editing, 2);
    assert_eq!(f.handle_key(FieldKey::Up, true, false, "30"), (true, TextEdit::Replace("90".to_string())));
    assert_eq!(f.handle_key(FieldKey::Char('1'), true, false, "30"), (true, TextEdit::InputThenNormalize));
    assert_eq!(f.get_ttl("120"), Some(120));
    assert_eq!(f.get_ttl("-1"), None);
    f.handle_key(FieldKey::Tab, true, false, "");
    assert_eq!(f.editing, 0);
    f.handle_key(FieldKey::Tab, true, false, "");
    assert_eq!(f.handle_key(FieldKey::Char('a'), true, false, "k"), (true, TextEdit::Input));
}

#[test]
fn digit_typed_into_port_field() {
    assert_eq!(number_input("6553", 4, '9'), ("65535".to_string(), 5));
    assert_eq!(number_input("65535", 5, '1'), ("65535".to_string(), 5));
    assert_eq!(number_input("", 0, '7'), ("7".to_string(), 1));
    assert_eq!(number_input("007", 3, '1'), ("71".to_string(), 2));
}

#[test]
fn form_round_trip_keeps_profile() {
    let mut profile = db("10.0.0.2", 6380);
    profile.username = Some("admin".to_string());
    profile.password = Some("secret".to_string());
    profile.db = 5;
    profile.use_ssh_tunnel = true;
    profile.ssh_tunnel = Some(SshTunnel { host: "jump".to_string(), port: 2200, username: "ops".to_string(), password: "".to_string() });
    let row = Data::from_database("", "stage", profile);
    let (form, texts): (Form, FormTexts) = Form::from_data(&row);
    let back = form.to_database(&texts);
    assert_eq!((back.host.as_str(), back.port, back.db), ("10.0.0.2", 6380, 5));
    assert_eq!(back.username, Some("admin".to_string()));
    assert_eq!(back.password, Some("secret".to_string()));
    assert!(back.use_ssh_tunnel);
    let tunnel = back.ssh_tunnel.unwrap();
    assert_eq!((tunnel.host.as_str(), tunnel.port, tunnel.username.as_str(), tunnel.password.as_str()), ("jump", 2200, "ops", ""));
}
