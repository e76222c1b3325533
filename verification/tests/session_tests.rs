use ratisui::cli_tab::{CliKey, CliOutcome, CliSession, CommandKind, Mode};
use ratisui::completable::{CompletableTextArea, MenuEdit, MenuKey};
use ratisui::completion::CompletionItem;
use ratisui::console::OutputKind;
use ratisui::context::{apply_db, theme_choice, Context, CtxAction};
use ratisui::configuration::{Database, Databases, Protocol};
use ratisui::explorer::FilterMod;
use ratisui::explorer_popups::{ft_search_command, ft_search_keys, ExplorerOutcome, Popups};
use ratisui::field::{FieldKey, TextEdit};
use ratisui::resp::RespValue;

fn lines(s: &CliSession) -> Vec<(OutputKind, String)> {
    s.console.lines().iter().cloned().collect()
}

#[test]
fn commands_are_classified() {
    let mut s = CliSession::new(100);
    assert_eq!(s.commit_command(""), CommandKind::Empty);
    assert!(!s.lock_input);
    assert_eq!(lines(&s), vec![(OutputKind::Cmd, ">_ ".to_string()), (OutputKind::Std, String::new())]);
    assert_eq!(s.commit_command(" get  k "), CommandKind::Command("get  k".to_string()));
    assert!(s.lock_input);
    assert_eq!(s.commit_command("MONITOR"), CommandKind::Monitor);
    assert_eq!(s.commit_command("subscribe news"), CommandKind::Subscribe("news".to_string()));
    assert_eq!(s.commit_command("PSubscribe 'n*'"), CommandKind::PSubscribe("n*".to_string()));
    assert_eq!(s.commit_command("subscribe a b"), CommandKind::Command("subscribe a b".to_string()));
    assert_eq!(s.commit_command("subscribe a b"), CommandKind::Command("subscribe a b".to_string()));
    assert_eq!(s.history.len(), 5);
    assert_eq!(s.history_viewpoint, 5);
    assert_eq!(s.commit_command("Clear"), CommandKind::Clear);
    assert!(s.console.lines().is_empty());
    assert!(!s.lock_input);
    s.command_failed("no connection".to_string());
    assert_eq!(lines(&s), vec![(OutputKind::Error, "no connection".to_string()), (OutputKind::Std, String::new())]);
}

#[test]
fn history_walk() {
    let mut s = CliSession::new(10);
    s.commit_command("a");
    s.commit_command("b");
    s.lock_input = false;
    match s.handle_key(CliKey::Up, true, true, false, false, false) {
        CliOutcome::LoadInput(c) => assert_eq!(c, "b"),
        other => panic!("unexpected {:?}", other),
    }
    match s.handle_key(CliKey::Up, true, true, false, false, false) {
        CliOutcome::LoadInput(c) => assert_eq!(c, "a"),
        other => panic!("unexpected {:?}", other),
    }
    match s.handle_key(CliKey::Down, true, true, false, false, false) {
        CliOutcome::LoadInput(c) => assert_eq!(c, "b"),
        other => panic!("unexpected {:?}", other),
    }
    assert!(matches!(s.handle_key(CliKey::Down, true, true, false, false, false), CliOutcome::ClearInput));
    assert_eq!(s.history_viewpoint, 2);
    assert!(matches!(s.handle_key(CliKey::Enter, true, true, false, false, false), CliOutcome::Commit));
    assert!(matches!(s.handle_key(CliKey::Esc, true, true, false, false, false), CliOutcome::Taken));
    assert_eq!(s.mode, Mode::Normal);
    assert_eq!(Mode::Normal.name(), "Normal");
    assert!(matches!(s.handle_key(CliKey::Char('i'), true, true, false, false, false), CliOutcome::NotTaken));
    assert_eq!(s.mode, Mode::Insert);
    assert!(matches!(s.handle_key(CliKey::Esc, true, true, false, true, false), CliOutcome::Dispose));
    assert!(matches!(s.handle_key(CliKey::Tab, true, true, false, false, false), CliOutcome::NotTaken));
    assert!(s.input_goes_to_cli(true, false));
}

#[test]
fn replies_unlock_input() {
    let mut s = CliSession::new(10);
    s.commit_command("ping");
    s.receive_reply(vec![(OutputKind::Std, "PONG".to_string())], false, Some("PT0.001S".to_string()));
    assert!(!s.lock_input);
    let l = lines(&s);
    assert_eq!(l[1], (OutputKind::Std, "PONG".to_string()));
    assert_eq!(l[2], (OutputKind::Dim, "---".to_string()));
    assert_eq!(l[3], (OutputKind::Dim, "Elapsed: PT0.001S".to_string()));
    assert_eq!(l[4], (OutputKind::Std, String::new()));
}

#[test]
fn completion_menu() {
    let mut m = CompletableTextArea::new();
    m.update_completion_items(
        vec![CompletionItem::default("GET"), CompletionItem::default("GETDEL")],
        "GE".to_string(),
    );
    assert_eq!(m.handle_key(MenuKey::Down, false, true, false, "ge", 2), (false, MenuEdit::Keep));
    assert_eq!(m.handle_key(MenuKey::Char(' '), true, false, false, "ge", 2), (true, MenuEdit::Keep));
    assert!(m.show_menu);
    m.handle_key(MenuKey::Down, false, true, false, "ge", 2);
    assert_eq!(m.selected, Some(1));
    m.handle_key(MenuKey::Down, false, true, false, "ge", 2);
    assert_eq!(m.selected, Some(0));
    m.handle_key(MenuKey::Up, false, true, false, "ge", 2);
    assert_eq!(m.selected, Some(1));
    assert_eq!(
        m.handle_key(MenuKey::Tab, false, false, false, "ge", 2),
        (true, MenuEdit::InsertStr("GETDEL".to_string()))
    );
    assert!(!m.show_menu);
    assert_eq!(m.selected, Some(0));
    m.set_auto_suggestion("get key".to_string());
    assert_eq!(m.get_auto_suggestion("ge"), (2, "t key".to_string()));
    assert_eq!(
        m.handle_key(MenuKey::Right, false, true, false, "ge", 2),
        (true, MenuEdit::InsertStr("t key".to_string()))
    );
    assert_eq!(m.handle_key(MenuKey::Right, false, true, false, "ge", 1), (true, MenuEdit::MoveForward));
    assert_eq!(m.handle_key(MenuKey::Char('x'), false, true, false, "ge", 2), (false, MenuEdit::Input));
    assert!(m.input_applied(true));
    assert!(m.show_menu);
    assert_eq!(m.handle_key(MenuKey::Esc, false, true, false, "ge", 2), (true, MenuEdit::Keep));
    assert_eq!(m.handle_key(MenuKey::Esc, false, true, false, "ge", 2), (false, MenuEdit::Keep));
    assert_eq!(m.handle_key(MenuKey::Enter, false, true, false, "ge", 2), (false, MenuEdit::Keep));
}

#[test]
fn explorer_popups() {
    let mut p = Popups::new();
    p.show_filter = true;
    assert!(matches!(p.handle_filter_key(FieldKey::Char('/'), true, true, false, "u"), ExplorerOutcome::Taken));
    assert_eq!(p.filter_mod, FilterMod::Pattern);
    match p.handle_filter_key(FieldKey::Enter, false, true, false, "user:*") {
        ExplorerOutcome::Scan(pattern) => assert_eq!(pattern, "user:*"),
        other => panic!("unexpected {:?}", other),
    }
    p.filter_mod = FilterMod::Fuzzy;
    match p.handle_filter_key(FieldKey::Enter, false, true, false, "") {
        ExplorerOutcome::Scan(pattern) => assert_eq!(pattern, "*"),
        other => panic!("unexpected {:?}", other),
    }
    p.handle_filter_key(FieldKey::Esc, false, true, false, "");
    assert!(!p.show_filter);
    p.selected_key = Some("old".to_string());
    p.show_rename = true;
    match p.handle_rename_key(FieldKey::Enter, true, false, "  new  ", "us") {
        ExplorerOutcome::Rename { from, to, pattern } => {
            assert_eq!((from.as_str(), to.as_str(), pattern.as_str()), ("old", "new", "*us*"))
        },
        other => panic!("unexpected {:?}", other),
    }
    assert!(p.selected_key.is_none() && !p.show_rename);
    p.show_create = true;
    assert!(matches!(
        p.handle_create_key(FieldKey::Enter, true, true, false, false, "", "", "", ""),
        ExplorerOutcome::BlankKeyName
    ));
    match p.handle_create_key(FieldKey::Enter, true, true, false, false, "", "k", "60", "") {
        ExplorerOutcome::Create { name, ttl, pattern, .. } => {
            assert_eq!((name.as_str(), ttl, pattern.as_str()), ("k", Some(60), "*"))
        },
        other => panic!("unexpected {:?}", other),
    }
    assert!(!p.show_create);
    assert!(matches!(
        p.handle_create_key(FieldKey::Tab, false, true, false, false, "", "k", "", ""),
        ExplorerOutcome::FormEdit(true, TextEdit::Keep)
    ));
    p.selected_key = Some("gone".to_string());
    p.show_delete_popup = true;
    match p.handle_delete_popup_key(FieldKey::Enter, true, true) {
        ExplorerOutcome::Delete(k) => assert_eq!(k, "gone"),
        other => panic!("unexpected {:?}", other),
    }
    p.show_search_popup = true;
    assert!(matches!(p.handle_search_key(false, FieldKey::Enter, true, true), ExplorerOutcome::Search));
    assert!(matches!(p.handle_search_key(false, FieldKey::Esc, true, true), ExplorerOutcome::Taken));
    assert!(!p.show_search_popup);
    assert_eq!(ft_search_command("idx", "@a:1"), Some("FT.SEARCH idx @a:1".to_string()));
    assert_eq!(ft_search_command("", "q"), None);
}

#[test]
fn search_reply_keys() {
    let s = |t: &str| RespValue::SimpleString(t.to_string());
    let reply = RespValue::MapOf(vec![
        (s("total_results"), RespValue::Int(2)),
        (
            s("results"),
            RespValue::Array(vec![
                RespValue::MapOf(vec![(s("id"), s("doc:1")), (s("score"), RespValue::Int(1))]),
                RespValue::MapOf(vec![(s("id"), RespValue::BulkString { bytes: b"doc:2".to_vec(), shown: "doc:2".to_string() })]),
                RespValue::Int(7),
            ]),
        ),
    ]);
    let keys = ft_search_keys(&reply).unwrap();
    let names: Vec<&str> = keys.iter().map(|k| k.name.as_str()).collect();
    assert_eq!(names, vec!["doc:1", "doc:2"]);
    assert!(keys.iter().all(|k| k.key_type == "unknown"));
    assert!(ft_search_keys(&RespValue::Nil).is_none());
}

#[test]
fn key_routing() {
    let mut c = Context::new();
    assert_eq!(c.start(FieldKey::Char('o'), true), CtxAction::Done(true));
    assert!(c.show_cmd_viewer);
    assert_eq!(c.start(FieldKey::Char('h'), true), CtxAction::WarnHelp);
    assert_eq!(c.start(FieldKey::Tab, false), CtxAction::AskTab);
    assert_eq!(c.after_tab(false, FieldKey::Tab, false), CtxAction::Done(false));
    assert_eq!(c.current_tab_index, 1);
    assert_eq!(c.after_tab(false, FieldKey::BackTab, false), CtxAction::Done(false));
    assert_eq!(c.after_tab(false, FieldKey::BackTab, false), CtxAction::Done(false));
    assert_eq!(c.current_tab_index, 2);
    assert_eq!(c.after_tab(false, FieldKey::Char('s'), true), CtxAction::Done(true));
    assert!(c.show_server_switcher);
    assert_eq!(c.start(FieldKey::Esc, false), CtxAction::AskServerList);
    assert_eq!(c.after_server_list(false, FieldKey::Esc, true, false), CtxAction::Done(true));
    assert!(!c.show_server_switcher);
    assert_eq!(c.after_tab(false, FieldKey::Char('o'), true), CtxAction::OpenOptions);
    assert_eq!(c.start(FieldKey::Char('x'), false), CtxAction::AskOptions);
    assert_eq!(c.after_options(true, FieldKey::Char('x'), true, false), CtxAction::Done(true));
    assert_eq!(c.after_options(false, FieldKey::Esc, true, false), CtxAction::Done(true));
    assert!(!c.show_app_options);
}

#[test]
fn startup_profile_and_theme() {
    let d = Database {
        host: "h".to_string(),
        port: 1,
        username: None,
        password: None,
        use_tls: false,
        use_ssh_tunnel: false,
        db: 0,
        protocol: Protocol::RESP3,
        ssh_tunnel: None,
    };
    let dbs = Databases { default_database: Some("b".to_string()), databases: vec![("a".to_string(), Database::from(&d)), ("b".to_string(), d)] };
    assert_eq!(apply_db(&None, &dbs), Ok(Some(1)));
    assert_eq!(apply_db(&Some("a".to_string()), &dbs), Ok(Some(0)));
    assert_eq!(apply_db(&Some("z".to_string()), &dbs), Err("z".to_string()));
    assert_eq!(apply_db(&None, &Databases::empty()), Ok(None));
    assert_eq!(theme_choice(&None, &Some("dark".to_string())), Some("dark".to_string()));
    assert_eq!(theme_choice(&Some("light".to_string()), &Some("dark".to_string())), Some("light".to_string()));
}
