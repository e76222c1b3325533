//! The application's top level: its tabs, how a key travels from the open
//! popup to the current tab and back, and which profile to connect to on
//! start-up.
use crate::configuration::Databases;
use crate::explorer_tab::ExplorerKey;
use crate::field::FieldKey;
use crate::list_list::{spec_str_width, str_width};
use crate::text::str_eq;
use crate::footer::{append_hints, hints, push_hint};
use vstd::prelude::*;

verus! {

/// The tabs, in the order Tab walks them.
#[derive(Clone, Copy, PartialEq, Eq, Debug, Structural)]
pub enum CurrentTab {
    Explorer,
    Cli,
    Logger,
}

/// The tab at a position.
pub open spec fn tab_at(i: int) -> CurrentTab {
    if i == 0 {
        CurrentTab::Explorer
    } else if i == 1 {
        CurrentTab::Cli
    } else {
        CurrentTab::Logger
    }
}

/// What the caller is to do next with a key.
#[derive(Debug, PartialEq, Eq)]
pub enum CtxAction {
    /// Give the key to the server list, then report with `after_server_list`.
    AskServerList,
    /// Give the key to the options dialog, then report with `after_options`.
    AskOptions,
    /// Give the key to the current tab, then report with `after_tab`.
    AskTab,
    /// Show the warning that help is not there yet; the key was taken.
    WarnHelp,
    /// Open a fresh options dialog on the current settings; the key was
    /// taken.
    OpenOptions,
    /// The key is done with; whether it was taken.
    Done(bool),
}

/// The top level's state, apart from the tabs and popups themselves.
#[derive(Debug)]
pub struct Context {
    pub current_tab_index: usize,
    pub show_server_switcher: bool,
    pub show_app_options: bool,
    pub show_cmd_viewer: bool,
}

impl Context {
    /// The explorer tab, no popup, no command viewer.
    pub fn new() -> (r: Context)
        ensures
            r.current_tab_index == 0,
            !r.show_server_switcher,
            !r.show_app_options,
            !r.show_cmd_viewer,
    {
        Context {
            current_tab_index: 0,
            show_server_switcher: false,
            show_app_options: false,
            show_cmd_viewer: false,
        }
    }

    /// The current tab.
    pub fn current_tab(&self) -> (r: CurrentTab)
        requires
            self.current_tab_index < 3,
        ensures
            r == tab_at(self.current_tab_index as int),
    {
        match self.current_tab_index {
            0 => CurrentTab::Explorer,
            1 => CurrentTab::Cli,
            _ => CurrentTab::Logger,
        }
    }

    /// Moves to the next tab, the first after the last.
    pub fn next_tab(&mut self)
        requires
            old(self).current_tab_index < 3,
        ensures
            final(self).current_tab_index == (old(self).current_tab_index + 1) % 3,
            final(self).show_server_switcher == old(self).show_server_switcher,
            final(self).show_app_options == old(self).show_app_options,
            final(self).show_cmd_viewer == old(self).show_cmd_viewer,
    {
        self.current_tab_index = (self.current_tab_index + 1) % 3;
    }

    /// Moves to the previous tab, the last before the first.
    pub fn prev_tab(&mut self)
        requires
            old(self).current_tab_index < 3,
        ensures
            final(self).current_tab_index == (old(self).current_tab_index + 2) % 3,
            final(self).show_server_switcher == old(self).show_server_switcher,
            final(self).show_app_options == old(self).show_app_options,
            final(self).show_cmd_viewer == old(self).show_cmd_viewer,
    {
        self.current_tab_index = (self.current_tab_index + 2) % 3;
    }

    fn after_popups(&mut self, key: FieldKey, ctrl: bool) -> (r: CtxAction)
        ensures
            final(self).current_tab_index == old(self).current_tab_index,
            final(self).show_server_switcher == old(self).show_server_switcher,
            final(self).show_app_options == old(self).show_app_options,
            key == FieldKey::Char('h') && ctrl ==> r == CtxAction::WarnHelp && final(self).show_cmd_viewer == old(self).show_cmd_viewer,
            key == FieldKey::Char('o') && ctrl ==> r == CtxAction::Done(true) && final(self).show_cmd_viewer == !old(self).show_cmd_viewer,
            !(ctrl && (key == FieldKey::Char('h') || key == FieldKey::Char('o'))) ==> r
                == CtxAction::AskTab && final(self).show_cmd_viewer == old(self).show_cmd_viewer,
    {
        if ctrl && key == FieldKey::Char('h') {
            return CtxAction::WarnHelp;
        }
        if ctrl && key == FieldKey::Char('o') {
            self.show_cmd_viewer = !self.show_cmd_viewer;
            return CtxAction::Done(true);
        }
        CtxAction::AskTab
    }

    fn after_server(&mut self, key: FieldKey, ctrl: bool) -> (r: CtxAction)
        ensures
            final(self).current_tab_index == old(self).current_tab_index,
            final(self).show_server_switcher == old(self).show_server_switcher,
            final(self).show_app_options == old(self).show_app_options,
            old(self).show_app_options ==> r == CtxAction::AskOptions && final(self).show_cmd_viewer
                == old(self).show_cmd_viewer,
            !old(self).show_app_options ==> (key == FieldKey::Char('h') && ctrl ==> r
                == CtxAction::WarnHelp) && (key == FieldKey::Char('o') && ctrl ==> r
                == CtxAction::Done(true) && final(self).show_cmd_viewer == !old(self).show_cmd_viewer) && (!(ctrl && (key == FieldKey::Char('h') || key == FieldKey::Char('o'))) ==> r == CtxAction::AskTab && final(self).show_cmd_viewer == old(self).show_cmd_viewer),
    {
        if self.show_app_options {
            return CtxAction::AskOptions;
        }
        self.after_popups(key, ctrl)
    }

    /// A key arrives: the server list has it first where it shows, else the
    /// options dialog, else Ctrl+H warns that help is missing, Ctrl+O shows
    /// or hides the command viewer, and other keys go to the current tab.
    pub fn start(&mut self, key: FieldKey, ctrl: bool) -> (r: CtxAction)
        ensures
            final(self).current_tab_index == old(self).current_tab_index,
            final(self).show_server_switcher == old(self).show_server_switcher,
            final(self).show_app_options == old(self).show_app_options,
            old(self).show_server_switcher ==> r == CtxAction::AskServerList && final(self).show_cmd_viewer == old(self).show_cmd_viewer,
            !old(self).show_server_switcher && old(self).show_app_options ==> r
                == CtxAction::AskOptions && final(self).show_cmd_viewer == old(self).show_cmd_viewer,
            !old(self).show_server_switcher && !old(self).show_app_options ==> (key
                == FieldKey::Char('h') && ctrl ==> r == CtxAction::WarnHelp) && (key
                == FieldKey::Char('o') && ctrl ==> r == CtxAction::Done(true) && final(self).show_cmd_viewer == !old(self).show_cmd_viewer) && (!(ctrl && (key
                == FieldKey::Char('h') || key == FieldKey::Char('o'))) ==> r == CtxAction::AskTab
                && final(self).show_cmd_viewer == old(self).show_cmd_viewer),
    {
        if self.show_server_switcher {
            return CtxAction::AskServerList;
        }
        self.after_server(key, ctrl)
    }

    /// The server list had the key: done where it took it; a plain Esc it
    /// did not take closes it; otherwise the key goes on as in `start`.
    pub fn after_server_list(&mut self, taken: bool, key: FieldKey, plain: bool, ctrl: bool) -> (r:
        CtxAction)
        ensures
            final(self).current_tab_index == old(self).current_tab_index,
            final(self).show_app_options == old(self).show_app_options,
            taken ==> r == CtxAction::Done(true) && final(self).show_server_switcher == old(self).show_server_switcher && final(self).show_cmd_viewer == old(self).show_cmd_viewer,
            !taken && plain && key is Esc ==> r == CtxAction::Done(true)
                && !final(self).show_server_switcher && final(self).show_cmd_viewer == old(self).show_cmd_viewer,
            !taken && !(plain && key is Esc) ==> final(self).show_server_switcher == old(self).show_server_switcher && (old(self).show_app_options ==> r == CtxAction::AskOptions)
                && (!old(self).show_app_options ==> (key == FieldKey::Char('h') && ctrl ==> r
                == CtxAction::WarnHelp) && (key == FieldKey::Char('o') && ctrl ==> r
                == CtxAction::Done(true)) && (!(ctrl && (key == FieldKey::Char('h') || key
                == FieldKey::Char('o'))) ==> r == CtxAction::AskTab)),
    {
        if taken {
            return CtxAction::Done(true);
        }
        if plain && key == FieldKey::Esc {
            self.show_server_switcher = false;
            return CtxAction::Done(true);
        }
        self.after_server(key, ctrl)
    }

    /// The options dialog had the key: done where it took it; a plain Esc
    /// it did not take closes it; otherwise the key goes on.
    pub fn after_options(&mut self, taken: bool, key: FieldKey, plain: bool, ctrl: bool) -> (r:
        CtxAction)
        ensures
            final(self).current_tab_index == old(self).current_tab_index,
            final(self).show_server_switcher == old(self).show_server_switcher,
            taken ==> r == CtxAction::Done(true) && final(self).show_app_options == old(self).show_app_options,
            !taken && plain && key is Esc ==> r == CtxAction::Done(true)
                && !final(self).show_app_options,
            !taken && !(plain && key is Esc) ==> final(self).show_app_options == old(self).show_app_options && (key == FieldKey::Char('h') && ctrl ==> r == CtxAction::WarnHelp)
                && (key == FieldKey::Char('o') && ctrl ==> r == CtxAction::Done(true) && final(self).show_cmd_viewer == !old(self).show_cmd_viewer) && (!(ctrl && (key
                == FieldKey::Char('h') || key == FieldKey::Char('o'))) ==> r == CtxAction::AskTab),
    {
        if taken {
            return CtxAction::Done(true);
        }
        if plain && key == FieldKey::Esc {
            self.show_app_options = false;
            return CtxAction::Done(true);
        }
        self.after_popups(key, ctrl)
    }

    /// The current tab had the key: done where it took it; otherwise Tab and
    /// BackTab change the tab (and the key counts as not taken), a plain `s`
    /// opens the server list and a plain `o` the options dialog.
    pub fn after_tab(&mut self, taken: bool, key: FieldKey, plain: bool) -> (r: CtxAction)
        requires
            old(self).current_tab_index < 3,
        ensures
            final(self).current_tab_index < 3,
            final(self).show_cmd_viewer == old(self).show_cmd_viewer,
            taken ==> r == CtxAction::Done(true) && final(self).current_tab_index == old(self).current_tab_index && final(self).show_server_switcher == old(self).show_server_switcher && final(self).show_app_options == old(self).show_app_options,
            !taken && key is Tab ==> r == CtxAction::Done(false) && final(self).current_tab_index
                == (old(self).current_tab_index + 1) % 3,
            !taken && key is BackTab ==> r == CtxAction::Done(false)
                && final(self).current_tab_index == (old(self).current_tab_index + 2) % 3,
            !taken && plain && key == FieldKey::Char('s') ==> r == CtxAction::Done(true)
                && final(self).show_server_switcher && final(self).current_tab_index == old(self).current_tab_index,
            !taken && plain && key == FieldKey::Char('o') ==> r == CtxAction::OpenOptions
                && final(self).show_app_options && final(self).current_tab_index == old(self).current_tab_index,
            !taken && !(key is Tab || key is BackTab) && !(plain && (key == FieldKey::Char('s')
                || key == FieldKey::Char('o'))) ==> r == CtxAction::Done(false) && final(self).current_tab_index == old(self).current_tab_index,
    {
        if taken {
            return CtxAction::Done(true);
        }
        match key {
            FieldKey::Tab => self.next_tab(),
            FieldKey::BackTab => self.prev_tab(),
            _ => {},
        }
        if plain && key == FieldKey::Char('s') {
            self.show_server_switcher = true;
            return CtxAction::Done(true);
        }
        if plain && key == FieldKey::Char('o') {
            self.show_app_options = true;
            return CtxAction::OpenOptions;
        }
        CtxAction::Done(false)
    }
}

/// The profile to connect to on start-up: the one the command line names,
/// else the saved default; `Err` where that name has no profile.
pub open spec fn spec_default_db(
    target: Option<Seq<char>>,
    default_database: Option<Seq<char>>,
    names: Seq<Seq<char>>,
) -> Result<Option<Seq<char>>, Seq<char>> {
    let chosen = match target {
        Some(t) => Some(t),
        None => default_database,
    };
    match chosen {
        None => Ok(None),
        Some(db) => if names.contains(db) {
            Ok(Some(db))
        } else {
            Err(db)
        },
    }
}

/// Which saved profile to connect to on start-up, by its position: the one
/// the command line names, else the saved default; the name comes back as
/// the error where no profile has it.
#[verifier::loop_isolation(false)]
pub fn apply_db(target: &Option<String>, databases: &Databases) -> (r: Result<Option<usize>, String>)
    ensures
        ({
            let names = databases.databases@.map_values(|p: (String, crate::configuration::Database)| p.0@);
            let spec = spec_default_db(
                crate::configuration::opt_str(*target),
                crate::configuration::opt_str(databases.default_database),
                names,
            );
            match r {
                Ok(None) => spec == Ok::<Option<Seq<char>>, Seq<char>>(None),
                Ok(Some(i)) => i < names.len() && spec == Ok::<Option<Seq<char>>, Seq<char>>(Some(names[i as int])),
                Err(e) => spec == Err::<Option<Seq<char>>, Seq<char>>(e@),
            }
        }),
{
    let ghost names = databases.databases@.map_values(|p: (String, crate::configuration::Database)| p.0@);
    let chosen: Option<&String> = match target {
        Some(t) => Some(t),
        None => match &databases.default_database {
            Some(d) => Some(d),
            None => None,
        },
    };
    let db = match chosen {
        None => return Ok(None),
        Some(db) => db,
    };
    let mut i: usize = 0;
    while i < databases.databases.len()
        invariant
            i <= databases.databases.len(),
            names == databases.databases@.map_values(|p: (String, crate::configuration::Database)| p.0@),
            forall|k: int| 0 <= k < i ==> names[k] != db@,
        decreases databases.databases.len() - i,
    {
        if str_eq(databases.databases[i].0.as_str(), db.as_str()) {
            proof {
                assert(names[i as int] == db@);
                assert(names.contains(db@));
            }
            return Ok(Some(i));
        }
        i = i + 1;
    }
    proof {
        assert(!names.contains(db@));
    }
    Err(db.clone())
}

/// The theme to load: the one the command line names, else the one the
/// settings name.
pub fn theme_choice(argument: &Option<String>, configured: &Option<String>) -> (r: Option<String>)
    ensures
        crate::configuration::opt_str(r) == match *argument {
            Some(a) => Some(a@),
            None => crate::configuration::opt_str(*configured),
        },
{
    match argument {
        Some(a) => Some(a.clone()),
        None => match configured {
            Some(c) => Some(c.clone()),
            None => None,
        },
    }
}

/// What a key does in the log view.
#[derive(Clone, Copy, PartialEq, Eq, Debug, Structural)]
pub enum LoggerEvent {
    Up,
    Down,
    Left,
    Right,
    PrevPage,
    NextPage,
    Focus,
    Hide,
}

/// The log view's event for a key press without modifiers.
pub open spec fn spec_logger_event(key: ExplorerKey) -> Option<LoggerEvent> {
    match key {
        ExplorerKey::Char('h') | ExplorerKey::Up => Some(LoggerEvent::Up),
        ExplorerKey::Char('k') | ExplorerKey::Down => Some(LoggerEvent::Down),
        ExplorerKey::Char('l') | ExplorerKey::Left => Some(LoggerEvent::Left),
        ExplorerKey::Char('j') | ExplorerKey::Right => Some(LoggerEvent::Right),
        ExplorerKey::PageUp => Some(LoggerEvent::PrevPage),
        ExplorerKey::PageDown => Some(LoggerEvent::NextPage),
        ExplorerKey::Char('f') => Some(LoggerEvent::Focus),
        ExplorerKey::Char('v') => Some(LoggerEvent::Hide),
        _ => None,
    }
}

/// The log view's event for a key, where it has one: only presses without
/// modifiers move the view.
pub fn logger_event(key: ExplorerKey, press: bool, plain: bool) -> (r: Option<LoggerEvent>)
    ensures
        r == if press && plain { spec_logger_event(key) } else { None },
{
    if !(press && plain) {
        return None;
    }
    match key {
        ExplorerKey::Char('h') | ExplorerKey::Up => Some(LoggerEvent::Up),
        ExplorerKey::Char('k') | ExplorerKey::Down => Some(LoggerEvent::Down),
        ExplorerKey::Char('l') | ExplorerKey::Left => Some(LoggerEvent::Left),
        ExplorerKey::Char('j') | ExplorerKey::Right => Some(LoggerEvent::Right),
        ExplorerKey::PageUp => Some(LoggerEvent::PrevPage),
        ExplorerKey::PageDown => Some(LoggerEvent::NextPage),
        ExplorerKey::Char('f') => Some(LoggerEvent::Focus),
        ExplorerKey::Char('v') => Some(LoggerEvent::Hide),
        _ => None,
    }
}

/// The key hints of the log tab's footer.
pub fn logger_footer() -> (r: Vec<(String, String)>)
    ensures
        hints(r@) == seq![
            ("↑/j"@, "Up"@),
            ("↓/k"@, "Down"@),
            ("←/h"@, "Level Up"@),
            ("→/l"@, "Level Down"@),
            ("f"@, "Focus"@),
            ("v"@, "Hide"@),
        ],
{
    let mut v: Vec<(String, String)> = Vec::new();
    push_hint(&mut v, "↑/j", "Up");
    push_hint(&mut v, "↓/k", "Down");
    push_hint(&mut v, "←/h", "Level Up");
    push_hint(&mut v, "→/l", "Level Down");
    push_hint(&mut v, "f", "Focus");
    push_hint(&mut v, "v", "Hide");
    proof {
        assert(hints(v@) =~= seq![
            ("↑/j"@, "Up"@),
            ("↓/k"@, "Down"@),
            ("←/h"@, "Level Up"@),
            ("→/l"@, "Level Down"@),
            ("f"@, "Focus"@),
            ("v"@, "Hide"@),
        ]);
    }
    v
}

/// The key hints of the application's footer: those of the open popups,
/// or of the current tab with the keys that open the popups; then the keys
/// that work everywhere.
pub open spec fn context_hints(
    show_server: bool,
    show_options: bool,
    server: Seq<(Seq<char>, Seq<char>)>,
    options: Seq<(Seq<char>, Seq<char>)>,
    tab: Seq<(Seq<char>, Seq<char>)>,
) -> Seq<(Seq<char>, Seq<char>)> {
    (if show_server { server } else { seq![] }) + (if show_options { options } else { seq![] }) + (if !show_server
        && !show_options {
        tab + seq![("s"@, "Server"@), ("o"@, "Options"@)]
    } else {
        seq![]
    }) + seq![("^o"@, "Output"@), ("^F5"@, "Reload"@), ("^c"@, "Quit"@), ("^h"@, "Help"@)]
}

impl Context {
    /// The key hints of the application's footer, given those of the server
    /// list, the options dialog and the current tab.
    pub fn footer_elements(
        &self,
        server: Vec<(String, String)>,
        options: Vec<(String, String)>,
        tab: Vec<(String, String)>,
    ) -> (r: Vec<(String, String)>)
        ensures
            hints(r@) == context_hints(
                self.show_server_switcher,
                self.show_app_options,
                hints(server@),
                hints(options@),
                hints(tab@),
            ),
    {
        let mut v: Vec<(String, String)> = Vec::new();
        if self.show_server_switcher {
            append_hints(&mut v, server);
        }
        if self.show_app_options {
            append_hints(&mut v, options);
        }
        if !self.show_server_switcher && !self.show_app_options {
            append_hints(&mut v, tab);
            push_hint(&mut v, "s", "Server");
            push_hint(&mut v, "o", "Options");
        }
        push_hint(&mut v, "^o", "Output");
        push_hint(&mut v, "^F5", "Reload");
        push_hint(&mut v, "^c", "Quit");
        push_hint(&mut v, "^h", "Help");
        proof {
            assert(hints(v@) =~= context_hints(
                self.show_server_switcher,
                self.show_app_options,
                hints(server@),
                hints(options@),
                hints(tab@),
            ));
        }
        v
    }
}

/// The titles of the tabs, in order, as the tab bar shows them.
pub open spec fn tab_titles() -> Seq<Seq<char>> {
    seq!["  Explorer  "@, "    CLI     "@, "  Logger  "@]
}

/// The tab whose title, from the `i`-th on with the `i`-th starting at
/// `start`, covers the column; one column separates two titles.
pub open spec fn tab_hit(titles: Seq<Seq<char>>, column: int, start: int, i: int) -> Option<int>
    decreases titles.len() - i,
{
    if i < 0 || i >= titles.len() {
        None
    } else {
        let end = start + spec_str_width(titles[i]);
        if start <= column < end {
            Some(i)
        } else {
            tab_hit(titles, column, end + 1, i + 1)
        }
    }
}

/// The tab whose title is drawn at a column of the tab bar, if any.
pub fn tab_at_column(column: u16) -> (r: Option<usize>)
    ensures
        match r {
            Some(i) => tab_hit(tab_titles(), column as int, 0, 0) == Some(i as int),
            None => tab_hit(tab_titles(), column as int, 0, 0) is None,
        },
{
    let titles: [&str; 3] = ["  Explorer  ", "    CLI     ", "  Logger  "];
    let ghost ts = tab_titles();
    let col = column as usize;
    let mut start: usize = 0;
    let mut i: usize = 0;
    while i < 3
        invariant
            i <= 3,
            ts == tab_titles(),
            start <= col + 1,
            col == column as usize,
            col < 65536,
            titles@.len() == 3,
            forall|k: int| 0 <= k < 3 ==> (#[trigger] titles@[k])@ == ts[k],
            tab_hit(ts, col as int, 0, 0) == tab_hit(ts, col as int, start as int, i as int),
        decreases 3 - i,
    {
        if start > col {
            proof {
                lemma_tab_hit_past(ts, col as int, start as int, i as int);
            }
            return None;
        }
        let w = str_width(titles[i]);
        let end = start.saturating_add(w);
        if col < end {
            return Some(i);
        }
        start = end + 1;
        i = i + 1;
    }
    None
}

/// Once the titles start past the column, none covers it.
proof fn lemma_tab_hit_past(titles: Seq<Seq<char>>, column: int, start: int, i: int)
    requires
        start > column,
    ensures
        tab_hit(titles, column, start, i) is None,
    decreases titles.len() - i,
{
    if 0 <= i < titles.len() {
        lemma_tab_hit_past(titles, column, start + spec_str_width(titles[i]) + 1, i + 1);
    }
}

impl Context {
    /// A mouse event.  `took` says whether the open popup, or else the
    /// current tab, took it; `left_up` whether it releases the left button,
    /// `in_tab_bar` whether it is on the tab bar, at `column`.  An open popup
    /// takes every event and closes on a release it did not take; a release
    /// on a tab's title selects that tab.
    pub fn handle_mouse(&mut self, took: bool, left_up: bool, in_tab_bar: bool, column: u16) -> (r: bool)
        ensures
            final(self).show_cmd_viewer == old(self).show_cmd_viewer,
            old(self).show_server_switcher ==> r && final(self).show_server_switcher == (took || !left_up)
                && final(self).show_app_options == old(self).show_app_options
                && final(self).current_tab_index == old(self).current_tab_index,
            !old(self).show_server_switcher && old(self).show_app_options ==> r
                && final(self).show_app_options == (took || !left_up) && !final(self).show_server_switcher
                && final(self).current_tab_index == old(self).current_tab_index,
            !old(self).show_server_switcher && !old(self).show_app_options ==> {
                &&& !final(self).show_server_switcher
                &&& !final(self).show_app_options
                &&& r == (took || (left_up && in_tab_bar))
                &&& final(self).current_tab_index == if !took && left_up && in_tab_bar {
                    match tab_hit(tab_titles(), column as int, 0, 0) {
                        Some(i) => i as usize,
                        None => old(self).current_tab_index,
                    }
                } else {
                    old(self).current_tab_index
                }
            },
    {
        if self.show_server_switcher {
            if !took && left_up {
                self.show_server_switcher = false;
            }
            return true;
        }
        if self.show_app_options {
            if !took && left_up {
                self.show_app_options = false;
            }
            return true;
        }
        if took {
            return true;
        }
        if left_up && in_tab_bar {
            if let Some(i) = tab_at_column(column) {
                self.current_tab_index = i;
            }
            return true;
        }
        false
    }
}

} // verus!
