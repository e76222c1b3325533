//! The command-line tab: its modes, the history of entered commands and how
//! the arrows walk it, what a committed command turns into, and how replies
//! land in the console.
use crate::console::{
    ConsoleData, ConsoleView, OutputKind, ScrollOp, line_view, pushed_all, pushed_lines,
    scrolled,
};
use crate::text::{
    eq_ignore_ascii_case, spec_eq_ignore_ascii_case, spec_trim, strs_view, trim,
};
use crate::utils::{spec_split_args, split_args};
use crate::footer::{hints, push_hint};
use vstd::prelude::*;

verus! {

/// The tab's input mode.
#[derive(Clone, Copy, PartialEq, Eq, Debug, Structural)]
pub enum Mode {
    /// Keys go to the command input.
    Insert,
    /// Keys scroll the output.
    Normal,
}

impl Mode {
    /// The mode's name.
    pub fn name(&self) -> (r: String)
        ensures
            r@ == (match *self {
                Mode::Insert => "Insert"@,
                Mode::Normal => "Normal"@,
            }),
    {
        match self {
            Mode::Insert => String::from_str("Insert"),
            Mode::Normal => String::from_str("Normal"),
        }
    }
}

impl Default for Mode {
    fn default() -> (r: Self)
        ensures
            r == Mode::Insert,
    {
        Mode::Insert
    }
}

/// A key as the tab sees it.
#[derive(Clone, Copy, PartialEq, Eq, Debug, Structural)]
pub enum CliKey {
    Esc,
    Home,
    End,
    Up,
    Down,
    PageUp,
    PageDown,
    Enter,
    Tab,
    BackTab,
    Char(char),
    Other,
}

/// The tab's state, apart from the input widget and the worker that runs
/// commands.
pub struct CliSession {
    pub mode: Mode,
    pub lock_input: bool,
    pub history: Vec<String>,
    pub history_viewpoint: usize,
    pub console: ConsoleData,
}

/// What a key did, and what is left for the caller to do.
#[derive(Debug)]
pub enum CliOutcome {
    /// The key was not taken.
    NotTaken,
    /// The key was taken; nothing is left to do.
    Taken,
    /// Stop listening to the monitor or subscription.
    Dispose,
    /// Put this command into a fresh input.
    LoadInput(String),
    /// Replace the input with a fresh, empty one.
    ClearInput,
    /// Commit the input's text with `commit_command`.
    Commit,
}

/// What a committed command asks for.
#[derive(Debug, PartialEq, Eq)]
pub enum CommandKind {
    /// The command was empty.
    Empty,
    /// `clear`: the console was emptied.
    Clear,
    /// `monitor`: listen to every command the server runs.
    Monitor,
    /// `subscribe <channel>`.
    Subscribe(String),
    /// `psubscribe <pattern>`.
    PSubscribe(String),
    /// Any other command, to be run as it is (trimmed).
    Command(String),
}

/// The scroll a key makes on the output, where it makes one; `ctrl` says
/// whether Control was the only modifier.
pub open spec fn scroll_of(key: CliKey, ctrl: bool, insert: bool) -> Option<ScrollOp> {
    if insert {
        match key {
            CliKey::Home => if ctrl { Some(ScrollOp::Start) } else { None },
            CliKey::End => if ctrl { Some(ScrollOp::End) } else { None },
            CliKey::Char(c) => if ctrl && c == 'k' {
                Some(ScrollOp::Up)
            } else if ctrl && c == 'j' {
                Some(ScrollOp::Down)
            } else {
                None
            },
            CliKey::PageUp => Some(ScrollOp::PageUp),
            CliKey::PageDown => Some(ScrollOp::PageDown),
            _ => None,
        }
    } else {
        match key {
            CliKey::Home => Some(ScrollOp::Start),
            CliKey::End => Some(ScrollOp::End),
            CliKey::Up => Some(ScrollOp::Up),
            CliKey::Down => Some(ScrollOp::Down),
            CliKey::Char(c) => if c == 'k' {
                Some(ScrollOp::Up)
            } else if c == 'j' {
                Some(ScrollOp::Down)
            } else {
                None
            },
            CliKey::PageUp => Some(ScrollOp::PageUp),
            CliKey::PageDown => Some(ScrollOp::PageDown),
            _ => None,
        }
    }
}

fn scroll_for(key: CliKey, ctrl: bool, insert: bool) -> (r: Option<ScrollOp>)
    ensures
        r == scroll_of(key, ctrl, insert),
{
    if insert {
        match key {
            CliKey::Home => if ctrl { Some(ScrollOp::Start) } else { None },
            CliKey::End => if ctrl { Some(ScrollOp::End) } else { None },
            CliKey::Char(c) => if ctrl && c == 'k' {
                Some(ScrollOp::Up)
            } else if ctrl && c == 'j' {
                Some(ScrollOp::Down)
            } else {
                None
            },
            CliKey::PageUp => Some(ScrollOp::PageUp),
            CliKey::PageDown => Some(ScrollOp::PageDown),
            _ => None,
        }
    } else {
        match key {
            CliKey::Home => Some(ScrollOp::Start),
            CliKey::End => Some(ScrollOp::End),
            CliKey::Up => Some(ScrollOp::Up),
            CliKey::Down => Some(ScrollOp::Down),
            CliKey::Char(c) => if c == 'k' {
                Some(ScrollOp::Up)
            } else if c == 'j' {
                Some(ScrollOp::Down)
            } else {
                None
            },
            CliKey::PageUp => Some(ScrollOp::PageUp),
            CliKey::PageDown => Some(ScrollOp::PageDown),
            _ => None,
        }
    }
}

/// The history after committing `command`: it is added unless it repeats
/// the last one.
pub open spec fn history_after(history: Seq<Seq<char>>, command: Seq<char>) -> Seq<Seq<char>> {
    if history.len() > 0 && history.last() == command {
        history
    } else {
        history.push(command)
    }
}

/// What a non-empty command asks for, from its trimmed text.
pub open spec fn command_kind(trimmed: Seq<char>) -> (int, Seq<char>) {
    // 1 clear, 2 monitor, 3 subscribe, 4 psubscribe, 5 any other command;
    // the second part is the channel, the pattern or the command.
    let args = spec_split_args(trimmed);
    if spec_eq_ignore_ascii_case("clear"@, trimmed) {
        (1, seq![])
    } else if args.len() == 1 && spec_eq_ignore_ascii_case("monitor"@, args[0]) {
        (2, seq![])
    } else if args.len() == 2 && spec_eq_ignore_ascii_case("subscribe"@, args[0]) {
        (3, args[1])
    } else if args.len() == 2 && spec_eq_ignore_ascii_case("psubscribe"@, args[0]) {
        (4, args[1])
    } else {
        (5, trimmed)
    }
}

/// The view of a command kind in the numbering of `command_kind` (0 for
/// an empty command).
pub open spec fn kind_code(k: CommandKind) -> (int, Seq<char>) {
    match k {
        CommandKind::Empty => (0, seq![]),
        CommandKind::Clear => (1, seq![]),
        CommandKind::Monitor => (2, seq![]),
        CommandKind::Subscribe(s) => (3, s@),
        CommandKind::PSubscribe(s) => (4, s@),
        CommandKind::Command(s) => (5, s@),
    }
}

/// The line that echoes a command.
pub open spec fn echo_line(command: Seq<char>) -> (OutputKind, Seq<char>) {
    (OutputKind::Cmd, ">_ "@ + command)
}

impl CliSession {
    /// A fresh tab in insert mode, with an empty history and a console that
    /// keeps at most `capacity` lines.
    pub fn new(capacity: usize) -> (r: CliSession)
        ensures
            r.mode == Mode::Insert,
            !r.lock_input,
            r.history@.len() == 0,
            r.history_viewpoint == 0,
            r.console.wf(),
            r.console@.lines.len() == 0,
            r.console@.capacity == capacity,
    {
        CliSession {
            mode: Mode::Insert,
            lock_input: false,
            history: Vec::new(),
            history_viewpoint: 0,
            console: ConsoleData::new(capacity),
        }
    }

    /// Whether a key goes to the command input first: in insert mode, while
    /// not listening and not waiting for a reply, for a key press.
    pub fn input_goes_to_cli(&self, press: bool, listening: bool) -> (r: bool)
        ensures
            r == (press && !listening && self.mode == Mode::Insert && !self.lock_input),
    {
        press && !listening && self.mode == Mode::Insert && !self.lock_input
    }

    /// Handles a key.  While listening, Esc stops listening and the other
    /// keys scroll the output; all keys are taken.  In normal mode, `i`
    /// returns to insert mode and the other keys scroll.  In insert mode a
    /// key the input took (`cli_taken`) is done; otherwise Esc goes to
    /// normal mode, Enter commits the input, Tab and BackTab are not taken,
    /// Up and Down walk the history, and the control keys scroll.  Keys
    /// that are not presses are not taken, but while listening.
    pub fn handle_key(
        &mut self,
        key: CliKey,
        press: bool,
        plain: bool,
        ctrl: bool,
        listening: bool,
        cli_taken: bool,
    ) -> (r: CliOutcome)
        requires
            old(self).console.wf(),
        ensures
            final(self).console.wf(),
            final(self).history@ == old(self).history@,
            final(self).lock_input == old(self).lock_input,
            listening ==> r == (if press && key is Esc {
                CliOutcome::Dispose
            } else {
                CliOutcome::Taken
            }) && final(self).mode == old(self).mode && final(self).history_viewpoint == old(
                self).history_viewpoint && final(self).console@ == (if press && !(key is Esc) {
                match scroll_of(key, false, false) {
                    Some(op) => scrolled(old(self).console@, op),
                    None => old(self).console@,
                }
            } else {
                old(self).console@
            }),
            !listening && !press ==> r is NotTaken && final(self).mode == old(self).mode
                && final(self).console@ == old(self).console@,
            !listening && press && old(self).mode == Mode::Normal ==> r is NotTaken && final(
                self).history_viewpoint == old(self).history_viewpoint && (if key == CliKey::Char(
                'i') && plain {
                final(self).mode == Mode::Insert && final(self).console@ == old(self).console@
            } else {
                final(self).mode == Mode::Normal && final(self).console@ == match scroll_of(
                    key,
                    false,
                    false,
                ) {
                    Some(op) => scrolled(old(self).console@, op),
                    None => old(self).console@,
                }
            }),
            !listening && press && old(self).mode == Mode::Insert && cli_taken
                && !old(self).lock_input ==> r is Taken && final(self).mode == Mode::Insert
                && final(self).console@ == old(self).console@ && final(self).history_viewpoint
                == old(self).history_viewpoint,
            !listening && press && old(self).mode == Mode::Insert && !(cli_taken
                && !old(self).lock_input) ==> ({
                let h = old(self).history@;
                let vp = old(self).history_viewpoint;
                if key is Esc {
                    r is Taken && final(self).mode == Mode::Normal && final(self).console@ == old(
                        self).console@
                } else if key is Enter {
                    r is Commit && final(self).mode == Mode::Insert && final(self).console@ == old(
                        self).console@
                } else if key is Tab || key is BackTab {
                    r is NotTaken && final(self).mode == Mode::Insert
                } else if key is Up {
                    let up: nat = if vp >= 1 { (vp - 1) as nat } else { 0 };
                    final(self).history_viewpoint == up && final(self).mode == Mode::Insert
                        && final(self).console@ == old(self).console@ && if up < h.len() {
                        r matches CliOutcome::LoadInput(c) && c@ == h[up as int]@
                    } else {
                        r is Taken
                    }
                } else if key is Down {
                    final(self).mode == Mode::Insert && final(self).console@ == old(self).console@
                        && if h.len() > 0 && vp < h.len() - 1 {
                        final(self).history_viewpoint == vp + 1 && (r matches CliOutcome::LoadInput(
                            c,
                        ) && c@ == h[vp + 1]@)
                    } else {
                        final(self).history_viewpoint == h.len() && r is ClearInput
                    }
                } else {
                    r is Taken && final(self).mode == Mode::Insert
                        && final(self).history_viewpoint == vp && final(self).console@ == match scroll_of(
                        key,
                        ctrl,
                        true,
                    ) {
                        Some(op) => scrolled(old(self).console@, op),
                        None => old(self).console@,
                    }
                }
            }),
    {
        if listening {
            if press {
                if let CliKey::Esc = key {
                    return CliOutcome::Dispose;
                }
                if let Some(op) = scroll_for(key, false, false) {
                    self.console.scroll(op);
                }
            }
            return CliOutcome::Taken;
        }
        if !press {
            return CliOutcome::NotTaken;
        }
        match self.mode {
            Mode::Normal => {
                if key == CliKey::Char('i') && plain {
                    self.mode = Mode::Insert;
                } else if let Some(op) = scroll_for(key, false, false) {
                    self.console.scroll(op);
                }
                CliOutcome::NotTaken
            },
            Mode::Insert => {
                if !self.lock_input && cli_taken {
                    return CliOutcome::Taken;
                }
                match key {
                    CliKey::Esc => {
                        self.mode = Mode::Normal;
                        CliOutcome::Taken
                    },
                    CliKey::Enter => CliOutcome::Commit,
                    CliKey::Tab | CliKey::BackTab => CliOutcome::NotTaken,
                    CliKey::Up => {
                        self.history_viewpoint = self.history_viewpoint.saturating_sub(1);
                        if self.history_viewpoint < self.history.len() {
                            CliOutcome::LoadInput(self.history[self.history_viewpoint].clone())
                        } else {
                            CliOutcome::Taken
                        }
                    },
                    CliKey::Down => {
                        if self.history_viewpoint < self.history.len().saturating_sub(1) {
                            self.history_viewpoint = self.history_viewpoint + 1;
                            CliOutcome::LoadInput(self.history[self.history_viewpoint].clone())
                        } else {
                            self.history_viewpoint = self.history.len();
                            CliOutcome::ClearInput
                        }
                    },
                    _ => {
                        if let Some(op) = scroll_for(key, ctrl, true) {
                            self.console.scroll(op);
                        }
                        CliOutcome::Taken
                    },
                }
            },
        }
    }
}

impl CliSession {
    /// Commits a command: echoes it; an empty command only adds an empty
    /// line.  Otherwise the command joins the history (unless it repeats the
    /// last one), the history walk starts over after it, and its trimmed
    /// text decides: `clear` empties the console, `monitor`, `subscribe` and
    /// `psubscribe` start listening, anything else is run.  The input stays
    /// locked until the reply, but for an empty command and `clear`.
    pub fn commit_command(&mut self, command: &str) -> (r: CommandKind)
        requires
            old(self).console.wf(),
        ensures
            final(self).console.wf(),
            final(self).mode == old(self).mode,
            final(self).console@.capacity == old(self).console@.capacity,
            command@.len() == 0 ==> r == CommandKind::Empty && !final(self).lock_input
                && final(self).history@ == old(self).history@ && final(self).history_viewpoint
                == old(self).history_viewpoint && final(self).console@ == (ConsoleView {
                lines: pushed_lines(
                    pushed_lines(
                        old(self).console@.lines,
                        old(self).console@.capacity,
                        echo_line(command@),
                    ),
                    old(self).console@.capacity,
                    (OutputKind::Std, seq![]),
                ),
                ..old(self).console@
            }),
            command@.len() > 0 ==> ({
                let (code, arg) = command_kind(spec_trim(command@));
                &&& strs_view(final(self).history@) == history_after(
                    strs_view(old(self).history@),
                    command@,
                )
                &&& final(self).history_viewpoint == final(self).history@.len()
                &&& kind_code(r) == (code, arg)
                &&& final(self).lock_input == (code != 1)
                &&& if code == 1 {
                    final(self).console@.lines.len() == 0
                } else {
                    final(self).console@ == (ConsoleView {
                        lines: pushed_lines(
                            old(self).console@.lines,
                            old(self).console@.capacity,
                            echo_line(command@),
                        ),
                        ..old(self).console@
                    })
                }
            }),
    {
        self.lock_input = true;
        let mut echo: Vec<char> = Vec::new();
        echo.push('>');
        echo.push('_');
        echo.push(' ');
        crate::text::push_str_chars(&mut echo, command);
        proof {
            reveal_strlit(">_ ");
            assert(echo@ =~= ">_ "@ + command@);
        }
        self.console.push(OutputKind::Cmd, crate::text::from_chars(&echo));
        if command.is_empty() {
            self.lock_input = false;
            self.console.push_std(String::new());
            return CommandKind::Empty;
        }
        let ghost before = strs_view(self.history@);
        let n = self.history.len();
        let repeat = n > 0 && crate::text::str_eq(self.history[n - 1].as_str(), command);
        if !repeat {
            self.history.push(command.to_string());
        }
        proof {
            if !repeat {
                assert(strs_view(self.history@) =~= before.push(command@));
            } else {
                assert(before.last() == self.history@[n - 1]@);
            }
        }
        let trimmed = trim(command);
        self.history_viewpoint = self.history.len();
        proof {
            reveal_strlit("clear");
            reveal_strlit("monitor");
            reveal_strlit("subscribe");
            reveal_strlit("psubscribe");
        }
        if eq_ignore_ascii_case("clear", trimmed.as_str()) {
            self.console = ConsoleData::new(self.console.capacity());
            self.lock_input = false;
            return CommandKind::Clear;
        }
        let args = split_args(trimmed.as_str());
        if args.len() == 1 && eq_ignore_ascii_case("monitor", args[0].as_str()) {
            CommandKind::Monitor
        } else if args.len() == 2 && eq_ignore_ascii_case("subscribe", args[0].as_str()) {
            CommandKind::Subscribe(args[1].clone())
        } else if args.len() == 2 && eq_ignore_ascii_case("psubscribe", args[0].as_str()) {
            CommandKind::PSubscribe(args[1].clone())
        } else {
            CommandKind::Command(trimmed)
        }
    }

    /// A command could not be started: shows the error, unlocks the input
    /// and adds an empty line.
    pub fn command_failed(&mut self, message: String)
        requires
            old(self).console.wf(),
        ensures
            final(self).console.wf(),
            !final(self).lock_input,
            final(self).console@ == (ConsoleView {
                lines: pushed_lines(
                    pushed_lines(
                        old(self).console@.lines,
                        old(self).console@.capacity,
                        (OutputKind::Error, message@),
                    ),
                    old(self).console@.capacity,
                    (OutputKind::Std, seq![]),
                ),
                ..old(self).console@
            }),
            final(self).history@ == old(self).history@,
            final(self).mode == old(self).mode,
    {
        self.console.push_err(message);
        self.lock_input = false;
        self.console.push_std(String::new());
    }

    /// A reply arrived, already turned into lines.  While listening the
    /// lines are only added.  Otherwise the time it took follows, where
    /// known, after a `---` line, both dimmed; then the input is unlocked and
    /// an empty line added.
    pub fn receive_reply(
        &mut self,
        lines: Vec<(OutputKind, String)>,
        listening: bool,
        elapsed: Option<String>,
    )
        requires
            old(self).console.wf(),
        ensures
            final(self).console.wf(),
            final(self).history@ == old(self).history@,
            final(self).mode == old(self).mode,
            listening ==> final(self).lock_input == old(self).lock_input,
            !listening ==> !final(self).lock_input,
            ({
                let cap = old(self).console@.capacity;
                let added = pushed_all(
                    old(self).console@.lines,
                    cap,
                    lines@.map_values(|l: (OutputKind, String)| line_view(l)),
                );
                final(self).console@ == (ConsoleView {
                    lines: if listening {
                        added
                    } else {
                        let timed = match elapsed {
                            Some(e) => pushed_lines(
                                pushed_lines(added, cap, (OutputKind::Dim, "---"@)),
                                cap,
                                (OutputKind::Dim, "Elapsed: "@ + e@),
                            ),
                            None => added,
                        };
                        pushed_lines(timed, cap, (OutputKind::Std, seq![]))
                    },
                    ..old(self).console@
                })
            }),
    {
        self.console.extend(lines);
        if listening {
            return;
        }
        if let Some(e) = elapsed {
            self.console.push(OutputKind::Dim, String::from_str("---"));
            let mut text: Vec<char> = Vec::new();
            crate::text::push_str_chars(&mut text, "Elapsed: ");
            crate::text::push_str_chars(&mut text, e.as_str());
            self.console.push(OutputKind::Dim, crate::text::from_chars(&text));
        }
        self.lock_input = false;
        self.console.push_std(String::new());
    }
}

/// After committing a non-empty command, Up brings that very command back:
/// the history ends with it and the walk starts just after it.
pub proof fn lemma_up_after_commit(history: Seq<Seq<char>>, command: Seq<char>)
    ensures
        ({
            let h = history_after(history, command);
            &&& h.len() > 0
            &&& h[h.len() - 1] == command
            &&& h.len() >= history.len()
            &&& forall|i: int| 0 <= i < history.len() ==> h[i] == history[i]
        }),
{
}

/// The key hints of the tab's footer: how to stop listening, or how to
/// leave the current mode.
pub open spec fn cli_hints(mode: Mode, listening: bool) -> Seq<(Seq<char>, Seq<char>)> {
    if listening {
        seq![("Esc"@, "Stop"@)]
    } else {
        match mode {
            Mode::Insert => seq![("Esc"@, "Normal"@), ("^Space"@, "Suggest"@)],
            Mode::Normal => seq![("i"@, "Insert"@)],
        }
    }
}

impl CliSession {
    /// The key hints of the tab's footer; `listening` says whether the tab
    /// listens to a monitor or a subscription.
    pub fn footer_elements(&self, listening: bool) -> (r: Vec<(String, String)>)
        ensures
            hints(r@) == cli_hints(self.mode, listening),
    {
        let mut v: Vec<(String, String)> = Vec::new();
        if listening {
            push_hint(&mut v, "Esc", "Stop");
        } else {
            match self.mode {
                Mode::Insert => {
                    push_hint(&mut v, "Esc", "Normal");
                    push_hint(&mut v, "^Space", "Suggest");
                },
                Mode::Normal => {
                    push_hint(&mut v, "i", "Insert");
                },
            }
        }
        proof {
            assert(hints(v@) =~= cli_hints(self.mode, listening));
        }
        v
    }
}

} // verus!
