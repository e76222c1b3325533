//! The options dialog: which setting is being edited, what a key does to
//! it, and the settings that Enter saves.
use crate::field::{
    is_numeric, parse_or_zero, parse_unsigned, spec_is_numeric, spec_parse_bounded,
    spec_step_text, step_text, FieldKey, TextEdit,
};
use crate::text::{decimal, u64_to_string};
use crate::footer::{hints, push_hint};
use vstd::prelude::*;

verus! {

/// The number of settings of the dialog.
pub const EDITING_COUNT: usize = 8;

/// The settings, in the order Tab walks them.
#[derive(Clone, Copy, PartialEq, Eq, Debug, Structural)]
pub enum Editing {
    Fps,
    ScanSize,
    TryFormat,
    Theme,
    HistorySize,
    CliOutputFormat,
    ConsoleCapacity,
    EnableMouseCapture,
}

/// The setting at a position of the walk.
pub open spec fn editing_at(i: int) -> Editing {
    if i == 0 { Editing::Fps }
    else if i == 1 { Editing::ScanSize }
    else if i == 2 { Editing::TryFormat }
    else if i == 3 { Editing::Theme }
    else if i == 4 { Editing::HistorySize }
    else if i == 5 { Editing::CliOutputFormat }
    else if i == 6 { Editing::ConsoleCapacity }
    else { Editing::EnableMouseCapture }
}

/// How the command line prints replies.
#[derive(Clone, Copy, PartialEq, Eq, Debug, Structural)]
pub enum OutputFormat {
    Redis,
    Ron,
}

impl OutputFormat {
    /// The format's name.
    pub fn name(&self) -> (r: String)
        ensures
            r@ == (match *self {
                OutputFormat::Redis => "Redis"@,
                OutputFormat::Ron => "Ron"@,
            }),
    {
        match self {
            OutputFormat::Redis => String::from_str("Redis"),
            OutputFormat::Ron => String::from_str("Ron"),
        }
    }
}

impl Default for OutputFormat {
    fn default() -> (r: Self)
        ensures
            r == OutputFormat::Redis,
    {
        OutputFormat::Redis
    }
}

/// The other output format.
pub open spec fn other_format(f: OutputFormat) -> OutputFormat {
    match f {
        OutputFormat::Redis => OutputFormat::Ron,
        OutputFormat::Ron => OutputFormat::Redis,
    }
}

/// The first lines of the dialog's text fields.
#[derive(Debug)]
pub struct OptionsTexts {
    pub fps: String,
    pub scan_size: String,
    pub theme: String,
    pub history_size: String,
    pub console_capacity: String,
}

/// The settings that the dialog saves.
#[derive(Debug)]
pub struct OptionsValues {
    pub fps: u8,
    pub scan_size: u16,
    pub try_format: bool,
    pub history_size: u32,
    pub theme: Option<String>,
    pub cli_output_format: OutputFormat,
    pub console_capacity: usize,
    pub enable_mouse_capture: bool,
}

/// The options dialog, apart from the text areas of its text fields.
#[derive(Debug)]
pub struct Options {
    pub editing: usize,
    pub try_format: bool,
    pub cli_output_format: OutputFormat,
    pub enable_mouse_capture: bool,
}

/// What a key did to the dialog.
#[derive(Debug)]
pub enum OptionsOutcome {
    /// The key was not taken.
    NotTaken,
    /// The key was taken; nothing is left to do.
    Taken,
    /// The key was taken: apply the edit to the text area of the setting.
    Edit(Editing, TextEdit),
    /// Enter: save these settings and restart.
    Save(OptionsValues),
}

/// The text area a key goes to while a setting is edited: each text
/// setting's own.
pub open spec fn editor_of(e: Editing) -> Option<Editing> {
    match e {
        Editing::Fps => Some(Editing::Fps),
        Editing::ScanSize => Some(Editing::ScanSize),
        Editing::Theme => Some(Editing::Theme),
        Editing::HistorySize => Some(Editing::HistorySize),
        Editing::ConsoleCapacity => Some(Editing::ConsoleCapacity),
        _ => None,
    }
}

/// Whether a setting is a number stepped by the arrows.
pub open spec fn is_count(e: Editing) -> bool {
    e is Fps || e is ScanSize || e is HistorySize || e is ConsoleCapacity
}

/// A setting's text after a character was typed into it: the number it
/// reads as, rewritten, or unchanged where it is no 64-bit number.
pub open spec fn spec_normalize_count(line: Seq<char>) -> Seq<char> {
    match spec_parse_bounded(line, 18446744073709551615) {
        Some(v) => decimal(v),
        None => line,
    }
}

/// Rewrites a number setting's text after a character was typed into it.
pub fn normalize_count_text(line: &str) -> (r: String)
    ensures
        r@ == spec_normalize_count(line@),
{
    match parse_unsigned(line, 18446744073709551615) {
        Some(v) => u64_to_string(v),
        None => line.to_string(),
    }
}

/// The edit a key makes on the text area of a setting, where the setting
/// has one; the numbering is that of `database_editor::edit_code`.
pub open spec fn option_field_key(
    e: Editing,
    key: FieldKey,
    selecting: bool,
    line: Seq<char>,
) -> (bool, Option<Seq<char>>, int) {
    match key {
        FieldKey::Esc => if selecting {
            (true, None, 1)
        } else {
            (false, None, 0)
        },
        FieldKey::Enter | FieldKey::CtrlM => (true, None, 0),
        FieldKey::CtrlA => (true, None, 2),
        FieldKey::CtrlZ => (true, None, 3),
        FieldKey::CtrlY => (true, None, 4),
        _ => if is_count(e) {
            match key {
                FieldKey::Backspace => (true, None, 5),
                FieldKey::Char(c) => if spec_is_numeric(c) {
                    (true, None, 6)
                } else {
                    (true, None, 0)
                },
                _ => (true, Some(spec_step_text(line, key, 18446744073709551615, 10)), 7),
            }
        } else {
            (true, None, 5)
        },
    }
}

/// The settings that the dialog's texts and switches make: numbers that
/// do not read as their type count as zero, an empty theme as none.
pub open spec fn options_values(o: Options, t: OptionsTexts) -> (
    nat,
    nat,
    bool,
    nat,
    Option<Seq<char>>,
    OutputFormat,
    nat,
    bool,
) {
    (
        parse_or_zero(t.fps@, 255),
        parse_or_zero(t.scan_size@, 65535),
        o.try_format,
        parse_or_zero(t.history_size@, 4294967295),
        if t.theme@.len() == 0 {
            None
        } else {
            Some(t.theme@)
        },
        o.cli_output_format,
        parse_or_zero(t.console_capacity@, usize::MAX as nat),
        o.enable_mouse_capture,
    )
}

/// The view of saved settings, in the order of `options_values`.
pub open spec fn values_view(v: OptionsValues) -> (
    nat,
    nat,
    bool,
    nat,
    Option<Seq<char>>,
    OutputFormat,
    nat,
    bool,
) {
    (
        v.fps as nat,
        v.scan_size as nat,
        v.try_format,
        v.history_size as nat,
        match v.theme {
            Some(t) => Some(t@),
            None => None,
        },
        v.cli_output_format,
        v.console_capacity as nat,
        v.enable_mouse_capture,
    )
}

fn parse_or_zero_exec(s: &String, max: u64) -> (r: u64)
    ensures
        r as nat == parse_or_zero(s@, max as nat),
        r <= max,
{
    match parse_unsigned(s.as_str(), max) {
        Some(v) => v,
        None => 0,
    }
}

impl Options {
    /// The dialog on its first setting, every switch off and replies in
    /// Redis's format.
    pub fn default() -> (r: Options)
        ensures
            r.editing == 0,
            !r.try_format,
            r.cli_output_format == OutputFormat::Redis,
            !r.enable_mouse_capture,
    {
        Options {
            editing: 0,
            try_format: false,
            cli_output_format: OutputFormat::Redis,
            enable_mouse_capture: false,
        }
    }

    /// Moves to the next setting, the first after the last.
    pub fn next(&mut self)
        requires
            old(self).editing < 8,
        ensures
            final(self).editing == (old(self).editing + 1) % 8,
            final(self).try_format == old(self).try_format,
            final(self).cli_output_format == old(self).cli_output_format,
            final(self).enable_mouse_capture == old(self).enable_mouse_capture,
    {
        self.editing = (self.editing + 1) % 8;
    }

    /// Moves to the previous setting, the last before the first.
    pub fn prev(&mut self)
        requires
            old(self).editing < 8,
        ensures
            final(self).editing == (old(self).editing + 7) % 8,
            final(self).try_format == old(self).try_format,
            final(self).cli_output_format == old(self).cli_output_format,
            final(self).enable_mouse_capture == old(self).enable_mouse_capture,
    {
        self.editing = (self.editing + 7) % 8;
    }

    /// The setting being edited.
    pub fn current(&self) -> (r: Editing)
        requires
            self.editing < 8,
        ensures
            r == editing_at(self.editing as int),
    {
        match self.editing {
            0 => Editing::Fps,
            1 => Editing::ScanSize,
            2 => Editing::TryFormat,
            3 => Editing::Theme,
            4 => Editing::HistorySize,
            5 => Editing::CliOutputFormat,
            6 => Editing::ConsoleCapacity,
            _ => Editing::EnableMouseCapture,
        }
    }

    /// The settings to save: the text fields read as numbers of their
    /// types (zero where they do not), the theme where it is not empty.
    pub fn values(&self, texts: &OptionsTexts) -> (r: OptionsValues)
        ensures
            values_view(r) == options_values(*self, *texts),
    {
        let fps = parse_or_zero_exec(&texts.fps, 255) as u8;
        let scan_size = parse_or_zero_exec(&texts.scan_size, 65535) as u16;
        let history_size = parse_or_zero_exec(&texts.history_size, 4294967295) as u32;
        let console_capacity = parse_or_zero_exec(&texts.console_capacity, usize::MAX as u64) as usize;
        let theme = if texts.theme.as_str().is_empty() {
            None
        } else {
            Some(texts.theme.clone())
        };
        OptionsValues {
            fps,
            scan_size,
            try_format: self.try_format,
            history_size,
            theme,
            cli_output_format: self.cli_output_format,
            console_capacity,
            enable_mouse_capture: self.enable_mouse_capture,
        }
    }

    /// The dialog's texts for the current settings.
    pub fn init_values(
        &mut self,
        fps: u8,
        scan_size: u16,
        try_format: bool,
        theme: &Option<String>,
        history_size: u32,
        cli_output_format: OutputFormat,
        console_capacity: usize,
        enable_mouse_capture: bool,
    ) -> (r: OptionsTexts)
        ensures
            r.fps@ == decimal(fps as nat),
            r.scan_size@ == decimal(scan_size as nat),
            r.theme@ == match *theme {
                Some(t) => t@,
                None => Seq::<char>::empty(),
            },
            r.history_size@ == decimal(history_size as nat),
            r.console_capacity@ == decimal(console_capacity as nat),
            final(self).try_format == try_format,
            final(self).cli_output_format == cli_output_format,
            final(self).enable_mouse_capture == enable_mouse_capture,
            final(self).editing == old(self).editing,
    {
        self.try_format = try_format;
        self.cli_output_format = cli_output_format;
        self.enable_mouse_capture = enable_mouse_capture;
        OptionsTexts {
            fps: u64_to_string(fps as u64),
            scan_size: u64_to_string(scan_size as u64),
            theme: match theme {
                Some(t) => t.clone(),
                None => String::new(),
            },
            history_size: u64_to_string(history_size as u64),
            console_capacity: u64_to_string(console_capacity as u64),
        }
    }
}

impl Options {
    /// Handles a key.  Tab and BackTab move between the settings; Ctrl+C is
    /// not taken; a plain Enter saves the settings.  On a setting with a text
    /// area the key becomes an edit of that area (`line` is its first line,
    /// `selecting` whether it has a selection); on a switch, left and right
    /// (or `h` and `l`) flip it, and Esc is not taken.
    pub fn handle_key(
        &mut self,
        key: FieldKey,
        plain: bool,
        selecting: bool,
        line: &str,
        texts: &OptionsTexts,
    ) -> (r: OptionsOutcome)
        requires
            old(self).editing < 8,
        ensures
            final(self).editing < 8,
            key is Tab ==> final(self).editing == (old(self).editing + 1) % 8 && r is Taken,
            key is BackTab ==> final(self).editing == (old(self).editing + 7) % 8 && r is Taken,
            !(key is Tab || key is BackTab) ==> final(self).editing == old(self).editing,
            key is CtrlC ==> r is NotTaken,
            (key is Enter && plain) ==> (r matches OptionsOutcome::Save(v) && values_view(v)
                == options_values(*old(self), *texts)),
            !(key is Tab || key is BackTab || key is CtrlC || (key is Enter && plain)) ==> ({
                let e = editing_at(old(self).editing as int);
                match editor_of(e) {
                    Some(target) => {
                        let (taken, text, code) = option_field_key(e, key, selecting, line@);
                        &&& final(self).try_format == old(self).try_format
                        &&& final(self).cli_output_format == old(self).cli_output_format
                        &&& final(self).enable_mouse_capture == old(self).enable_mouse_capture
                        &&& if !taken {
                            r is NotTaken
                        } else if code == 0 {
                            r is Taken
                        } else {
                            (r matches OptionsOutcome::Edit(t, edit) && t == target && (text, code)
                                == crate::database_editor::edit_code(edit))
                        }
                    },
                    None => {
                        let flip = key is Left || key is Right || key == FieldKey::Char('h') || key
                            == FieldKey::Char('l');
                        &&& (if key is Esc {
                            r is NotTaken
                        } else {
                            r is Taken
                        })
                        &&& final(self).try_format == (if flip && e is TryFormat {
                            !old(self).try_format
                        } else {
                            old(self).try_format
                        })
                        &&& final(self).cli_output_format == (if flip && e is CliOutputFormat {
                            other_format(old(self).cli_output_format)
                        } else {
                            old(self).cli_output_format
                        })
                        &&& final(self).enable_mouse_capture == (if flip && e is EnableMouseCapture {
                            !old(self).enable_mouse_capture
                        } else {
                            old(self).enable_mouse_capture
                        })
                    },
                }
            }),
    {
        let editing = self.current();
        match key {
            FieldKey::Tab => {
                self.next();
                return OptionsOutcome::Taken;
            },
            FieldKey::BackTab => {
                self.prev();
                return OptionsOutcome::Taken;
            },
            FieldKey::CtrlC => {
                return OptionsOutcome::NotTaken;
            },
            FieldKey::Enter => {
                if plain {
                    return OptionsOutcome::Save(self.values(texts));
                }
            },
            _ => {},
        }
        let target = match editing {
            Editing::Fps => Some(Editing::Fps),
            Editing::ScanSize => Some(Editing::ScanSize),
            Editing::Theme => Some(Editing::Theme),
            Editing::HistorySize => Some(Editing::HistorySize),
            Editing::ConsoleCapacity => Some(Editing::ConsoleCapacity),
            _ => None,
        };
        match target {
            Some(t) => {
                let (taken, edit) = match key {
                    FieldKey::Esc => if selecting {
                        (true, TextEdit::CancelSelection)
                    } else {
                        (false, TextEdit::Keep)
                    },
                    FieldKey::Enter | FieldKey::CtrlM => (true, TextEdit::Keep),
                    FieldKey::CtrlA => (true, TextEdit::SelectAll),
                    FieldKey::CtrlZ => (true, TextEdit::Undo),
                    FieldKey::CtrlY => (true, TextEdit::Redo),
                    _ => {
                        let count = match editing {
                            Editing::Fps | Editing::ScanSize | Editing::HistorySize
                            | Editing::ConsoleCapacity => true,
                            _ => false,
                        };
                        if count {
                            match key {
                                FieldKey::Backspace => (true, TextEdit::Input),
                                FieldKey::Char(c) => if is_numeric(c) {
                                    (true, TextEdit::InputThenNormalize)
                                } else {
                                    (true, TextEdit::Keep)
                                },
                                _ => (
                                    true,
                                    TextEdit::Replace(step_text(line, key, 18446744073709551615, 10)),
                                ),
                            }
                        } else {
                            (true, TextEdit::Input)
                        }
                    },
                };
                if !taken {
                    OptionsOutcome::NotTaken
                } else {
                    match edit {
                        TextEdit::Keep => OptionsOutcome::Taken,
                        _ => OptionsOutcome::Edit(t, edit),
                    }
                }
            },
            None => {
                match key {
                    FieldKey::Esc => OptionsOutcome::NotTaken,
                    FieldKey::Left | FieldKey::Right | FieldKey::Char('h') | FieldKey::Char('l') => {
                        match editing {
                            Editing::TryFormat => self.try_format = !self.try_format,
                            Editing::CliOutputFormat => self.cli_output_format = match self.cli_output_format {
                                OutputFormat::Redis => OutputFormat::Ron,
                                OutputFormat::Ron => OutputFormat::Redis,
                            },
                            Editing::EnableMouseCapture => self.enable_mouse_capture = !self.enable_mouse_capture,
                            _ => {},
                        }
                        OptionsOutcome::Taken
                    },
                    _ => OptionsOutcome::Taken,
                }
            },
        }
    }
}

/// Tab and BackTab undo each other, and stay among the settings.
pub proof fn lemma_next_prev_inverse(i: int)
    requires
        0 <= i < 8,
    ensures
        ((i + 1) % 8 + 7) % 8 == i,
        ((i + 7) % 8 + 1) % 8 == i,
        0 <= (i + 1) % 8 < 8,
        0 <= (i + 7) % 8 < 8,
{
}

/// The key hints of the dialog's footer: moving, confirming and closing,
/// then, on the number fields, the keys that step the number.
pub open spec fn options_hints(editing: usize) -> Seq<(Seq<char>, Seq<char>)> {
    let base = seq![("Tab"@, "Next"@), ("BackTab"@, "Prev"@), ("Enter"@, "Confirm"@), ("Esc"@, "Close"@)];
    let e = editing_at(editing as int);
    if e == Editing::Fps || e == Editing::ScanSize || e == Editing::HistorySize || e
        == Editing::ConsoleCapacity {
        base + seq![("↑/j"@, "+10"@), ("↓/k"@, "-10"@), ("→/l"@, "+1"@), ("←/h"@, "-1"@)]
    } else {
        base
    }
}

impl Options {
    /// The key hints of the dialog's footer.
    pub fn footer_elements(&self) -> (r: Vec<(String, String)>)
        ensures
            hints(r@) == options_hints(self.editing),
    {
        let mut v: Vec<(String, String)> = Vec::new();
        push_hint(&mut v, "Tab", "Next");
        push_hint(&mut v, "BackTab", "Prev");
        push_hint(&mut v, "Enter", "Confirm");
        push_hint(&mut v, "Esc", "Close");
        if self.editing == 0 || self.editing == 1 || self.editing == 4 || self.editing == 6 {
            push_hint(&mut v, "↑/j", "+10");
            push_hint(&mut v, "↓/k", "-10");
            push_hint(&mut v, "→/l", "+1");
            push_hint(&mut v, "←/h", "-1");
        }
        proof {
            assert(hints(v@) =~= options_hints(self.editing));
        }
        v
    }
}

} // verus!
