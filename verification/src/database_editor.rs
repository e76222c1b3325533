//! The form that creates or edits a server profile: which field is being
//! edited, how Tab and BackTab move between the fields that are shown, what a
//! key does to the field, and the profile that the form's texts make.
use crate::configuration::{Database, DatabaseView, Protocol, SshTunnel};
use crate::field::{
    is_numeric, parse_or_zero, parse_unsigned, spec_is_numeric, spec_step_text, step_text,
    FieldKey, TextEdit,
};
use crate::servers::Data;
use crate::text::{decimal, u64_to_string};
use crate::footer::{hints, push_hint};
use vstd::prelude::*;

verus! {

/// The number of fields of the form.
pub const FIELD_COUNT: usize = 14;

/// The fields of the form, in the order Tab walks them.
#[derive(Clone, Copy, PartialEq, Eq, Debug, Structural)]
pub enum Editing {
    Name,
    Host,
    Port,
    EnabledAuthentication,
    Username,
    Password,
    UseTls,
    Db,
    Protocol,
    UseSshTunnel,
    SshHost,
    SshPort,
    SshUsername,
    SshPassword,
}

/// The field at a position of the walk.
pub open spec fn field_at(i: int) -> Editing {
    if i == 0 { Editing::Name }
    else if i == 1 { Editing::Host }
    else if i == 2 { Editing::Port }
    else if i == 3 { Editing::EnabledAuthentication }
    else if i == 4 { Editing::Username }
    else if i == 5 { Editing::Password }
    else if i == 6 { Editing::UseTls }
    else if i == 7 { Editing::Db }
    else if i == 8 { Editing::Protocol }
    else if i == 9 { Editing::UseSshTunnel }
    else if i == 10 { Editing::SshHost }
    else if i == 11 { Editing::SshPort }
    else if i == 12 { Editing::SshUsername }
    else { Editing::SshPassword }
}

/// Whether the field at position `i` is hidden: the credentials without
/// authentication, the tunnel's fields without a tunnel.
pub open spec fn hidden(i: int, auth: bool, ssh: bool) -> bool {
    ||| !auth && (i == 4 || i == 5)
    ||| !ssh && 10 <= i <= 13
}

/// The first shown position from `j` on, walking forward and wrapping.
pub open spec fn skip_forward(j: int, auth: bool, ssh: bool) -> int
    decreases (if 0 < j < 14 { 14 - j } else { 0 }),
{
    if 0 <= j < 14 && j != 0 && hidden(j, auth, ssh) {
        skip_forward((j + 1) % 14, auth, ssh)
    } else {
        j
    }
}

/// The first shown position from `j` on, walking backward.
pub open spec fn skip_backward(j: int, auth: bool, ssh: bool) -> int
    decreases (if 0 <= j < 14 { j } else { 0 }),
{
    if 0 < j < 14 && hidden(j, auth, ssh) {
        skip_backward(j - 1, auth, ssh)
    } else {
        j
    }
}

/// The position Tab moves to from `i`.
pub open spec fn next_position(i: int, auth: bool, ssh: bool) -> int {
    skip_forward((i + 1) % 14, auth, ssh)
}

/// The position BackTab moves to from `i`.
pub open spec fn prev_position(i: int, auth: bool, ssh: bool) -> int {
    skip_backward((i + 13) % 14, auth, ssh)
}

/// The first lines of the form's text fields.
#[derive(Debug)]
pub struct FormTexts {
    pub name: String,
    pub host: String,
    pub port: String,
    pub username: String,
    pub password: String,
    pub db: String,
    pub ssh_host: String,
    pub ssh_port: String,
    pub ssh_username: String,
    pub ssh_password: String,
}

/// The server-profile form, apart from the text areas of its text fields.
#[derive(Debug)]
pub struct Form {
    pub title: String,
    pub editing: usize,
    pub enabled_authentication: bool,
    pub use_tls: bool,
    pub protocol: Protocol,
    pub use_ssh_tunnel: bool,
}

/// The text, or the placeholder where the text is empty.
pub open spec fn or_placeholder(s: Seq<char>, placeholder: Seq<char>) -> Seq<char> {
    if s.len() == 0 {
        placeholder
    } else {
        s
    }
}

/// The text where it is not empty.
pub open spec fn non_empty(s: Seq<char>) -> Option<Seq<char>> {
    if s.len() == 0 {
        None
    } else {
        Some(s)
    }
}

/// A number field's text as a number of a type whose largest value is `max`,
/// with `fallback` where the text is no such number.
pub open spec fn number_or(s: Seq<char>, max: nat, fallback: nat) -> nat {
    match crate::field::spec_parse_bounded(s, max) {
        Some(v) => v,
        None => fallback,
    }
}

/// The profile that the form's texts and switches make.
pub open spec fn form_database(f: Form, t: FormTexts) -> DatabaseView {
    DatabaseView {
        host: or_placeholder(t.host@, "127.0.0.1"@),
        port: number_or(or_placeholder(t.port@, "6379"@), 65535, 6379) as u16,
        username: non_empty(t.username@),
        password: non_empty(t.password@),
        use_tls: f.use_tls,
        use_ssh_tunnel: f.use_ssh_tunnel,
        db: number_or(or_placeholder(t.db@, "0"@), 4294967295, 0) as u32,
        protocol: f.protocol,
        ssh_tunnel: if f.use_ssh_tunnel {
            Some(
                (
                    or_placeholder(t.ssh_host@, "127.0.0.1"@),
                    number_or(or_placeholder(t.ssh_port@, "22"@), 65535, 6379) as u16,
                    or_placeholder(t.ssh_username@, "root"@),
                    t.ssh_password@,
                ),
            )
        } else {
            None
        },
    }
}

/// Whether the field at a position edits text.
pub open spec fn is_text_field(e: Editing) -> bool {
    !(e is EnabledAuthentication || e is UseTls || e is Protocol || e is UseSshTunnel)
}

/// Whether the field at a position edits a number.
pub open spec fn is_number_field(e: Editing) -> bool {
    e is Port || e is Db || e is SshPort
}

/// The other protocol.
pub open spec fn other_protocol(p: Protocol) -> Protocol {
    match p {
        Protocol::RESP2 => Protocol::RESP3,
        Protocol::RESP3 => Protocol::RESP2,
    }
}

/// A number field's text after a character was typed into it: the number
/// read as a 32-bit one (zero where it is none), at most 65535.
pub open spec fn spec_normalize_port(line: Seq<char>) -> Seq<char> {
    let v = parse_or_zero(line, 4294967295);
    decimal(if v > 65535 { 65535 } else { v })
}

/// Normalises a number field's text after a character was typed into it.
pub fn normalize_port_text(line: &str) -> (r: String)
    ensures
        r@ == spec_normalize_port(line@),
{
    let v: u64 = match parse_unsigned(line, 4294967295) {
        Some(v) => v,
        None => 0,
    };
    u64_to_string(if v > 65535 { 65535 } else { v })
}

/// What typing `c` into a number field does to its line when the cursor
/// stands after `cursor` characters and nothing is selected: the character
/// goes in at the cursor, the whole line is normalised
/// (`spec_normalize_port`), and the normalised number replaces the line up
/// to the cursor, which then stands after it.  The new line and cursor.
pub open spec fn spec_number_input(line: Seq<char>, cursor: nat, c: char) -> (Seq<char>, nat) {
    let typed = line.take(cursor as int) + seq![c] + line.skip(cursor as int);
    let n = spec_normalize_port(typed);
    (n + line.skip(cursor as int), n.len())
}

/// Types a digit into a number field of the form (`TextEdit::InputThenNormalize`):
/// the new line and where the cursor stands, in characters.
pub fn number_input(line: &str, cursor: usize, c: char) -> (r: (String, usize))
    requires
        cursor <= line@.len(),
    ensures
        (r.0@, r.1 as nat) == spec_number_input(line@, cursor as nat, c),
{
    let chars = crate::text::to_chars(line);
    let mut typed: Vec<char> = Vec::new();
    let mut rest: Vec<char> = Vec::new();
    let mut i: usize = 0;
    while i < chars.len()
        invariant
            chars@ == line@,
            cursor <= chars.len(),
            i <= chars.len(),
            typed@ == (if i <= cursor {
                chars@.take(i as int)
            } else {
                chars@.take(cursor as int) + seq![c] + chars@.subrange(cursor as int, i as int)
            }),
            rest@ == (if i <= cursor {
                Seq::<char>::empty()
            } else {
                chars@.subrange(cursor as int, i as int)
            }),
        decreases chars.len() - i,
    {
        if i == cursor {
            typed.push(c);
        }
        typed.push(chars[i]);
        if i >= cursor {
            rest.push(chars[i]);
        }
        proof {
            if i < cursor {
                assert(chars@.take(i + 1) == chars@.take(i as int).push(chars@[i as int]));
            }
        }
        i = i + 1;
        proof {
            if i == cursor + 1 {
                assert(chars@.subrange(cursor as int, i as int) == seq![chars@[cursor as int]]);
                assert(chars@.take(cursor as int) == chars@.take(i - 1));
            } else if i > cursor + 1 {
                assert(chars@.subrange(cursor as int, i as int) == chars@.subrange(
                    cursor as int,
                    i - 1,
                ).push(chars@[i - 1]));
            }
        }
    }
    if cursor == chars.len() {
        typed.push(c);
    }
    proof {
        if cursor < chars@.len() {
            assert(chars@.subrange(cursor as int, chars@.len() as int) == chars@.skip(cursor as int));
        } else {
            assert(chars@.take(cursor as int) == chars@);
            assert(chars@.skip(cursor as int) == Seq::<char>::empty());
        }
        assert(typed@ == line@.take(cursor as int) + seq![c] + line@.skip(cursor as int));
    }
    let typed_text = crate::text::from_chars(&typed);
    let n = normalize_port_text(typed_text.as_str());
    let mut out = crate::text::to_chars(n.as_str());
    let width = out.len();
    crate::text::extend_chars(&mut out, &rest);
    proof {
        assert(rest@ == line@.skip(cursor as int));
    }
    (crate::text::from_chars(&out), width)
}

/// What a key does to the text field being edited: the first part says
/// whether the form took the key.
pub open spec fn text_field_key(
    e: Editing,
    key: FieldKey,
    selecting: bool,
    line: Seq<char>,
) -> (bool, Option<Seq<char>>, int) {
    // The third part names the edit: 0 keep, 1 cancel selection, 2 select
    // all, 3 undo, 4 redo, 5 input, 6 input then normalise, 7 replace with
    // the second part.
    match key {
        FieldKey::Esc => if selecting {
            (true, None, 1)
        } else {
            (false, None, 0)
        },
        FieldKey::Enter | FieldKey::CtrlM => (true, None, 0),
        FieldKey::CtrlA => (true, None, 2),
        FieldKey::CtrlZ => (true, None, 3),
        FieldKey::CtrlY => (true, None, 4),
        _ => if is_number_field(e) {
            match key {
                FieldKey::Backspace => (true, None, 5),
                FieldKey::Char(c) => if spec_is_numeric(c) {
                    (true, None, 6)
                } else {
                    (true, None, 0)
                },
                FieldKey::CtrlC => if spec_is_numeric('c') {
                    (true, None, 6)
                } else {
                    (true, None, 0)
                },
                _ => (true, Some(spec_step_text(line, key, 65535, 10)), 7),
            }
        } else {
            (true, None, 5)
        },
    }
}

/// The view of a text edit in the numbering of `text_field_key`.
pub open spec fn edit_code(t: TextEdit) -> (Option<Seq<char>>, int) {
    match t {
        TextEdit::Keep => (None, 0),
        TextEdit::CancelSelection => (None, 1),
        TextEdit::SelectAll => (None, 2),
        TextEdit::Undo => (None, 3),
        TextEdit::Redo => (None, 4),
        TextEdit::Input => (None, 5),
        TextEdit::InputThenNormalize => (None, 6),
        TextEdit::Replace(s) => (Some(s@), 7),
    }
}

impl Form {
    /// A fresh form: the name field first, authentication on, no TLS, RESP3
    /// and no tunnel.
    pub fn default() -> (r: Form)
        ensures
            r.title@ == Seq::<char>::empty(),
            r.editing == 0,
            r.enabled_authentication,
            !r.use_tls,
            r.protocol == Protocol::RESP3,
            !r.use_ssh_tunnel,
    {
        Form {
            title: String::new(),
            editing: 0,
            enabled_authentication: true,
            use_tls: false,
            protocol: Protocol::RESP3,
            use_ssh_tunnel: false,
        }
    }

    /// The form with another title.
    pub fn title(self, title: &str) -> (r: Form)
        ensures
            r.title@ == title@,
            r.editing == self.editing,
            r.enabled_authentication == self.enabled_authentication,
            r.use_tls == self.use_tls,
            r.protocol == self.protocol,
            r.use_ssh_tunnel == self.use_ssh_tunnel,
    {
        Form { title: title.to_string(), ..self }
    }

    /// The field being edited.
    pub fn current(&self) -> (r: Editing)
        requires
            self.editing < 14,
        ensures
            r == field_at(self.editing as int),
    {
        match self.editing {
            0 => Editing::Name,
            1 => Editing::Host,
            2 => Editing::Port,
            3 => Editing::EnabledAuthentication,
            4 => Editing::Username,
            5 => Editing::Password,
            6 => Editing::UseTls,
            7 => Editing::Db,
            8 => Editing::Protocol,
            9 => Editing::UseSshTunnel,
            10 => Editing::SshHost,
            11 => Editing::SshPort,
            12 => Editing::SshUsername,
            _ => Editing::SshPassword,
        }
    }

    fn is_hidden(&self, i: usize) -> (r: bool)
        ensures
            r == hidden(i as int, self.enabled_authentication, self.use_ssh_tunnel),
    {
        (!self.enabled_authentication && (i == 4 || i == 5)) || (!self.use_ssh_tunnel && 10 <= i
            && i <= 13)
    }

    /// Moves to the next field that is shown, wrapping after the last.
    pub fn next(&mut self)
        requires
            old(self).editing < 14,
        ensures
            final(self).editing < 14,
            final(self).editing as int == next_position(
                old(self).editing as int,
                old(self).enabled_authentication,
                old(self).use_ssh_tunnel,
            ),
            final(self).enabled_authentication == old(self).enabled_authentication,
            final(self).use_ssh_tunnel == old(self).use_ssh_tunnel,
            final(self).use_tls == old(self).use_tls,
            final(self).protocol == old(self).protocol,
            final(self).title@ == old(self).title@,
    {
        let mut i: usize = (self.editing + 1) % 14;
        while i != 0 && self.is_hidden(i)
            invariant
                0 <= i < 14,
                skip_forward(i as int, self.enabled_authentication, self.use_ssh_tunnel)
                    == next_position(
                    old(self).editing as int,
                    self.enabled_authentication,
                    self.use_ssh_tunnel,
                ),
                self.enabled_authentication == old(self).enabled_authentication,
                self.use_ssh_tunnel == old(self).use_ssh_tunnel,
            decreases (if i == 0 { 0 } else { 14 - i }),
        {
            i = (i + 1) % 14;
        }
        self.editing = i;
    }

    /// Moves to the previous field that is shown, wrapping before the first.
    pub fn prev(&mut self)
        requires
            old(self).editing < 14,
        ensures
            final(self).editing < 14,
            final(self).editing as int == prev_position(
                old(self).editing as int,
                old(self).enabled_authentication,
                old(self).use_ssh_tunnel,
            ),
            final(self).enabled_authentication == old(self).enabled_authentication,
            final(self).use_ssh_tunnel == old(self).use_ssh_tunnel,
            final(self).use_tls == old(self).use_tls,
            final(self).protocol == old(self).protocol,
            final(self).title@ == old(self).title@,
    {
        let mut i: usize = (self.editing + 13) % 14;
        while i > 0 && self.is_hidden(i)
            invariant
                0 <= i < 14,
                skip_backward(i as int, self.enabled_authentication, self.use_ssh_tunnel)
                    == prev_position(
                    old(self).editing as int,
                    self.enabled_authentication,
                    self.use_ssh_tunnel,
                ),
                self.enabled_authentication == old(self).enabled_authentication,
                self.use_ssh_tunnel == old(self).use_ssh_tunnel,
            decreases i,
        {
            i = i - 1;
        }
        self.editing = i;
    }

    fn toggle(&mut self, e: Editing)
        ensures
            final(self).editing == old(self).editing,
            final(self).title@ == old(self).title@,
            final(self).enabled_authentication == (if e is EnabledAuthentication {
                !old(self).enabled_authentication
            } else {
                old(self).enabled_authentication
            }),
            final(self).use_tls == (if e is UseTls {
                !old(self).use_tls
            } else {
                old(self).use_tls
            }),
            final(self).protocol == (if e is Protocol {
                other_protocol(old(self).protocol)
            } else {
                old(self).protocol
            }),
            final(self).use_ssh_tunnel == (if e is UseSshTunnel {
                !old(self).use_ssh_tunnel
            } else {
                old(self).use_ssh_tunnel
            }),
    {
        match e {
            Editing::EnabledAuthentication => self.enabled_authentication = !self.enabled_authentication,
            Editing::UseTls => self.use_tls = !self.use_tls,
            Editing::Protocol => self.protocol = match self.protocol {
                Protocol::RESP2 => Protocol::RESP3,
                Protocol::RESP3 => Protocol::RESP2,
            },
            Editing::UseSshTunnel => self.use_ssh_tunnel = !self.use_ssh_tunnel,
            _ => {},
        }
    }

    /// Handles a key.  Tab and BackTab move between the shown fields; a key
    /// that is not a press is taken and ignored; on a text field the key
    /// becomes an edit of its text area (`line` is the text area's first
    /// line, `selecting` whether it has a selection); on a switch, left and
    /// right (or `h` and `l`) flip it and Esc is not taken.  The result says
    /// whether the form took the key, and the edit to make; on this form
    /// `InputThenNormalize` (a digit on the port, db or tunnel port field) is
    /// carried out by `number_input`.
    pub fn handle_key(&mut self, key: FieldKey, is_press: bool, selecting: bool, line: &str) -> (r: (
        bool,
        TextEdit,
    ))
        requires
            old(self).editing < 14,
        ensures
            final(self).editing < 14,
            final(self).title@ == old(self).title@,
            key is Tab ==> final(self).editing as int == next_position(
                old(self).editing as int,
                old(self).enabled_authentication,
                old(self).use_ssh_tunnel,
            ) && r.0 && r.1 is Keep,
            key is BackTab ==> final(self).editing as int == prev_position(
                old(self).editing as int,
                old(self).enabled_authentication,
                old(self).use_ssh_tunnel,
            ) && r.0 && r.1 is Keep,
            (key is Tab || key is BackTab || is_text_field(field_at(old(self).editing as int))
                || !is_press) ==> (final(self).enabled_authentication == old(self).enabled_authentication && final(self).use_tls == old(self).use_tls && final(self).protocol == old(self).protocol && final(self).use_ssh_tunnel == old(self).use_ssh_tunnel),
            !(key is Tab || key is BackTab) ==> final(self).editing == old(self).editing,
            !(key is Tab || key is BackTab) && !is_press ==> r.0 && r.1 is Keep,
            !(key is Tab || key is BackTab) && is_press && is_text_field(
                field_at(old(self).editing as int),
            ) ==> (r.0, edit_code(r.1).0, edit_code(r.1).1) == text_field_key(
                field_at(old(self).editing as int),
                key,
                selecting,
                line@,
            ),
            !(key is Tab || key is BackTab) && is_press && !is_text_field(
                field_at(old(self).editing as int),
            ) ==> ({
                let e = field_at(old(self).editing as int);
                let flip = key is Left || key is Right || key == FieldKey::Char('h') || key
                    == FieldKey::Char('l');
                &&& r.0 == !(key is Esc)
                &&& r.1 is Keep
                &&& final(self).enabled_authentication == (if flip && e is EnabledAuthentication {
                    !old(self).enabled_authentication
                } else {
                    old(self).enabled_authentication
                })
                &&& final(self).use_tls == (if flip && e is UseTls {
                    !old(self).use_tls
                } else {
                    old(self).use_tls
                })
                &&& final(self).protocol == (if flip && e is Protocol {
                    other_protocol(old(self).protocol)
                } else {
                    old(self).protocol
                })
                &&& final(self).use_ssh_tunnel == (if flip && e is UseSshTunnel {
                    !old(self).use_ssh_tunnel
                } else {
                    old(self).use_ssh_tunnel
                })
            }),
    {
        let editing = self.current();
        match key {
            FieldKey::Tab => {
                self.next();
                return (true, TextEdit::Keep);
            },
            FieldKey::BackTab => {
                self.prev();
                return (true, TextEdit::Keep);
            },
            _ => {},
        }
        if !is_press {
            return (true, TextEdit::Keep);
        }
        let text_field = match editing {
            Editing::EnabledAuthentication | Editing::UseTls | Editing::Protocol
            | Editing::UseSshTunnel => false,
            _ => true,
        };
        if text_field {
            match key {
                FieldKey::Esc => {
                    if selecting {
                        (true, TextEdit::CancelSelection)
                    } else {
                        (false, TextEdit::Keep)
                    }
                },
                FieldKey::Enter | FieldKey::CtrlM => (true, TextEdit::Keep),
                FieldKey::CtrlA => (true, TextEdit::SelectAll),
                FieldKey::CtrlZ => (true, TextEdit::Undo),
                FieldKey::CtrlY => (true, TextEdit::Redo),
                _ => {
                    let number = match editing {
                        Editing::Port | Editing::Db | Editing::SshPort => true,
                        _ => false,
                    };
                    if number {
                        match key {
                            FieldKey::Backspace => (true, TextEdit::Input),
                            FieldKey::Char(c) => {
                                if is_numeric(c) {
                                    (true, TextEdit::InputThenNormalize)
                                } else {
                                    (true, TextEdit::Keep)
                                }
                            },
                            FieldKey::CtrlC => {
                                if is_numeric('c') {
                                    (true, TextEdit::InputThenNormalize)
                                } else {
                                    (true, TextEdit::Keep)
                                }
                            },
                            _ => (true, TextEdit::Replace(step_text(line, key, 65535, 10))),
                        }
                    } else {
                        (true, TextEdit::Input)
                    }
                },
            }
        } else {
            match key {
                FieldKey::Esc => (false, TextEdit::Keep),
                FieldKey::Left | FieldKey::Right | FieldKey::Char('h') | FieldKey::Char('l') => {
                    self.toggle(editing);
                    (true, TextEdit::Keep)
                },
                _ => (true, TextEdit::Keep),
            }
        }
    }

    /// The profile's name: the name field's text.
    pub fn get_name(&self, texts: &FormTexts) -> (r: String)
        ensures
            r@ == texts.name@,
    {
        texts.name.clone()
    }

    /// The profile that the form makes: empty texts fall back to the
    /// placeholders (host 127.0.0.1, port 6379, database 0, tunnel host
    /// 127.0.0.1, tunnel port 22, tunnel user root), texts that are no number
    /// of the field's type to 6379 for ports and 0 for the database, empty
    /// credentials to none; the tunnel is there only when it is switched on.
    pub fn to_database(&self, texts: &FormTexts) -> (r: Database)
        ensures
            r@ == form_database(*self, *texts),
    {
        let host = text_or(&texts.host, "127.0.0.1");
        let port = number_text_or(&texts.port, "6379", 65535, 6379) as u16;
        let username = non_empty_text(&texts.username);
        let password = non_empty_text(&texts.password);
        let db = number_text_or(&texts.db, "0", 4294967295, 0) as u32;
        let ssh_tunnel = if self.use_ssh_tunnel {
            Some(
                SshTunnel {
                    host: text_or(&texts.ssh_host, "127.0.0.1"),
                    port: number_text_or(&texts.ssh_port, "22", 65535, 6379) as u16,
                    username: text_or(&texts.ssh_username, "root"),
                    password: texts.ssh_password.clone(),
                },
            )
        } else {
            None
        };
        Database {
            host,
            port,
            username,
            password,
            use_tls: self.use_tls,
            use_ssh_tunnel: self.use_ssh_tunnel,
            db,
            protocol: self.protocol,
            ssh_tunnel,
        }
    }
}

fn text_or(s: &String, placeholder: &str) -> (r: String)
    ensures
        r@ == or_placeholder(s@, placeholder@),
{
    if s.as_str().is_empty() {
        placeholder.to_string()
    } else {
        s.clone()
    }
}

fn non_empty_text(s: &String) -> (r: Option<String>)
    ensures
        crate::configuration::opt_str(r) == non_empty(s@),
{
    if s.as_str().is_empty() {
        None
    } else {
        Some(s.clone())
    }
}

fn number_text_or(s: &String, placeholder: &str, max: u64, fallback: u64) -> (r: u64)
    requires
        fallback <= max,
    ensures
        r as nat == number_or(or_placeholder(s@, placeholder@), max as nat, fallback as nat),
        r <= max,
{
    let t = text_or(s, placeholder);
    match parse_unsigned(t.as_str(), max) {
        Some(v) => v,
        None => fallback,
    }
}

/// The form's texts all empty.
pub fn empty_texts() -> (r: FormTexts)
    ensures
        r.name@.len() == 0,
        r.host@.len() == 0,
        r.port@.len() == 0,
        r.username@.len() == 0,
        r.password@.len() == 0,
        r.db@.len() == 0,
        r.ssh_host@.len() == 0,
        r.ssh_port@.len() == 0,
        r.ssh_username@.len() == 0,
        r.ssh_password@.len() == 0,
{
    FormTexts {
        name: String::new(),
        host: String::new(),
        port: String::new(),
        username: String::new(),
        password: String::new(),
        db: String::new(),
        ssh_host: String::new(),
        ssh_port: String::new(),
        ssh_username: String::new(),
        ssh_password: String::new(),
    }
}

/// The texts and switches of the form that edits a row's profile: the
/// row's name and the profile's fields, credentials and tunnel fields left
/// empty where the profile has none; authentication is on where it has a
/// password.
pub open spec fn texts_of(d: crate::servers::DataView) -> (bool, Seq<Seq<char>>) {
    let db = d.database;
    (
        db.password is Some,
        seq![
            d.name,
            db.host,
            decimal(db.port as nat),
            match db.username { Some(u) => u, None => seq![] },
            match db.password { Some(p) => p, None => seq![] },
            d.db,
            match db.ssh_tunnel { Some(t) => t.0, None => seq![] },
            match db.ssh_tunnel { Some(t) => decimal(t.1 as nat), None => seq![] },
            match db.ssh_tunnel { Some(t) => t.2, None => seq![] },
            match db.ssh_tunnel { Some(t) => t.3, None => seq![] },
        ],
    )
}

/// The texts in the order of `texts_of`.
pub open spec fn texts_seq(t: FormTexts) -> Seq<Seq<char>> {
    seq![
        t.name@,
        t.host@,
        t.port@,
        t.username@,
        t.password@,
        t.db@,
        t.ssh_host@,
        t.ssh_port@,
        t.ssh_username@,
        t.ssh_password@,
    ]
}

fn opt_or_empty(o: &Option<String>) -> (r: String)
    ensures
        r@ == match *o {
            Some(s) => s@,
            None => Seq::<char>::empty(),
        },
{
    match o {
        Some(s) => s.clone(),
        None => String::new(),
    }
}

impl Form {
    /// The form that edits a row's profile.
    pub fn from_data(data: &Data) -> (r: (Form, FormTexts))
        ensures
            r.0.editing == 0,
            r.0.title@ == Seq::<char>::empty(),
            r.0.enabled_authentication == texts_of(data@).0,
            r.0.use_tls == data.database.use_tls,
            r.0.protocol == data.database.protocol,
            r.0.use_ssh_tunnel == data.database.use_ssh_tunnel,
            texts_seq(r.1) == texts_of(data@).1,
    {
        let d = &data.database;
        let (ssh_host, ssh_port, ssh_username, ssh_password) = match &d.ssh_tunnel {
            Some(t) => (t.host.clone(), u64_to_string(t.port as u64), t.username.clone(), t.password.clone()),
            None => (String::new(), String::new(), String::new(), String::new()),
        };
        let form = Form {
            title: String::new(),
            editing: 0,
            enabled_authentication: d.password.is_some(),
            use_tls: d.use_tls,
            protocol: d.protocol,
            use_ssh_tunnel: d.use_ssh_tunnel,
        };
        let texts = FormTexts {
            name: data.name.clone(),
            host: d.host.clone(),
            port: u64_to_string(d.port as u64),
            username: opt_or_empty(&d.username),
            password: opt_or_empty(&d.password),
            db: data.db.clone(),
            ssh_host,
            ssh_port,
            ssh_username,
            ssh_password,
        };
        proof {
            assert(texts_seq(texts) =~= texts_of(data@).1);
        }
        (form, texts)
    }
}

/// Filling the form from a row (`Form::from_data`) and reading it back
/// (`Form::to_database`) gives the row's profile, for every profile the form
/// can write: a host, no empty user name or password, a tunnel exactly when
/// it is switched on, with a host and a user, and a row whose database text
/// is the profile's database number.
pub proof fn lemma_form_round_trip(d: crate::servers::DataView, f: Form, t: FormTexts)
    requires
        f.use_tls == d.database.use_tls,
        f.protocol == d.database.protocol,
        f.use_ssh_tunnel == d.database.use_ssh_tunnel,
        texts_seq(t) == texts_of(d).1,
        d.database.host.len() > 0,
        d.database.username matches Some(u) ==> u.len() > 0,
        d.database.password matches Some(p) ==> p.len() > 0,
        d.database.use_ssh_tunnel <==> d.database.ssh_tunnel is Some,
        d.database.ssh_tunnel matches Some(tun) ==> tun.0.len() > 0 && tun.2.len() > 0,
        d.db == decimal(d.database.db as nat),
    ensures
        form_database(f, t) == d.database,
{
    let db = d.database;
    let ts = texts_seq(t);
    let want = texts_of(d).1;
    assert(t.host@ == ts[1] && ts[1] == want[1]);
    assert(t.port@ == want[2]);
    assert(t.username@ == want[3]);
    assert(t.password@ == want[4]);
    assert(t.db@ == want[5]);
    assert(t.ssh_host@ == want[6]);
    assert(t.ssh_port@ == want[7]);
    assert(t.ssh_username@ == want[8]);
    assert(t.ssh_password@ == want[9]);
    crate::field::lemma_parse_decimal(db.port as nat, 65535);
    crate::field::lemma_parse_decimal(db.db as nat, 4294967295);
    let r = form_database(f, t);
    assert(r.host == db.host);
    assert(r.port == db.port);
    assert(r.db == db.db);
    match db.username {
        Some(u) => assert(r.username == Some(u)),
        None => assert(r.username is None),
    }
    match db.password {
        Some(p) => assert(r.password == Some(p)),
        None => assert(r.password is None),
    }
    match db.ssh_tunnel {
        Some(tun) => {
            crate::field::lemma_parse_decimal(tun.1 as nat, 65535);
            assert(r.ssh_tunnel == Some(tun));
        },
        None => {},
    }
}

/// Tab and BackTab undo each other: from a field that is shown, moving to
/// the next shown field and back, or to the previous one and forth, returns
/// to it; and neither ever lands on a hidden field.
pub proof fn lemma_next_prev_inverse(i: int, auth: bool, ssh: bool)
    requires
        0 <= i < 14,
        !hidden(i, auth, ssh),
    ensures
        prev_position(next_position(i, auth, ssh), auth, ssh) == i,
        next_position(prev_position(i, auth, ssh), auth, ssh) == i,
        !hidden(next_position(i, auth, ssh), auth, ssh),
        !hidden(prev_position(i, auth, ssh), auth, ssh),
        0 <= next_position(i, auth, ssh) < 14,
        0 <= prev_position(i, auth, ssh) < 14,
{
    lemma_skip_closed(auth, ssh);
}

/// The first shown position at or after `j`, written out.
pub open spec fn forward_closed(j: int, auth: bool, ssh: bool) -> int {
    if !auth && (j == 4 || j == 5) {
        6
    } else if !ssh && 10 <= j <= 13 {
        0
    } else {
        j
    }
}

/// The first shown position at or before `j`, written out.
pub open spec fn backward_closed(j: int, auth: bool, ssh: bool) -> int {
    if !ssh && 10 <= j <= 13 {
        9
    } else if !auth && (j == 4 || j == 5) {
        3
    } else {
        j
    }
}

proof fn lemma_skip_closed(auth: bool, ssh: bool)
    ensures
        forall|j: int|
            0 <= j < 14 ==> #[trigger] skip_forward(j, auth, ssh) == forward_closed(j, auth, ssh),
        forall|j: int|
            0 <= j < 14 ==> #[trigger] skip_backward(j, auth, ssh) == backward_closed(j, auth, ssh),
{
    assert forall|j: int| 0 <= j < 14 implies #[trigger] skip_forward(j, auth, ssh)
        == forward_closed(j, auth, ssh) by {
        if 10 <= j <= 13 && !ssh {
            assert(skip_forward(0, auth, ssh) == 0);
            if j <= 12 {
                if j <= 11 {
                    if j <= 10 {
                        assert(skip_forward(13, auth, ssh) == 0);
                        assert(skip_forward(12, auth, ssh) == 0);
                        assert(skip_forward(11, auth, ssh) == 0);
                    } else {
                        assert(skip_forward(13, auth, ssh) == 0);
                        assert(skip_forward(12, auth, ssh) == 0);
                    }
                } else {
                    assert(skip_forward(13, auth, ssh) == 0);
                }
            }
        } else if (j == 4 || j == 5) && !auth {
            assert(skip_forward(6, auth, ssh) == 6);
            if j == 4 {
                assert(skip_forward(5, auth, ssh) == 6);
            }
        }
    }
    assert forall|j: int| 0 <= j < 14 implies #[trigger] skip_backward(j, auth, ssh)
        == backward_closed(j, auth, ssh) by {
        if 10 <= j <= 13 && !ssh {
            assert(skip_backward(9, auth, ssh) == 9);
            if j >= 11 {
                assert(skip_backward(10, auth, ssh) == 9);
                if j >= 12 {
                    assert(skip_backward(11, auth, ssh) == 9);
                    if j >= 13 {
                        assert(skip_backward(12, auth, ssh) == 9);
                    }
                }
            }
        } else if (j == 4 || j == 5) && !auth {
            assert(skip_backward(3, auth, ssh) == 3);
            if j == 5 {
                assert(skip_backward(4, auth, ssh) == 3);
            }
        }
    }
}

/// The key hints of the form's footer: Tab and Back Tab, then, on the port
/// and database fields, the keys that step the number.
pub open spec fn form_hints(editing: usize) -> Seq<(Seq<char>, Seq<char>)> {
    let base = seq![("Tab"@, "Next"@), ("BackTab"@, "Prev"@)];
    if field_at(editing as int) == Editing::Db || field_at(editing as int) == Editing::Port {
        base + seq![("↑"@, "+10"@), ("↓"@, "-10"@), ("→"@, "+1"@), ("←"@, "-1"@)]
    } else {
        base
    }
}

impl Form {
    /// The key hints of the form's footer.
    pub fn footer_elements(&self) -> (r: Vec<(String, String)>)
        ensures
            hints(r@) == form_hints(self.editing),
    {
        let mut v: Vec<(String, String)> = Vec::new();
        push_hint(&mut v, "Tab", "Next");
        push_hint(&mut v, "BackTab", "Prev");
        if self.editing == 7 || self.editing == 2 {
            push_hint(&mut v, "↑", "+10");
            push_hint(&mut v, "↓", "-10");
            push_hint(&mut v, "→", "+1");
            push_hint(&mut v, "←", "-1");
        }
        proof {
            assert(hints(v@) =~= form_hints(self.editing));
        }
        v
    }
}

} // verus!
