//! Replies of a Redis server, and how the console shows them.
use crate::console::OutputKind;
use crate::text::{decimal, extend_chars, str_eq, from_chars, push_decimal, push_signed_decimal, signed_decimal, spec_lines, split_lines, to_chars};
use crate::utils::{escape_seq, escape_string};
use vstd::prelude::*;

verus! {

/// The format tag of a verbatim string.
#[derive(Clone, PartialEq, Eq, Debug)]
pub enum VerbatimFormat {
    /// A tag the client does not know; the console also uses `ERROR` and
    /// `PROMPT` for its own messages.
    Unknown(String),
    Markdown,
    Text,
}

/// A reply of a Redis server.
///
/// Where the reply holds a number that only the display needs, the value
/// holds its text as well: a double as its bits and its text, a big number
/// and a server error as their text.  A bulk string holds its bytes and the
/// text they are shown as.
#[derive(Debug)]
pub enum RespValue {
    Nil,
    Int(i64),
    BulkString { bytes: Vec<u8>, shown: String },
    Array(Vec<RespValue>),
    SimpleString(String),
    Okay,
    MapOf(Vec<(RespValue, RespValue)>),
    Attribute,
    SetOf(Vec<RespValue>),
    Double { bits: u64, text: String },
    Boolean(bool),
    VerbatimString { format: VerbatimFormat, text: String },
    BigNumber(String),
    Push(Vec<RespValue>),
    ServerError(String),
}

/// A console line as the contracts see it.
pub type LineView = (OutputKind, Seq<char>);

/// `n` spaces.
pub open spec fn spaces(n: nat) -> Seq<char> {
    Seq::new(n, |i: int| ' ')
}

/// A line of normal output, indented by `pad`.
pub open spec fn std_line(pad: nat, s: Seq<char>) -> LineView {
    (OutputKind::Std, spaces(pad) + s)
}

/// A line of error output, indented by `pad`.
pub open spec fn err_line(pad: nat, s: Seq<char>) -> LineView {
    (OutputKind::Error, spaces(pad) + s)
}

/// The text with every tab written as `\t`.
pub open spec fn replace_tabs(s: Seq<char>) -> Seq<char>
    decreases s.len(),
{
    if s.len() == 0 {
        seq![]
    } else if s.last() == '\t' {
        replace_tabs(s.drop_last()) + seq!['\\', 't']
    } else {
        replace_tabs(s.drop_last()).push(s.last())
    }
}

/// Each line of a text as one console line of the given kind.
pub open spec fn text_lines(kind: OutputKind, pad: nat, s: Seq<char>) -> Seq<LineView> {
    spec_lines(s).map_values(|l: Seq<char>| (kind, spaces(pad) + l))
}

/// The `"n) "` label of the `n`-th item.
pub open spec fn label(n: nat) -> Seq<char> {
    decimal(n) + seq![')', ' ']
}

/// The text after the first two characters.
pub open spec fn drop2(s: Seq<char>) -> Seq<char> {
    if s.len() >= 2 {
        s.skip(2)
    } else {
        seq![]
    }
}

/// How the `n`-th element of an array is listed: a single line of normal or
/// error output goes next to its label (a line no longer than two
/// characters gives the bare label); several lines go below the label.
pub open spec fn array_item(pad: nat, n: nat, sub: Seq<LineView>) -> Seq<LineView> {
    if sub.len() == 1 {
        if sub[0].1.len() > 2 {
            match sub[0].0 {
                OutputKind::Std => seq![std_line(pad, label(n) + sub[0].1.skip(2))],
                OutputKind::Error => seq![err_line(pad, label(n) + sub[0].1.skip(2))],
                _ => seq![],
            }
        } else {
            seq![std_line(pad, label(n))]
        }
    } else {
        seq![std_line(pad, label(n))] + sub
    }
}

/// How the `n`-th element of a map or a set is listed: a single line of
/// normal or error output goes next to its label, several lines below it.
pub open spec fn keyed_item(pad: nat, n: nat, sub: Seq<LineView>) -> Seq<LineView> {
    if sub.len() == 1 {
        match sub[0].0 {
            OutputKind::Std => seq![std_line(pad, label(n) + drop2(sub[0].1))],
            OutputKind::Error => seq![err_line(pad, label(n) + drop2(sub[0].1))],
            _ => seq![],
        }
    } else {
        seq![std_line(pad, label(n))] + sub
    }
}

/// The console lines of a reply, indented by `pad`.
pub open spec fn value_lines(v: RespValue, pad: nat) -> Seq<LineView>
    decreases v, 0int,
{
    match v {
        RespValue::Nil => seq![std_line(pad, seq!['(', 'N', 'i', 'l', ')'])],
        RespValue::Int(i) => seq![std_line(pad, signed_decimal(i as int))],
        RespValue::BulkString { bytes, shown } => text_lines(
            OutputKind::Std,
            pad,
            replace_tabs(shown@),
        ),
        RespValue::Array(items) => array_lines(items@, pad, 0),
        RespValue::SimpleString(s) => text_lines(OutputKind::Std, pad, escape_seq(s@)),
        RespValue::Okay => seq![std_line(pad, seq!['O', 'k', 'a', 'y'])],
        RespValue::MapOf(entries) => map_lines(entries@, pad, 0),
        RespValue::Attribute => seq![err_line(pad, attribute_message())],
        RespValue::SetOf(items) => set_lines(items@, pad, 0),
        RespValue::Double { bits, text } => seq![std_line(pad, text@)],
        RespValue::Boolean(b) => seq![std_line(pad, bool_text(b))],
        RespValue::VerbatimString { format, text } => match format {
            VerbatimFormat::Unknown(s) => if s@ == error_tag() {
                text_lines(OutputKind::Error, pad, text@)
            } else if s@ == prompt_tag() {
                text_lines(OutputKind::Dim, pad, text@)
            } else {
                seq![std_line(pad, seq!['"'] + escape_seq(s@) + seq!['"'])]
            },
            _ => text_lines(OutputKind::Std, pad, text@),
        },
        RespValue::BigNumber(s) => seq![std_line(pad, s@)],
        RespValue::Push(items) => push_lines(items@, pad, 0),
        RespValue::ServerError(s) => seq![err_line(pad, s@)],
    }
}

/// The lines of the array elements from the `k`-th on.
pub open spec fn array_lines(items: Seq<RespValue>, pad: nat, k: int) -> Seq<LineView>
    decreases items, items.len() - k,
{
    if 0 <= k < items.len() {
        array_item(pad, (k + 1) as nat, value_lines(items[k], pad + 2)) + array_lines(
            items,
            pad,
            k + 1,
        )
    } else {
        seq![]
    }
}

/// The lines of the set elements from the `k`-th on.
pub open spec fn set_lines(items: Seq<RespValue>, pad: nat, k: int) -> Seq<LineView>
    decreases items, items.len() - k,
{
    if 0 <= k < items.len() {
        keyed_item(pad, (k + 1) as nat, value_lines(items[k], pad + 2)) + set_lines(
            items,
            pad,
            k + 1,
        )
    } else {
        seq![]
    }
}

/// The lines of the pushed values from the `k`-th on, one after another.
pub open spec fn push_lines(items: Seq<RespValue>, pad: nat, k: int) -> Seq<LineView>
    decreases items, items.len() - k,
{
    if 0 <= k < items.len() {
        value_lines(items[k], pad + 2) + push_lines(items, pad, k + 1)
    } else {
        seq![]
    }
}

/// The lines of the map entries from the `k`-th on: each key and each value
/// is numbered, so entry `k` uses labels `2k + 1` and `2k + 2`.
pub open spec fn map_lines(entries: Seq<(RespValue, RespValue)>, pad: nat, k: int) -> Seq<
    LineView,
>
    decreases entries, entries.len() - k,
{
    if 0 <= k < entries.len() {
        keyed_item(pad, (2 * k + 1) as nat, value_lines(entries[k].0, pad + 2)) + keyed_item(
            pad,
            (2 * k + 2) as nat,
            value_lines(entries[k].1, pad + 2),
        ) + map_lines(entries, pad, k + 1)
    } else {
        seq![]
    }
}

/// `"ERROR"`.
pub open spec fn error_tag() -> Seq<char> {
    seq!['E', 'R', 'R', 'O', 'R']
}

/// `"PROMPT"`.
pub open spec fn prompt_tag() -> Seq<char> {
    seq!['P', 'R', 'O', 'M', 'P', 'T']
}

/// The message shown for attribute replies.
pub open spec fn attribute_message() -> Seq<char> {
    seq![
        'A', 't', 't', 'r', 'i', 'b', 'u', 't', 'e', ',', ' ', 'n', 'o', 't', ' ', 's', 'u',
        'p', 'p', 'o', 'r', 't', 'e', 'd', ' ', 'y', 'e', 't'
    ]
}

/// `true` or `false`.
pub open spec fn bool_text(b: bool) -> Seq<char> {
    if b {
        seq!['t', 'r', 'u', 'e']
    } else {
        seq!['f', 'a', 'l', 's', 'e']
    }
}

/// How deeply replies nest inside a reply.
pub open spec fn depth(v: RespValue) -> nat
    decreases v, 0int,
{
    match v {
        RespValue::Array(items) => 1 + seq_depth(items@, 0),
        RespValue::SetOf(items) => 1 + seq_depth(items@, 0),
        RespValue::Push(items) => 1 + seq_depth(items@, 0),
        RespValue::MapOf(entries) => 1 + entries_depth(entries@, 0),
        _ => 0,
    }
}

/// The greatest depth of the replies from the `k`-th on.
pub open spec fn seq_depth(items: Seq<RespValue>, k: int) -> nat
    decreases items, items.len() - k,
{
    if 0 <= k < items.len() {
        let a = depth(items[k]);
        let b = seq_depth(items, k + 1);
        if a >= b { a } else { b }
    } else {
        0
    }
}

/// The greatest depth of the keys and values from the `k`-th entry on.
pub open spec fn entries_depth(entries: Seq<(RespValue, RespValue)>, k: int) -> nat
    decreases entries, entries.len() - k,
{
    if 0 <= k < entries.len() {
        let a = depth(entries[k].0);
        let b = depth(entries[k].1);
        let c = entries_depth(entries, k + 1);
        let ab = if a >= b { a } else { b };
        if ab >= c { ab } else { c }
    } else {
        0
    }
}


// ---------------------------------------------------------------------------
// Rendering
// ---------------------------------------------------------------------------
/// The views of rendered lines.
pub open spec fn lines_view(v: Seq<(OutputKind, Vec<char>)>) -> Seq<LineView> {
    v.map_values(|l: (OutputKind, Vec<char>)| (l.0, l.1@))
}

/// The views of rendered lines held as strings.
pub open spec fn string_lines_view(v: Seq<(OutputKind, String)>) -> Seq<LineView> {
    v.map_values(|l: (OutputKind, String)| (l.0, l.1@))
}

fn push_spaces(out: &mut Vec<char>, n: u16)
    ensures
        final(out)@ == old(out)@ + spaces(n as nat),
{
    let mut i: u16 = 0;
    while i < n
        invariant
            i <= n,
            out@ == old(out)@ + spaces(i as nat),
        decreases n - i,
    {
        out.push(' ');
        i = i + 1;
        proof {
            assert(out@ =~= old(out)@ + spaces(i as nat));
        }
    }
}

fn make_line(kind: OutputKind, pad: u16, s: &Vec<char>) -> (r: (OutputKind, Vec<char>))
    ensures
        r.0 == kind,
        r.1@ == spaces(pad as nat) + s@,
{
    let mut v: Vec<char> = Vec::new();
    push_spaces(&mut v, pad);
    extend_chars(&mut v, s);
    proof {
        assert(v@ =~= spaces(pad as nat) + s@);
    }
    (kind, v)
}

fn literal_line(kind: OutputKind, pad: u16, s: &str) -> (r: (OutputKind, Vec<char>))
    ensures
        r.0 == kind,
        r.1@ == spaces(pad as nat) + s@,
{
    let v = to_chars(s);
    make_line(kind, pad, &v)
}

fn label_chars(n: u128) -> (r: Vec<char>)
    ensures
        r@ == label(n as nat),
{
    let mut v: Vec<char> = Vec::new();
    push_decimal(&mut v, n);
    v.push(')');
    v.push(' ');
    proof {
        assert(v@ =~= label(n as nat));
    }
    v
}

fn replace_tabs_exec(s: &Vec<char>) -> (r: Vec<char>)
    ensures
        r@ == replace_tabs(s@),
{
    let mut out: Vec<char> = Vec::new();
    let mut i: usize = 0;
    while i < s.len()
        invariant
            i <= s.len(),
            out@ == replace_tabs(s@.take(i as int)),
        decreases s.len() - i,
    {
        proof {
            assert(s@.take(i + 1).drop_last() == s@.take(i as int));
        }
        if s[i] == '\t' {
            out.push('\\');
            out.push('t');
        } else {
            out.push(s[i]);
        }
        proof {
            assert(out@ =~= replace_tabs(s@.take(i + 1)));
        }
        i = i + 1;
    }
    proof {
        assert(s@.take(s@.len() as int) == s@);
    }
    out
}

fn text_lines_exec(kind: OutputKind, pad: u16, s: &Vec<char>) -> (r: Vec<(OutputKind, Vec<char>)>)
    ensures
        lines_view(r@) == text_lines(kind, pad as nat, s@),
{
    let ls = split_lines(s);
    let ghost lsv = ls@.map_values(|l: Vec<char>| l@);
    let mut out: Vec<(OutputKind, Vec<char>)> = Vec::new();
    let mut i: usize = 0;
    while i < ls.len()
        invariant
            i <= ls.len(),
            lsv == ls@.map_values(|l: Vec<char>| l@),
            lsv == spec_lines(s@),
            out@.len() == i,
            forall|j: int| 0 <= j < i ==> #[trigger] out@[j].0 == kind,
            forall|j: int| 0 <= j < i ==> (#[trigger] out@[j]).1@ == spaces(pad as nat) + lsv[j],
        decreases ls.len() - i,
    {
        let line = make_line(kind, pad, &ls[i]);
        let ghost lv = line.1@;
        let ghost lk = line.0;
        proof {
            assert(lv == spaces(pad as nat) + ls@[i as int]@);
            assert(lk == kind);
        }
        let ghost old_out = out@;
        out.push(line);
        proof {
            assert(lsv[i as int] == ls@[i as int]@);
            assert(out@[i as int].1@ == lv);
            assert forall|j: int| 0 <= j < i + 1 implies (#[trigger] out@[j]).0 == kind && out@[j].1@ == spaces(pad as nat) + lsv[j] by {
                if j < i {
                    assert(out@[j] == old_out[j]);
                } else {
                    assert(out@[j].0 == lk);
                    assert(out@[j].1@ == lv);
                }
            }
        }
        i = i + 1;
    }
    proof {
        assert(lines_view(out@) =~= text_lines(kind, pad as nat, s@));
    }
    out
}

fn array_item_exec(pad: u16, n: u128, sub: Vec<(OutputKind, Vec<char>)>) -> (r: Vec<
    (OutputKind, Vec<char>),
>)
    ensures
        lines_view(r@) == array_item(pad as nat, n as nat, lines_view(sub@)),
{
    let ghost subv = lines_view(sub@);
    let lab = label_chars(n);
    let mut out: Vec<(OutputKind, Vec<char>)> = Vec::new();
    if sub.len() == 1 {
        let kind = sub[0].0;
        let first = &sub[0].1;
        if first.len() > 2 {
            let mut text = lab;
            let mut j: usize = 2;
            while j < first.len()
                invariant
                    2 <= j <= first.len(),
                    text@ == label(n as nat) + first@.subrange(2, j as int),
                decreases first.len() - j,
            {
                text.push(first[j]);
                proof {
                    assert(text@ =~= label(n as nat) + first@.subrange(2, j + 1));
                }
                j = j + 1;
            }
            proof {
                assert(first@.subrange(2, first@.len() as int) == first@.skip(2));
            }
            match kind {
                OutputKind::Std => out.push(make_line(OutputKind::Std, pad, &text)),
                OutputKind::Error => out.push(make_line(OutputKind::Error, pad, &text)),
                _ => {},
            }
        } else {
            out.push(make_line(OutputKind::Std, pad, &lab));
        }
        proof {
            assert(lines_view(out@) =~= array_item(pad as nat, n as nat, lines_view(sub@)));
        }
        out
    } else {
        out.push(make_line(OutputKind::Std, pad, &lab));
        let mut sub = sub;
        out.append(&mut sub);
        proof {
            assert(lines_view(out@) =~= array_item(pad as nat, n as nat, subv));
        }
        out
    }
}


fn drop2_chars(s: &Vec<char>) -> (r: Vec<char>)
    ensures
        r@ == drop2(s@),
{
    let mut out: Vec<char> = Vec::new();
    if s.len() >= 2 {
        let mut j: usize = 2;
        while j < s.len()
            invariant
                2 <= j <= s.len(),
                out@ == s@.subrange(2, j as int),
            decreases s.len() - j,
        {
            out.push(s[j]);
            proof {
                assert(out@ =~= s@.subrange(2, j + 1));
            }
            j = j + 1;
        }
        proof {
            assert(s@.subrange(2, s@.len() as int) == s@.skip(2));
        }
    } else {
        proof {
            assert(out@ =~= drop2(s@));
        }
    }
    out
}

fn keyed_item_exec(pad: u16, n: u128, sub: Vec<(OutputKind, Vec<char>)>) -> (r: Vec<
    (OutputKind, Vec<char>),
>)
    ensures
        lines_view(r@) == keyed_item(pad as nat, n as nat, lines_view(sub@)),
{
    let ghost subv = lines_view(sub@);
    let lab = label_chars(n);
    let mut out: Vec<(OutputKind, Vec<char>)> = Vec::new();
    if sub.len() == 1 {
        let kind = sub[0].0;
        let rest = drop2_chars(&sub[0].1);
        let mut text = lab;
        extend_chars(&mut text, &rest);
        match kind {
            OutputKind::Std => out.push(make_line(OutputKind::Std, pad, &text)),
            OutputKind::Error => out.push(make_line(OutputKind::Error, pad, &text)),
            _ => {},
        }
        proof {
            assert(lines_view(out@) =~= keyed_item(pad as nat, n as nat, subv));
        }
        out
    } else {
        out.push(make_line(OutputKind::Std, pad, &lab));
        let mut sub = sub;
        out.append(&mut sub);
        proof {
            assert(lines_view(out@) =~= keyed_item(pad as nat, n as nat, subv));
        }
        out
    }
}

proof fn lemma_seq_depth(items: Seq<RespValue>, j: int, k: int)
    requires
        0 <= j <= k < items.len(),
    ensures
        depth(items[k]) <= seq_depth(items, j),
    decreases k - j,
{
    if j < k {
        lemma_seq_depth(items, j + 1, k);
    }
}

proof fn lemma_entries_depth(entries: Seq<(RespValue, RespValue)>, j: int, k: int)
    requires
        0 <= j <= k < entries.len(),
    ensures
        depth(entries[k].0) <= entries_depth(entries, j),
        depth(entries[k].1) <= entries_depth(entries, j),
    decreases k - j,
{
    if j < k {
        lemma_entries_depth(entries, j + 1, k);
    }
}

fn append_lines(out: &mut Vec<(OutputKind, Vec<char>)>, more: Vec<(OutputKind, Vec<char>)>)
    ensures
        lines_view(final(out)@) == lines_view(old(out)@) + lines_view(more@),
{
    let mut more = more;
    let ghost mv = lines_view(more@);
    out.append(&mut more);
    proof {
        assert(lines_view(out@) =~= lines_view(old(out)@) + mv);
    }
}

/// The console lines of a reply, as characters.
fn value_lines_exec(v: &RespValue, pad: u16) -> (r: Vec<(OutputKind, Vec<char>)>)
    requires
        pad + 2 * depth(*v) <= u16::MAX,
    ensures
        lines_view(r@) == value_lines(*v, pad as nat),
    decreases *v,
{
    match v {
        RespValue::Nil => {
            let mut out = Vec::new();
            out.push(literal_line(OutputKind::Std, pad, "(Nil)"));
            proof {
                reveal_strlit("(Nil)");
                assert("(Nil)"@ =~= seq!['(', 'N', 'i', 'l', ')']);
                assert(lines_view(out@) =~= value_lines(*v, pad as nat));
            }
            out
        },
        RespValue::Int(i) => {
            let mut t: Vec<char> = Vec::new();
            push_signed_decimal(&mut t, *i);
            let mut out = Vec::new();
            out.push(make_line(OutputKind::Std, pad, &t));
            proof {
                assert(lines_view(out@) =~= value_lines(*v, pad as nat));
            }
            out
        },
        RespValue::BulkString { bytes: _, shown } => {
            let t = to_chars(shown.as_str());
            let t2 = replace_tabs_exec(&t);
            text_lines_exec(OutputKind::Std, pad, &t2)
        },
        RespValue::Array(items) => {
            let mut out: Vec<(OutputKind, Vec<char>)> = Vec::new();
            let mut k: usize = 0;
            proof {
                assert(lines_view(out@) + array_lines(items@, pad as nat, 0) =~= array_lines(items@, pad as nat, 0));
            }
            while k < items.len()
                invariant
                    k <= items.len(),
                    pad + 2 * depth(*v) <= u16::MAX,
                    *v == RespValue::Array(*items),
                    lines_view(out@) + array_lines(items@, pad as nat, k as int) == array_lines(items@, pad as nat, 0),
                decreases items.len() - k,
            {
                proof {
                    lemma_seq_depth(items@, 0, k as int);
                }
                let sub = value_lines_exec(&items[k], pad + 2);
                let item = array_item_exec(pad, (k as u128) + 1, sub);
                let ghost before = lines_view(out@);
                append_lines(&mut out, item);
                proof {
                    assert(before + array_lines(items@, pad as nat, k as int) == lines_view(out@) + array_lines(items@, pad as nat, k + 1));
                }
                k = k + 1;
            }
            proof {
                assert(lines_view(out@) + array_lines(items@, pad as nat, k as int) =~= lines_view(out@));
            }
            out
        },
        RespValue::SimpleString(st) => {
            let e = escape_string(st.as_str());
            let t = to_chars(e.as_str());
            text_lines_exec(OutputKind::Std, pad, &t)
        },
        RespValue::Okay => {
            let mut out = Vec::new();
            out.push(literal_line(OutputKind::Std, pad, "Okay"));
            proof {
                reveal_strlit("Okay");
                assert("Okay"@ =~= seq!['O', 'k', 'a', 'y']);
                assert(lines_view(out@) =~= value_lines(*v, pad as nat));
            }
            out
        },
        RespValue::MapOf(entries) => {
            let mut out: Vec<(OutputKind, Vec<char>)> = Vec::new();
            let mut k: usize = 0;
            proof {
                assert(lines_view(out@) + map_lines(entries@, pad as nat, 0) =~= map_lines(entries@, pad as nat, 0));
            }
            while k < entries.len()
                invariant
                    k <= entries.len(),
                    pad + 2 * depth(*v) <= u16::MAX,
                    *v == RespValue::MapOf(*entries),
                    lines_view(out@) + map_lines(entries@, pad as nat, k as int) == map_lines(entries@, pad as nat, 0),
                decreases entries.len() - k,
            {
                proof {
                    lemma_entries_depth(entries@, 0, k as int);
                }
                let ks = value_lines_exec(&entries[k].0, pad + 2);
                let vs = value_lines_exec(&entries[k].1, pad + 2);
                let n: u128 = 2 * (k as u128);
                let ki = keyed_item_exec(pad, n + 1, ks);
                let vi = keyed_item_exec(pad, n + 2, vs);
                let ghost before = lines_view(out@);
                append_lines(&mut out, ki);
                append_lines(&mut out, vi);
                proof {
                    assert(before + map_lines(entries@, pad as nat, k as int) =~= lines_view(out@) + map_lines(entries@, pad as nat, k + 1));
                }
                k = k + 1;
            }
            proof {
                assert(lines_view(out@) + map_lines(entries@, pad as nat, k as int) =~= lines_view(out@));
            }
            out
        },
        RespValue::Attribute => {
            let mut out = Vec::new();
            out.push(literal_line(OutputKind::Error, pad, "Attribute, not supported yet"));
            proof {
                reveal_strlit("Attribute, not supported yet");
                assert("Attribute, not supported yet"@ =~= attribute_message());
                assert(lines_view(out@) =~= value_lines(*v, pad as nat));
            }
            out
        },
        RespValue::SetOf(items) => {
            let mut out: Vec<(OutputKind, Vec<char>)> = Vec::new();
            let mut k: usize = 0;
            proof {
                assert(lines_view(out@) + set_lines(items@, pad as nat, 0) =~= set_lines(items@, pad as nat, 0));
            }
            while k < items.len()
                invariant
                    k <= items.len(),
                    pad + 2 * depth(*v) <= u16::MAX,
                    *v == RespValue::SetOf(*items),
                    lines_view(out@) + set_lines(items@, pad as nat, k as int) == set_lines(items@, pad as nat, 0),
                decreases items.len() - k,
            {
                proof {
                    lemma_seq_depth(items@, 0, k as int);
                }
                let sub = value_lines_exec(&items[k], pad + 2);
                let item = keyed_item_exec(pad, (k as u128) + 1, sub);
                let ghost before = lines_view(out@);
                append_lines(&mut out, item);
                proof {
                    assert(before + set_lines(items@, pad as nat, k as int) =~= lines_view(out@) + set_lines(items@, pad as nat, k + 1));
                }
                k = k + 1;
            }
            proof {
                assert(lines_view(out@) + set_lines(items@, pad as nat, k as int) =~= lines_view(out@));
            }
            out
        },
        RespValue::Double { bits: _, text } => {
            let t = to_chars(text.as_str());
            let mut out = Vec::new();
            out.push(make_line(OutputKind::Std, pad, &t));
            proof {
                assert(lines_view(out@) =~= value_lines(*v, pad as nat));
            }
            out
        },
        RespValue::Boolean(b) => {
            let mut out = Vec::new();
            if *b {
                out.push(literal_line(OutputKind::Std, pad, "true"));
                proof {
                    reveal_strlit("true");
                    assert("true"@ =~= bool_text(true));
                }
            } else {
                out.push(literal_line(OutputKind::Std, pad, "false"));
                proof {
                    reveal_strlit("false");
                    assert("false"@ =~= bool_text(false));
                }
            }
            proof {
                assert(lines_view(out@) =~= value_lines(*v, pad as nat));
            }
            out
        },
        RespValue::VerbatimString { format, text } => {
            let t = to_chars(text.as_str());
            match format {
                VerbatimFormat::Unknown(tag) => {
                    proof {
                        reveal_strlit("ERROR");
                        reveal_strlit("PROMPT");
                        assert("ERROR"@ =~= error_tag());
                        assert("PROMPT"@ =~= prompt_tag());
                    }
                    if str_eq(tag.as_str(), "ERROR") {
                        proof {
                            assert(tag@ == error_tag());
                        }
                        text_lines_exec(OutputKind::Error, pad, &t)
                    } else if str_eq(tag.as_str(), "PROMPT") {
                        proof {
                            assert(tag@ == prompt_tag());
                            assert(tag@ != error_tag());
                        }
                        text_lines_exec(OutputKind::Dim, pad, &t)
                    } else {
                        proof {
                            assert(tag@ != error_tag());
                            assert(tag@ != prompt_tag());
                        }
                        let e = escape_string(tag.as_str());
                        let mut q: Vec<char> = Vec::new();
                        q.push('"');
                        let ec = to_chars(e.as_str());
                        extend_chars(&mut q, &ec);
                        q.push('"');
                        let mut out = Vec::new();
                        out.push(make_line(OutputKind::Std, pad, &q));
                        proof {
                            assert(q@ =~= seq!['"'] + escape_seq(tag@) + seq!['"']);
                            assert(lines_view(out@) =~= value_lines(*v, pad as nat));
                        }
                        out
                    }
                },
                _ => text_lines_exec(OutputKind::Std, pad, &t),
            }
        },
        RespValue::BigNumber(text) => {
            let t = to_chars(text.as_str());
            let mut out = Vec::new();
            out.push(make_line(OutputKind::Std, pad, &t));
            proof {
                assert(lines_view(out@) =~= value_lines(*v, pad as nat));
            }
            out
        },
        RespValue::Push(items) => {
            let mut out: Vec<(OutputKind, Vec<char>)> = Vec::new();
            let mut k: usize = 0;
            proof {
                assert(lines_view(out@) + push_lines(items@, pad as nat, 0) =~= push_lines(items@, pad as nat, 0));
            }
            while k < items.len()
                invariant
                    k <= items.len(),
                    pad + 2 * depth(*v) <= u16::MAX,
                    *v == RespValue::Push(*items),
                    lines_view(out@) + push_lines(items@, pad as nat, k as int) == push_lines(items@, pad as nat, 0),
                decreases items.len() - k,
            {
                proof {
                    lemma_seq_depth(items@, 0, k as int);
                }
                let sub = value_lines_exec(&items[k], pad + 2);
                let ghost before = lines_view(out@);
                append_lines(&mut out, sub);
                proof {
                    assert(before + push_lines(items@, pad as nat, k as int) =~= lines_view(out@) + push_lines(items@, pad as nat, k + 1));
                }
                k = k + 1;
            }
            proof {
                assert(lines_view(out@) + push_lines(items@, pad as nat, k as int) =~= lines_view(out@));
            }
            out
        },
        RespValue::ServerError(text) => {
            let t = to_chars(text.as_str());
            let mut out = Vec::new();
            out.push(make_line(OutputKind::Error, pad, &t));
            proof {
                assert(lines_view(out@) =~= value_lines(*v, pad as nat));
            }
            out
        },
    }
}

proof fn lemma_int_array_from(items: Seq<RespValue>, k: int)
    requires
        0 <= k <= items.len(),
        forall|j: int| 0 <= j < items.len() ==> items[j] is Int,
    ensures
        array_lines(items, 0, k).len() == items.len() - k,
        forall|j: int|
            k <= j < items.len() ==> #[trigger] array_lines(items, 0, k)[j - k] == (
                OutputKind::Std,
                decimal((j + 1) as nat) + seq![')', ' '] + value_lines(items[j], 0)[0].1,
            ),
    decreases items.len() - k,
{
    if k < items.len() {
        lemma_int_array_from(items, k + 1);
        let i = items[k]->Int_0;
        let sub = value_lines(items[k], 2);
        lemma_int_reply_line(i, 2);
        lemma_int_reply_line(i, 0);
        assert(sub[0].1.len() > 2);
        assert(sub[0].1.skip(2) =~= value_lines(items[k], 0)[0].1) by {
            assert(sub[0].1 == spaces(2) + signed_decimal(i as int));
            assert(value_lines(items[k], 0)[0].1 == spaces(0) + signed_decimal(i as int));
            assert(spaces(0) + signed_decimal(i as int) =~= signed_decimal(i as int));
        }
        let first = array_item(0, (k + 1) as nat, sub);
        assert(first == seq![std_line(0, label((k + 1) as nat) + sub[0].1.skip(2))]);
        assert(std_line(0, label((k + 1) as nat) + sub[0].1.skip(2)).1 =~= decimal((k + 1) as nat)
            + seq![')', ' '] + value_lines(items[k], 0)[0].1);
        let rest = array_lines(items, 0, k + 1);
        assert(array_lines(items, 0, k) == first + rest);
        assert forall|j: int| k <= j < items.len() implies #[trigger] array_lines(items, 0, k)[j - k] == (
            OutputKind::Std,
            decimal((j + 1) as nat) + seq![')', ' '] + value_lines(items[j], 0)[0].1,
        ) by {
            if j > k {
                assert(array_lines(items, 0, k)[j - k] == rest[j - (k + 1)]);
            }
        }
    }
}

/// An array of integers, at the left margin, is one line per element, in
/// order: the element's number counted from 1, `)`, a space, and the line
/// the integer alone would be shown as.
pub proof fn lemma_int_array_lines(items: Vec<RespValue>)
    requires
        forall|j: int| 0 <= j < items@.len() ==> items@[j] is Int,
    ensures
        value_lines(RespValue::Array(items), 0).len() == items@.len(),
        forall|j: int|
            0 <= j < items@.len() ==> #[trigger] value_lines(RespValue::Array(items), 0)[j] == (
                OutputKind::Std,
                decimal((j + 1) as nat) + seq![')', ' '] + value_lines(items@[j], 0)[0].1,
            ),
{
    lemma_int_array_from(items@, 0);
    assert forall|j: int| 0 <= j < items@.len() implies #[trigger] value_lines(RespValue::Array(items), 0)[j] == (
        OutputKind::Std,
        decimal((j + 1) as nat) + seq![')', ' '] + value_lines(items@[j], 0)[0].1,
    ) by {
        assert(array_lines(items@, 0, 0)[j - 0] == value_lines(RespValue::Array(items), 0)[j]);
    }
}

/// An integer reply is one line of normal output: the indentation, then
/// the number's digits, one or more, spelling its size, after a minus sign
/// exactly when it is negative.
pub proof fn lemma_int_reply_line(i: i64, pad: nat)
    ensures
        value_lines(RespValue::Int(i), pad).len() == 1,
        value_lines(RespValue::Int(i), pad)[0].0 == OutputKind::Std,
        value_lines(RespValue::Int(i), pad)[0].1.take(pad as int) == spaces(pad),
        ({
            let t = value_lines(RespValue::Int(i), pad)[0].1.skip(pad as int);
            let digits = if i < 0 {
                t.drop_first()
            } else {
                t
            };
            &&& (t.len() > 0 && t[0] == '-') == (i < 0)
            &&& digits.len() > 0
            &&& crate::field::all_digits(digits)
            &&& crate::field::digits_value(digits) == (if i < 0 {
                -i
            } else {
                i as int
            })
        }),
{
    let line = value_lines(RespValue::Int(i), pad)[0].1;
    let n: nat = if i < 0 {
        (-i) as nat
    } else {
        i as nat
    };
    crate::field::lemma_decimal_digits(n);
    assert(line == spaces(pad) + signed_decimal(i as int));
    assert(line.take(pad as int) =~= spaces(pad));
    assert(line.skip(pad as int) =~= signed_decimal(i as int));
    let t = line.skip(pad as int);
    if i < 0 {
        assert(t.drop_first() =~= decimal(n));
    } else {
        assert(t == decimal(n));
        assert('0' <= t[0] <= '9');
    }
}

/// The console lines of a reply, each indented by `pad` spaces: scalars on
/// one line, text split into its lines, and the elements of arrays, sets
/// and maps numbered from 1 and indented two more spaces.
pub fn value_to_lines(v: &RespValue, pad: u16) -> (r: Vec<(OutputKind, String)>)
    requires
        pad + 2 * depth(*v) <= u16::MAX,
    ensures
        string_lines_view(r@) == value_lines(*v, pad as nat),
{
    let ls = value_lines_exec(v, pad);
    let mut out: Vec<(OutputKind, String)> = Vec::new();
    let mut i: usize = 0;
    while i < ls.len()
        invariant
            i <= ls.len(),
            out@.len() == i,
            forall|j: int| 0 <= j < i ==> (#[trigger] out@[j]).0 == ls@[j].0 && out@[j].1@ == ls@[j].1@,
        decreases ls.len() - i,
    {
        let s = from_chars(&ls[i].1);
        out.push((ls[i].0, s));
        i = i + 1;
    }
    proof {
        assert(string_lines_view(out@) =~= lines_view(ls@));
    }
    out
}

} // verus!
