//! Command-line tokenizing, escaping, and turning stored bytes into text.
use crate::text::{digit_char, from_chars, is_whitespace, spec_is_whitespace, strs_view, to_chars};
use std::collections::BTreeMap;
use vstd::prelude::*;
use vstd::utf8::{decode_utf8, valid_utf8};

verus! {

/// How a value's text is to be highlighted.
#[derive(Clone, Copy, PartialEq, Eq, Debug, Structural)]
pub enum ContentType {
    String,
    Json,
    Xml,
    Ron,
}

impl Default for ContentType {
    fn default() -> (r: Self)
        ensures
            r == ContentType::Json,
    {
        ContentType::Json
    }
}

/// The display name of a content type.
pub open spec fn content_type_name(t: ContentType) -> Seq<char> {
    match t {
        ContentType::String => seq!['S', 't', 'r', 'i', 'n', 'g'],
        ContentType::Json => seq!['J', 's', 'o', 'n'],
        ContentType::Xml => seq!['X', 'm', 'l'],
        ContentType::Ron => seq!['R', 'o', 'n'],
    }
}

impl ContentType {
    /// The variant's name, as the type's `Display` shows it.
    pub fn name(&self) -> (r: String)
        ensures
            r@ == content_type_name(*self),
    {
        let mut v: Vec<char> = Vec::new();
        match self {
            ContentType::String => {
                v.push('S');
                v.push('t');
                v.push('r');
                v.push('i');
                v.push('n');
                v.push('g');
            },
            ContentType::Json => {
                v.push('J');
                v.push('s');
                v.push('o');
                v.push('n');
            },
            ContentType::Xml => {
                v.push('X');
                v.push('m');
                v.push('l');
            },
            ContentType::Ron => {
                v.push('R');
                v.push('o');
                v.push('n');
            },
        }
        proof {
            assert(v@ =~= content_type_name(*self));
        }
        from_chars(&v)
    }
}

// ---------------------------------------------------------------------------
// Escaping
// ---------------------------------------------------------------------------
/// The escaped form of one character: backslash, tab, newline and carriage
/// return become two-character escapes, everything else stays.
pub open spec fn escape_char(c: char) -> Seq<char> {
    if c == '\\' {
        seq!['\\', '\\']
    } else if c == '\t' {
        seq!['\\', 't']
    } else if c == '\n' {
        seq!['\\', 'n']
    } else if c == '\r' {
        seq!['\\', 'r']
    } else {
        seq![c]
    }
}

/// The escaped form of a text, character by character.
pub open spec fn escape_seq(s: Seq<char>) -> Seq<char>
    decreases s.len(),
{
    if s.len() == 0 {
        seq![]
    } else {
        escape_seq(s.drop_last()) + escape_char(s.last())
    }
}

/// Escapes backslashes, tabs, newlines and carriage returns, so that the text
/// shows on one line.
pub fn escape_string(s: &str) -> (r: String)
    ensures
        r@ == escape_seq(s@),
{
    let input = to_chars(s);
    let mut out: Vec<char> = Vec::new();
    let mut i: usize = 0;
    while i < input.len()
        invariant
            i <= input.len(),
            input@ == s@,
            out@ == escape_seq(s@.take(i as int)),
        decreases input.len() - i,
    {
        let c = input[i];
        if c == '\\' {
            out.push('\\');
            out.push('\\');
        } else if c == '\t' {
            out.push('\\');
            out.push('t');
        } else if c == '\n' {
            out.push('\\');
            out.push('n');
        } else if c == '\r' {
            out.push('\\');
            out.push('r');
        } else {
            out.push(c);
        }
        proof {
            assert(s@.take(i + 1).drop_last() == s@.take(i as int));
            assert(out@ =~= escape_seq(s@.take(i + 1)));
        }
        i = i + 1;
    }
    proof {
        assert(s@.take(s@.len() as int) == s@);
    }
    from_chars(&out)
}

/// The inverse of escaping: reads escapes back into the characters they
/// stand for.
pub open spec fn unescape_seq(s: Seq<char>) -> Seq<char>
    decreases s.len(),
{
    if s.len() == 0 {
        seq![]
    } else if s[0] == '\\' && s.len() >= 2 {
        let c = if s[1] == 't' {
            '\t'
        } else if s[1] == 'n' {
            '\n'
        } else if s[1] == 'r' {
            '\r'
        } else {
            s[1]
        };
        seq![c] + unescape_seq(s.skip(2))
    } else {
        seq![s[0]] + unescape_seq(s.drop_first())
    }
}

proof fn lemma_unescape_append(a: Seq<char>, c: char)
    ensures
        unescape_seq(escape_seq(a) + escape_char(c)) == unescape_seq(escape_seq(a)) + seq![c],
    decreases a.len(),
{
    if a.len() == 0 {
        assert(escape_seq(a) =~= seq![]);
        assert(escape_seq(a) + escape_char(c) =~= escape_char(c));
        if c == '\\' || c == '\t' || c == '\n' || c == '\r' {
            assert(escape_char(c).skip(2) =~= seq![]);
        } else {
            assert(escape_char(c).drop_first() =~= seq![]);
        }
        assert(unescape_seq(seq![]) =~= seq![]);
    } else {
        let first = a[0];
        let rest = a.drop_first();
        lemma_escape_first(a);
        lemma_unescape_append(rest, c);
        let e = escape_char(first);
        assert(escape_seq(a) + escape_char(c) =~= e + (escape_seq(rest) + escape_char(c)));
        lemma_unescape_prefix(first, escape_seq(rest) + escape_char(c));
        lemma_unescape_prefix(first, escape_seq(rest));
    }
}

proof fn lemma_escape_first(a: Seq<char>)
    requires
        a.len() > 0,
    ensures
        escape_seq(a) == escape_char(a[0]) + escape_seq(a.drop_first()),
    decreases a.len(),
{
    if a.len() == 1 {
        assert(a.drop_last() =~= seq![]);
        assert(a.drop_first() =~= seq![]);
        assert(escape_seq(a.drop_first()) =~= seq![]);
        assert(escape_seq(a.drop_last()) =~= seq![]);
        assert(escape_seq(a) =~= escape_char(a[0]));
    } else {
        lemma_escape_first(a.drop_last());
        assert(a.drop_last().drop_first() =~= a.drop_first().drop_last());
        assert(a.drop_first().last() == a.last());
    }
}

proof fn lemma_unescape_prefix(c: char, rest: Seq<char>)
    ensures
        unescape_seq(escape_char(c) + rest) == seq![c] + unescape_seq(rest),
{
    let s = escape_char(c) + rest;
    if c == '\\' || c == '\t' || c == '\n' || c == '\r' {
        assert(s.skip(2) =~= rest);
    } else {
        assert(s.drop_first() =~= rest);
    }
}

/// Escaping loses nothing: unescaping gives back the original text.
pub proof fn lemma_escape_roundtrip(s: Seq<char>)
    ensures
        unescape_seq(escape_seq(s)) == s,
    decreases s.len(),
{
    if s.len() == 0 {
        assert(escape_seq(s) =~= seq![]);
    } else {
        lemma_escape_roundtrip(s.drop_last());
        lemma_unescape_append(s.drop_last(), s.last());
        assert(s.drop_last() + seq![s.last()] =~= s);
    }
}

/// An escaped text holds no line break, tab or carriage return.
pub proof fn lemma_escape_single_line(s: Seq<char>)
    ensures
        forall|i: int|
            0 <= i < escape_seq(s).len() ==> escape_seq(s)[i] != '\n' && escape_seq(s)[i] != '\r'
                && escape_seq(s)[i] != '\t',
    decreases s.len(),
{
    if s.len() > 0 {
        lemma_escape_single_line(s.drop_last());
        let a = escape_seq(s.drop_last());
        let b = escape_char(s.last());
        assert forall|i: int| 0 <= i < escape_seq(s).len() implies escape_seq(s)[i] != '\n'
            && escape_seq(s)[i] != '\r' && escape_seq(s)[i] != '\t' by {
            if i < a.len() {
                assert(escape_seq(s)[i] == a[i]);
            } else {
                assert(escape_seq(s)[i] == b[i - a.len()]);
            }
        }
    }
}

// ---------------------------------------------------------------------------
// Splitting a command line into arguments
// ---------------------------------------------------------------------------
/// The tokenizer's state: finished arguments, the argument being read,
/// whether a quote is open, and which quote character opened it.
pub struct SplitState {
    pub parts: Seq<Seq<char>>,
    pub current: Seq<char>,
    pub in_quotes: bool,
    pub quote: char,
}

/// One step of the tokenizer on character `c`.
pub open spec fn split_step(st: SplitState, c: char) -> SplitState {
    if st.in_quotes {
        if c == st.quote {
            SplitState { parts: st.parts.push(st.current), current: seq![], in_quotes: false, ..st }
        } else {
            SplitState { current: st.current.push(c), ..st }
        }
    } else if spec_is_whitespace(c) {
        if st.current.len() > 0 {
            SplitState { parts: st.parts.push(st.current), current: seq![], ..st }
        } else {
            st
        }
    } else if c == '\'' || c == '"' {
        SplitState { in_quotes: true, quote: c, ..st }
    } else {
        SplitState { current: st.current.push(c), ..st }
    }
}

/// The tokenizer's state after reading `s` from the start.
pub open spec fn split_state(s: Seq<char>) -> SplitState
    decreases s.len(),
{
    if s.len() == 0 {
        SplitState { parts: seq![], current: seq![], in_quotes: false, quote: '\0' }
    } else {
        split_step(split_state(s.drop_last()), s.last())
    }
}

/// The arguments of a command line: whitespace separates arguments, single
/// or double quotes group text (whitespace included) into one argument, and
/// an argument left open at the end is kept when it is not empty.
pub open spec fn spec_split_args(s: Seq<char>) -> Seq<Seq<char>> {
    let st = split_state(s);
    if st.current.len() > 0 {
        st.parts.push(st.current)
    } else {
        st.parts
    }
}

/// Splits a command line into its arguments.
pub fn split_args(cmd: &str) -> (r: Vec<String>)
    ensures
        strs_view(r@) == spec_split_args(cmd@),
{
    let input = to_chars(cmd);
    let mut parts: Vec<String> = Vec::new();
    let mut current: Vec<char> = Vec::new();
    let mut in_quotes = false;
    let mut quote_char = '\0';
    let mut i: usize = 0;
    while i < input.len()
        invariant
            i <= input.len(),
            input@ == cmd@,
            ({
                let st = split_state(cmd@.take(i as int));
                &&& strs_view(parts@) == st.parts
                &&& current@ == st.current
                &&& in_quotes == st.in_quotes
                &&& quote_char == st.quote
            }),
        decreases input.len() - i,
    {
        let c = input[i];
        proof {
            assert(cmd@.take(i + 1).drop_last() == cmd@.take(i as int));
        }
        if in_quotes {
            if c == quote_char {
                in_quotes = false;
                parts.push(from_chars(&current));
                current = Vec::new();
            } else {
                current.push(c);
            }
        } else {
            if is_whitespace(c) {
                if current.len() > 0 {
                    parts.push(from_chars(&current));
                    current = Vec::new();
                }
            } else if c == '\'' || c == '"' {
                in_quotes = true;
                quote_char = c;
            } else {
                current.push(c);
            }
        }
        proof {
            assert(strs_view(parts@) =~= split_state(cmd@.take(i + 1)).parts);
            assert(current@ =~= split_state(cmd@.take(i + 1)).current);
        }
        i = i + 1;
    }
    proof {
        assert(cmd@.take(cmd@.len() as int) == cmd@);
    }
    if current.len() > 0 {
        parts.push(from_chars(&current));
        proof {
            assert(strs_view(parts@) =~= spec_split_args(cmd@));
        }
    }
    parts
}

/// True when the text holds no quote character.
pub open spec fn quote_free(s: Seq<char>) -> bool {
    forall|i: int| 0 <= i < s.len() ==> s[i] != '\'' && s[i] != '"'
}

/// The non-whitespace characters of a text, in order.
pub open spec fn non_whitespace(s: Seq<char>) -> Seq<char>
    decreases s.len(),
{
    if s.len() == 0 {
        seq![]
    } else if spec_is_whitespace(s.last()) {
        non_whitespace(s.drop_last())
    } else {
        non_whitespace(s.drop_last()).push(s.last())
    }
}

/// All arguments concatenated.
pub open spec fn concat_all(parts: Seq<Seq<char>>) -> Seq<char>
    decreases parts.len(),
{
    if parts.len() == 0 {
        seq![]
    } else {
        concat_all(parts.drop_last()) + parts.last()
    }
}

proof fn lemma_split_state_plain(s: Seq<char>)
    requires
        quote_free(s),
    ensures
        !split_state(s).in_quotes,
        forall|k: int|
            0 <= k < split_state(s).parts.len() ==> split_state(s).parts[k].len() > 0,
        forall|k: int, j: int|
            0 <= k < split_state(s).parts.len() && 0 <= j < split_state(s).parts[k].len()
                ==> !spec_is_whitespace(#[trigger] split_state(s).parts[k][j]),
        forall|j: int|
            0 <= j < split_state(s).current.len() ==> !spec_is_whitespace(
                #[trigger] split_state(s).current[j],
            ),
        concat_all(split_state(s).parts) + split_state(s).current == non_whitespace(s),
    decreases s.len(),
{
    if s.len() > 0 {
        let p = s.drop_last();
        assert(quote_free(p)) by {
            assert forall|i: int| 0 <= i < p.len() implies p[i] != '\'' && p[i] != '"' by {
                assert(p[i] == s[i]);
            }
        }
        lemma_split_state_plain(p);
        let st = split_state(p);
        let c = s.last();
        assert(c == s[s.len() - 1]);
        if spec_is_whitespace(c) {
            if st.current.len() > 0 {
                assert(concat_all(st.parts.push(st.current)) == concat_all(st.parts) + st.current)
                    by {
                    assert(st.parts.push(st.current).drop_last() =~= st.parts);
                }
                assert(concat_all(st.parts.push(st.current)) + seq![] =~= concat_all(
                    st.parts.push(st.current),
                ));
            }
        } else {
            assert(concat_all(st.parts) + st.current.push(c) =~= (concat_all(st.parts)
                + st.current).push(c));
        }
    }
}

/// The maximal runs of non-whitespace characters of a text, in order: what
/// splitting at whitespace (`str::split_whitespace`) gives.
pub open spec fn ws_words(s: Seq<char>) -> Seq<Seq<char>>
    decreases s.len(),
{
    if s.len() == 0 {
        seq![]
    } else {
        let w = ws_words(s.drop_last());
        let c = s.last();
        if spec_is_whitespace(c) {
            w
        } else if s.len() >= 2 && !spec_is_whitespace(s[s.len() - 2]) {
            w.update(w.len() - 1, w.last().push(c))
        } else {
            w.push(seq![c])
        }
    }
}

proof fn lemma_split_words(s: Seq<char>)
    requires
        quote_free(s),
    ensures
        !split_state(s).in_quotes,
        split_state(s).current.len() > 0 <==> (s.len() > 0 && !spec_is_whitespace(s.last())),
        spec_split_args(s) == ws_words(s),
    decreases s.len(),
{
    if s.len() > 0 {
        let p = s.drop_last();
        assert(quote_free(p)) by {
            assert forall|i: int| 0 <= i < p.len() implies p[i] != '\'' && p[i] != '"' by {
                assert(p[i] == s[i]);
            }
        }
        lemma_split_words(p);
        let st = split_state(p);
        let c = s.last();
        assert(c == s[s.len() - 1]);
        if p.len() > 0 {
            assert(p.last() == s[s.len() - 2]);
        }
        assert(c != '\'' && c != '"');
        assert(split_state(s) == split_step(st, c));
        if spec_is_whitespace(c) {
            assert(ws_words(s) == ws_words(p));
            if st.current.len() > 0 {
                assert(spec_split_args(s) == st.parts.push(st.current));
            } else {
                assert(spec_split_args(s) == st.parts);
            }
        } else if st.current.len() > 0 {
            assert(spec_split_args(p) == st.parts.push(st.current));
            assert(spec_split_args(s) =~= st.parts.push(st.current.push(c)));
            assert(ws_words(s) =~= st.parts.push(st.current).update(st.parts.len() as int, st.current.push(c)));
        } else {
            assert(st.current =~= seq![]);
            assert(st.current.push(c) =~= seq![c]);
            assert(spec_split_args(p) == st.parts);
            assert(spec_split_args(s) == st.parts.push(seq![c]));
            assert(ws_words(s) == ws_words(p).push(seq![c]));
        }
    }
}

/// On a command line without quotes, the arguments are what splitting at
/// whitespace gives: the maximal runs of non-whitespace characters.
pub proof fn lemma_split_args_whitespace(s: Seq<char>)
    requires
        quote_free(s),
    ensures
        spec_split_args(s) == ws_words(s),
{
    lemma_split_words(s);
}

proof fn lemma_split_push(s: Seq<char>, c: char)
    ensures
        split_state(s.push(c)) == split_step(split_state(s), c),
{
    assert(s.push(c).drop_last() =~= s);
}

proof fn lemma_split_in_quote(p: Seq<char>, q: char, t: Seq<char>)
    requires
        !split_state(p).in_quotes,
        split_state(p).current.len() == 0,
        q == '\'' || q == '"',
        forall|i: int| 0 <= i < t.len() ==> t[i] != q,
    ensures
        split_state(p.push(q) + t) == (SplitState {
            parts: split_state(p).parts,
            current: t,
            in_quotes: true,
            quote: q,
        }),
    decreases t.len(),
{
    if t.len() == 0 {
        assert(p.push(q) + t =~= p.push(q));
        lemma_split_push(p, q);
        assert(!spec_is_whitespace(q));
        assert(split_state(p).current =~= t);
    } else {
        let t0 = t.drop_last();
        assert forall|i: int| 0 <= i < t0.len() implies t0[i] != q by {
            assert(t0[i] == t[i]);
        }
        lemma_split_in_quote(p, q, t0);
        assert(p.push(q) + t =~= (p.push(q) + t0).push(t.last()));
        lemma_split_push(p.push(q) + t0, t.last());
        assert(t.last() == t[t.len() - 1]);
        assert(t0.push(t.last()) =~= t);
    }
}

/// A quoted argument is closed only by the quote that opened it: after a
/// quote-free line that ends between arguments (or is empty), a single or
/// double quote, any text without that quote (spaces and the other quote
/// included) and the same quote again make exactly one more argument, that
/// text, after the words of the line; left open at the end, the text is
/// still one argument where it is not empty.
pub proof fn lemma_split_args_quoted(p: Seq<char>, q: char, t: Seq<char>)
    requires
        quote_free(p),
        p.len() == 0 || spec_is_whitespace(p.last()),
        q == '\'' || q == '"',
        forall|i: int| 0 <= i < t.len() ==> t[i] != q,
    ensures
        spec_split_args(p.push(q) + t.push(q)) == ws_words(p).push(t),
        spec_split_args(p.push(q) + t) == if t.len() > 0 {
            ws_words(p).push(t)
        } else {
            ws_words(p)
        },
{
    lemma_split_words(p);
    let st = split_state(p);
    assert(st.current.len() == 0);
    assert(spec_split_args(p) == st.parts);
    lemma_split_in_quote(p, q, t);
    assert(p.push(q) + t.push(q) =~= (p.push(q) + t).push(q));
    lemma_split_push(p.push(q) + t, q);
}

/// On a command line without quotes, the arguments are the non-empty runs of
/// non-whitespace characters: none is empty, none holds whitespace, and
/// together they hold every non-whitespace character in order.
pub proof fn lemma_split_args_plain(s: Seq<char>)
    requires
        quote_free(s),
    ensures
        forall|k: int| 0 <= k < spec_split_args(s).len() ==> spec_split_args(s)[k].len() > 0,
        forall|k: int, j: int|
            0 <= k < spec_split_args(s).len() && 0 <= j < spec_split_args(s)[k].len()
                ==> !spec_is_whitespace(#[trigger] spec_split_args(s)[k][j]),
        concat_all(spec_split_args(s)) == non_whitespace(s),
{
    lemma_split_state_plain(s);
    let st = split_state(s);
    if st.current.len() > 0 {
        assert(st.parts.push(st.current).drop_last() =~= st.parts);
        assert forall|k: int, j: int|
            0 <= k < spec_split_args(s).len() && 0 <= j < spec_split_args(s)[k].len()
                implies !spec_is_whitespace(#[trigger] spec_split_args(s)[k][j]) by {
            if k < st.parts.len() {
                assert(spec_split_args(s)[k] == st.parts[k]);
                assert(st.parts[k][j] == spec_split_args(s)[k][j]);
            } else {
                assert(spec_split_args(s)[k] == st.current);
                assert(st.current[j] == spec_split_args(s)[k][j]);
            }
        }
    } else {
        assert(st.current =~= seq![]);
        assert(concat_all(st.parts) + st.current =~= concat_all(st.parts));
    }
}

// ---------------------------------------------------------------------------
// Bytes to text
// ---------------------------------------------------------------------------
/// The lower-case hexadecimal digit for `d`.
pub open spec fn hex_char(d: nat) -> char {
    if d < 10 {
        digit_char(d)
    } else if d == 10 {
        'a'
    } else if d == 11 {
        'b'
    } else if d == 12 {
        'c'
    } else if d == 13 {
        'd'
    } else if d == 14 {
        'e'
    } else {
        'f'
    }
}

/// One byte shown as text: an ASCII byte as its character, any other byte
/// as `\x` and two lower-case hex digits.
pub open spec fn escape_byte(b: u8) -> Seq<char> {
    if b < 128 {
        seq![b as char]
    } else {
        seq!['\\', 'x', hex_char((b / 16) as nat), hex_char((b % 16) as nat)]
    }
}

/// Bytes shown as text, one byte at a time.
pub open spec fn escape_bytes_seq(bytes: Seq<u8>) -> Seq<char>
    decreases bytes.len(),
{
    if bytes.len() == 0 {
        seq![]
    } else {
        escape_bytes_seq(bytes.drop_last()) + escape_byte(bytes.last())
    }
}

fn hex_digit(d: u8) -> (c: char)
    requires
        d < 16,
    ensures
        c == hex_char(d as nat),
{
    if d < 10 {
        if d == 0 { '0' }
        else if d == 1 { '1' }
        else if d == 2 { '2' }
        else if d == 3 { '3' }
        else if d == 4 { '4' }
        else if d == 5 { '5' }
        else if d == 6 { '6' }
        else if d == 7 { '7' }
        else if d == 8 { '8' }
        else { '9' }
    } else if d == 10 { 'a' }
    else if d == 11 { 'b' }
    else if d == 12 { 'c' }
    else if d == 13 { 'd' }
    else if d == 14 { 'e' }
    else { 'f' }
}

/// Shows bytes as text: ASCII bytes as characters, the others as `\xNN`.
pub fn escape_bytes(bytes: &Vec<u8>) -> (r: String)
    ensures
        r@ == escape_bytes_seq(bytes@),
{
    let mut out: Vec<char> = Vec::new();
    let mut i: usize = 0;
    while i < bytes.len()
        invariant
            i <= bytes.len(),
            out@ == escape_bytes_seq(bytes@.take(i as int)),
        decreases bytes.len() - i,
    {
        let b = bytes[i];
        if b < 128 {
            out.push(b as char);
        } else {
            out.push('\\');
            out.push('x');
            out.push(hex_digit(b / 16));
            out.push(hex_digit(b % 16));
        }
        proof {
            assert(bytes@.take(i + 1).drop_last() == bytes@.take(i as int));
            assert(out@ =~= escape_bytes_seq(bytes@.take(i + 1)));
        }
        i = i + 1;
    }
    proof {
        assert(bytes@.take(bytes@.len() as int) == bytes@);
    }
    from_chars(&out)
}

/// Decodes UTF-8 bytes (`String::from_utf8`): `None` exactly when the bytes
/// are not valid UTF-8.
#[verifier::external_body]
pub fn utf8_decode(bytes: Vec<u8>) -> (r: Option<String>)
    ensures
        r is Some <==> valid_utf8(bytes@),
        r matches Some(s) ==> s@ == decode_utf8(bytes@),
{
    String::from_utf8(bytes).ok()
}

/// The text that a stored value is shown as, and the content type it is
/// known to have, given what the Java and the protobuf decoders made of it:
/// a Java object first, then UTF-8 text, then a protobuf message, and the
/// bytes escaped one by one when none of them applies.
pub open spec fn spec_deserialize(
    bytes: Seq<u8>,
    java: Option<Seq<char>>,
    protobuf: Option<Seq<char>>,
) -> (Seq<char>, Option<ContentType>) {
    if java is Some {
        (java->0, Some(ContentType::Ron))
    } else if valid_utf8(bytes) {
        (decode_utf8(bytes), None)
    } else if protobuf is Some {
        (protobuf->0, Some(ContentType::Ron))
    } else {
        (escape_bytes_seq(bytes), None)
    }
}

/// The view of an optional string.
pub open spec fn opt_view(o: Option<String>) -> Option<Seq<char>> {
    match o {
        Some(s) => Some(s@),
        None => None,
    }
}

/// Chooses the text a stored value is shown as.  `java` is what the Java
/// deserializer made of the bytes and `protobuf` what the protobuf decoder
/// made of them, each `None` where it failed.
pub fn deserialize_bytes(bytes: Vec<u8>, java: Option<String>, protobuf: Option<String>) -> (r: (
    String,
    Option<ContentType>,
))
    ensures
        (r.0@, r.1) == spec_deserialize(bytes@, opt_view(java), opt_view(protobuf)),
{
    if let Some(s) = java {
        return (s, Some(ContentType::Ron));
    }
    let kept = bytes.clone();
    match utf8_decode(bytes) {
        Some(s) => (s, None),
        None => match protobuf {
            Some(s) => (s, Some(ContentType::Ron)),
            None => (escape_bytes(&kept), None),
        },
    }
}

/// Text comes before protobuf: where no Java object was read from the
/// bytes and they are valid UTF-8, the value is shown as that text, with no
/// content type, whatever the protobuf decoder made of them; a Java object
/// is shown as its text, as RON; and bytes that are neither a Java object,
/// nor UTF-8, nor a protobuf message are shown escaped one by one.
pub proof fn lemma_deserialize_order(bytes: Seq<u8>, java: Option<Seq<char>>, protobuf: Option<Seq<char>>)
    ensures
        java is None && valid_utf8(bytes) ==> spec_deserialize(bytes, java, protobuf) == (
            decode_utf8(bytes),
            None::<ContentType>,
        ),
        java matches Some(j) ==> spec_deserialize(bytes, java, protobuf) == (j, Some(ContentType::Ron)),
        java is None && !valid_utf8(bytes) && protobuf is Some ==> spec_deserialize(
            bytes,
            java,
            protobuf,
        ) == (protobuf->0, Some(ContentType::Ron)),
        java is None && !valid_utf8(bytes) && protobuf is None ==> spec_deserialize(bytes, java, protobuf)
            == (escape_bytes_seq(bytes), None::<ContentType>),
        bytes.len() > 0 && java is None && valid_utf8(bytes) ==> spec_bytes_to_string(bytes, java, protobuf)
            == decode_utf8(bytes),
{
}

/// The text a stored value is shown as: empty for no bytes, else as
/// `spec_deserialize` chooses it.
pub open spec fn spec_bytes_to_string(
    bytes: Seq<u8>,
    java: Option<Seq<char>>,
    protobuf: Option<Seq<char>>,
) -> Seq<char> {
    if bytes.len() == 0 {
        seq![]
    } else {
        spec_deserialize(bytes, java, protobuf).0
    }
}

/// Chooses the text a stored value is shown as, without its content type.
pub fn bytes_to_string(bytes: Vec<u8>, java: Option<String>, protobuf: Option<String>) -> (r:
    String)
    ensures
        r@ == spec_bytes_to_string(bytes@, opt_view(java), opt_view(protobuf)),
{
    if bytes.len() == 0 {
        return String::new();
    }
    deserialize_bytes(bytes, java, protobuf).0
}

// ---------------------------------------------------------------------------
// Decoders
// ---------------------------------------------------------------------------
#[verifier::external_type_specification]
#[verifier::external_body]
pub struct ExProtobufError(protobuf::Error);

#[verifier::external_type_specification]
#[verifier::external_body]
pub struct ExAny(protobuf::well_known_types::any::Any);

/// Why a decoder gave up.  The Java decoder itself is not part of this
/// library: `jaded` can recurse without end on a stream whose array holds
/// itself, which nothing short of reading the stream rules out, so callers
/// run it and hand its text to `deserialize_bytes`.
#[derive(Clone, Copy, PartialEq, Eq, Debug, Structural)]
pub enum DecodeFailure {
    /// The bytes are not a Java serialization stream.
    JavaStream,
    /// The Java stream could not be read.
    JavaRead,
    /// The decoded value could not be written as RON.
    Ron,
    /// The bytes are not a protobuf `Any` message.
    Protobuf,
    /// A text field is not valid UTF-8.
    Utf8,
}

/// An unknown field of a protobuf message, as it was on the wire.
#[derive(Clone, PartialEq, Eq, Debug)]
pub enum UnknownValue {
    Fixed32(u32),
    Fixed64(u64),
    Varint(u64),
    LengthDelimited(Vec<u8>),
}

/// A field of a decoded protobuf message, ready to be shown.
#[derive(Clone, PartialEq, Eq, Debug)]
pub enum ProtoField {
    Fixed32(u32),
    Fixed64(u64),
    Varint(u64),
    LengthDelimited(String),
}

/// Whether the bytes open with a field tag whose field number is 0: a first
/// byte below 8 is a whole tag (a varint under `0x80`) with field number
/// `byte >> 3 == 0`.
pub open spec fn proto_zero_field_start(b: Seq<u8>) -> bool {
    b.len() > 0 && b[0] < 8
}

/// An unknown field's value as the contracts see it.
pub enum UnknownView {
    Fixed32(u32),
    Fixed64(u64),
    Varint(u64),
    LengthDelimited(Seq<u8>),
}

/// The view of an unknown field's value.
pub open spec fn unknown_view(v: UnknownValue) -> UnknownView {
    match v {
        UnknownValue::Fixed32(x) => UnknownView::Fixed32(x),
        UnknownValue::Fixed64(x) => UnknownView::Fixed64(x),
        UnknownValue::Varint(x) => UnknownView::Varint(x),
        UnknownValue::LengthDelimited(b) => UnknownView::LengthDelimited(b@),
    }
}

/// The unknown fields grouped by field number, each number's values in
/// the order they come.
pub open spec fn group_unknown(u: Seq<(u32, UnknownValue)>) -> Map<u32, Seq<UnknownView>>
    decreases u.len(),
{
    if u.len() == 0 {
        Map::empty()
    } else {
        let g = group_unknown(u.drop_first());
        let k = u[0].0;
        g.insert(
            k,
            seq![unknown_view(u[0].1)] + if g.dom().contains(k) {
                g[k]
            } else {
                seq![]
            },
        )
    }
}

/// Whether `protobuf` reads the bytes as an `Any` message
/// (`Message::parse_from_bytes`).
pub uninterp spec fn spec_any_parses(bytes: Seq<u8>) -> bool;

/// The `type_url` field of the `Any` message read from the bytes.
pub uninterp spec fn spec_any_type_url(bytes: Seq<u8>) -> Seq<char>;

/// The `value` field of the `Any` message read from the bytes.
pub uninterp spec fn spec_any_value(bytes: Seq<u8>) -> Seq<u8>;

/// The unknown fields of the `Any` message read from the bytes, grouped by
/// field number, each number's values in the order
/// `UnknownFields::iter` yields them (its 32-bit, then 64-bit, then varint,
/// then length-delimited values, each kind in the order read).
pub uninterp spec fn spec_any_unknown(bytes: Seq<u8>) -> Map<u32, Seq<UnknownView>>;

/// An `Any` message, with the bytes it was read from.
pub struct ParsedAny {
    any: protobuf::well_known_types::any::Any,
    bytes: Ghost<Seq<u8>>,
}

impl View for ParsedAny {
    type V = Seq<u8>;

    closed spec fn view(&self) -> Seq<u8> {
        self.bytes@
    }
}

/// Parses the bytes as a protobuf `Any` message
/// (`protobuf::Message::parse_from_bytes`): it succeeds exactly where
/// `spec_any_parses` says.  No bytes at all are the empty message, which is
/// read.  A first tag with field number 0 is refused: it is neither field 1
/// nor 2, and `Tag::new` rejects field number 0 when the unknown field is
/// read.
#[verifier::external_body]
fn parse_any(bytes: &Vec<u8>) -> (r: Result<ParsedAny, protobuf::Error>)
    ensures
        r is Ok == spec_any_parses(bytes@),
        r matches Ok(a) ==> a@ == bytes@,
        bytes@.len() == 0 ==> r is Ok,
        proto_zero_field_start(bytes@) ==> r is Err,
{
    match <protobuf::well_known_types::any::Any as protobuf::Message>::parse_from_bytes(bytes) {
        Ok(any) => Ok(ParsedAny { any, bytes: Ghost(bytes@) }),
        Err(e) => Err(e),
    }
}

/// The `type_url` field of an `Any` message: empty for the empty message.
#[verifier::external_body]
fn any_type_url(any: &ParsedAny) -> (r: String)
    ensures
        r@ == spec_any_type_url(any@),
        any@.len() == 0 ==> r@.len() == 0,
{
    any.any.type_url.clone()
}

/// The `value` field of an `Any` message: empty for the empty message.
#[verifier::external_body]
fn any_value(any: &ParsedAny) -> (r: Vec<u8>)
    ensures
        r@ == spec_any_value(any@),
        any@.len() == 0 ==> r@.len() == 0,
{
    any.any.value.clone()
}

/// The unknown fields of an `Any` message, each with its field number, in
/// the order `protobuf::UnknownFields::iter` yields them: it walks a hash
/// map, so the order of the numbers is not fixed, but each number's values
/// come in a fixed order, so grouped by number they are `spec_any_unknown`
/// of the bytes.  None for the empty message.
#[verifier::external_body]
fn any_unknown_fields(any: &ParsedAny) -> (r: Vec<(u32, UnknownValue)>)
    ensures
        group_unknown(r@) == spec_any_unknown(any@),
        any@.len() == 0 ==> r@.len() == 0,
{
    any.any.special_fields.unknown_fields().iter().map(|(idx, v)| match v {
        protobuf::UnknownValueRef::Fixed32(x) => (idx, UnknownValue::Fixed32(x)),
        protobuf::UnknownValueRef::Fixed64(x) => (idx, UnknownValue::Fixed64(x)),
        protobuf::UnknownValueRef::Varint(x) => (idx, UnknownValue::Varint(x)),
        protobuf::UnknownValueRef::LengthDelimited(x) => (idx, UnknownValue::LengthDelimited(x.to_vec())),
    }).collect()
}

/// A field as the contracts see it, its text taken by its view.
pub enum ProtoFieldView {
    Fixed32(u32),
    Fixed64(u64),
    Varint(u64),
    LengthDelimited(Seq<char>),
}

impl ProtoField {
    /// The field's view.
    pub open spec fn view(self) -> ProtoFieldView {
        match self {
            ProtoField::Fixed32(x) => ProtoFieldView::Fixed32(x),
            ProtoField::Fixed64(x) => ProtoFieldView::Fixed64(x),
            ProtoField::Varint(x) => ProtoFieldView::Varint(x),
            ProtoField::LengthDelimited(s) => ProtoFieldView::LengthDelimited(s@),
        }
    }
}

/// The views of a field map's fields.
pub open spec fn fields_view(m: Map<u32, ProtoField>) -> Map<u32, ProtoFieldView> {
    m.map_values(|f: ProtoField| f.view())
}

/// Sets field `k` of the map.
fn put_field(m: &mut BTreeMap<u32, ProtoField>, k: u32, v: ProtoField)
    ensures
        fields_view(final(m)@) == fields_view(old(m)@).insert(k, v.view()),
{
    broadcast use vstd::laws_cmp::group_laws_cmp;

    m.insert(k, v);
    proof {
        assert(fields_view(m@) =~= fields_view(old(m)@).insert(k, v.view()));
    }
}

/// Applies the unknown fields in turn, a later one replacing an earlier one
/// with the same number; `None` when a length-delimited one is not valid
/// UTF-8.
pub open spec fn apply_unknown(m: Map<u32, ProtoFieldView>, unknown: Seq<(u32, UnknownValue)>) -> Option<
    Map<u32, ProtoFieldView>,
>
    decreases unknown.len(),
{
    if unknown.len() == 0 {
        Some(m)
    } else {
        let idx = unknown[0].0;
        let rest = unknown.drop_first();
        match unknown[0].1 {
            UnknownValue::Fixed32(x) => apply_unknown(m.insert(idx, ProtoFieldView::Fixed32(x)), rest),
            UnknownValue::Fixed64(x) => apply_unknown(m.insert(idx, ProtoFieldView::Fixed64(x)), rest),
            UnknownValue::Varint(x) => apply_unknown(m.insert(idx, ProtoFieldView::Varint(x)), rest),
            UnknownValue::LengthDelimited(b) => if valid_utf8(b@) {
                apply_unknown(
                    m.insert(idx, ProtoFieldView::LengthDelimited(decode_utf8(b@))),
                    rest,
                )
            } else {
                None
            },
        }
    }
}

/// The fields of a decoded `Any` message: field 1 is the type URL when it is
/// not empty, field 2 the value read as UTF-8 when it is not empty, and then
/// the unknown fields in turn; `None` when some text is not valid UTF-8.
pub open spec fn spec_proto_fields(
    type_url: Seq<char>,
    value: Seq<u8>,
    unknown: Seq<(u32, UnknownValue)>,
) -> Option<Map<u32, ProtoFieldView>> {
    if value.len() != 0 && !valid_utf8(value) {
        None
    } else {
        apply_unknown(base_fields(type_url, value), unknown)
    }
}

/// The fields the type URL and the value make: field 1 the type URL when it
/// is not empty, field 2 the value read as UTF-8 when it is not empty.
pub open spec fn base_fields(type_url: Seq<char>, value: Seq<u8>) -> Map<u32, ProtoFieldView> {
    let m0 = Map::<u32, ProtoFieldView>::empty();
    let m1 = if type_url.len() != 0 {
        m0.insert(1, ProtoFieldView::LengthDelimited(type_url))
    } else {
        m0
    };
    if value.len() != 0 {
        m1.insert(2, ProtoFieldView::LengthDelimited(decode_utf8(value)))
    } else {
        m1
    }
}

/// Whether an unknown value can be shown: a length-delimited one must be
/// UTF-8.
pub open spec fn unknown_ok(v: UnknownView) -> bool {
    match v {
        UnknownView::LengthDelimited(b) => valid_utf8(b),
        _ => true,
    }
}

/// The field an unknown value is shown as.
pub open spec fn unknown_field(v: UnknownView) -> ProtoFieldView {
    match v {
        UnknownView::Fixed32(x) => ProtoFieldView::Fixed32(x),
        UnknownView::Fixed64(x) => ProtoFieldView::Fixed64(x),
        UnknownView::Varint(x) => ProtoFieldView::Varint(x),
        UnknownView::LengthDelimited(b) => ProtoFieldView::LengthDelimited(decode_utf8(b)),
    }
}

/// Whether every grouped unknown value can be shown.
pub open spec fn groups_ok(g: Map<u32, Seq<UnknownView>>) -> bool {
    forall|k: u32, j: int| g.dom().contains(k) && 0 <= j < g[k].len() ==> unknown_ok(#[trigger] g[k][j])
}

/// The fields with each number's last unknown value laid over them.
pub open spec fn overlay(m: Map<u32, ProtoFieldView>, g: Map<u32, Seq<UnknownView>>) -> Map<u32, ProtoFieldView> {
    Map::new(
        |k: u32| m.dom().contains(k) || (g.dom().contains(k) && g[k].len() > 0),
        |k: u32| if g.dom().contains(k) && g[k].len() > 0 {
            unknown_field(g[k].last())
        } else {
            m[k]
        },
    )
}

/// The fields of an `Any` message from its type URL, its value and its
/// unknown fields grouped by number: those of the type URL and the value,
/// each number's last unknown value over them; `None` where the value or a
/// length-delimited unknown value is not UTF-8.
pub open spec fn spec_any_fields(
    type_url: Seq<char>,
    value: Seq<u8>,
    groups: Map<u32, Seq<UnknownView>>,
) -> Option<Map<u32, ProtoFieldView>> {
    if value.len() != 0 && !valid_utf8(value) {
        None
    } else if !groups_ok(groups) {
        None
    } else {
        Some(overlay(base_fields(type_url, value), groups))
    }
}

proof fn lemma_apply_grouped(m: Map<u32, ProtoFieldView>, u: Seq<(u32, UnknownValue)>)
    ensures
        apply_unknown(m, u) == if groups_ok(group_unknown(u)) {
            Some(overlay(m, group_unknown(u)))
        } else {
            None::<Map<u32, ProtoFieldView>>
        },
    decreases u.len(),
{
    let g = group_unknown(u);
    if u.len() == 0 {
        assert(overlay(m, g) =~= m);
    } else {
        let k = u[0].0;
        let vv = unknown_view(u[0].1);
        let rest = u.drop_first();
        let g2 = group_unknown(rest);
        let fv = unknown_field(vv);
        let tail = if g2.dom().contains(k) {
            g2[k]
        } else {
            seq![]
        };
        assert(g == g2.insert(k, seq![vv] + tail));
        lemma_apply_grouped(m.insert(k, fv), rest);
        assert(apply_unknown(m, u) == if unknown_ok(vv) {
            apply_unknown(m.insert(k, fv), rest)
        } else {
            None::<Map<u32, ProtoFieldView>>
        });
        assert(groups_ok(g) == (unknown_ok(vv) && groups_ok(g2))) by {
            if groups_ok(g) {
                assert(g[k][0] == vv);
                assert forall|x: u32, j: int| g2.dom().contains(x) && 0 <= j < g2[x].len() implies unknown_ok(
                    #[trigger] g2[x][j],
                ) by {
                    if x == k {
                        assert(g[k][j + 1] == g2[k][j]);
                    } else {
                        assert(g[x] == g2[x]);
                    }
                }
            }
            if unknown_ok(vv) && groups_ok(g2) {
                assert forall|x: u32, j: int| g.dom().contains(x) && 0 <= j < g[x].len() implies unknown_ok(
                    #[trigger] g[x][j],
                ) by {
                    if x == k {
                        if j > 0 {
                            assert(g[k][j] == tail[j - 1]);
                            assert(tail[j - 1] == g2[k][j - 1]);
                        }
                    } else {
                        assert(g[x] == g2[x]);
                    }
                }
            }
        }
        assert(overlay(m.insert(k, fv), g2) =~= overlay(m, g)) by {
            assert(g[k] == seq![vv] + tail);
            if tail.len() > 0 {
                assert((seq![vv] + tail).last() == tail.last());
            } else {
                assert((seq![vv] + tail).last() == vv);
            }
        }
    }
}

proof fn lemma_proto_fields_grouped(type_url: Seq<char>, value: Seq<u8>, u: Seq<(u32, UnknownValue)>)
    ensures
        spec_proto_fields(type_url, value, u) == spec_any_fields(type_url, value, group_unknown(u)),
{
    lemma_apply_grouped(base_fields(type_url, value), u);
}

/// Builds the field map of a decoded `Any` message.
#[verifier::loop_isolation(false)]
pub fn proto_fields(type_url: String, value: Vec<u8>, unknown: Vec<(u32, UnknownValue)>) -> (r:
    Option<BTreeMap<u32, ProtoField>>)
    ensures
        r is Some <==> spec_proto_fields(type_url@, value@, unknown@) is Some,
        r matches Some(m) ==> fields_view(m@) == spec_proto_fields(type_url@, value@, unknown@)->0,
{
    let ghost tv = type_url@;
    let ghost vv = value@;
    let mut fields: BTreeMap<u32, ProtoField> = BTreeMap::new();
    proof {
        assert(fields_view(fields@) =~= Map::<u32, ProtoFieldView>::empty());
    }
    if !type_url.as_str().is_empty() {
        put_field(&mut fields, 1, ProtoField::LengthDelimited(type_url));
    }
    if value.len() != 0 {
        match utf8_decode(value) {
            Some(s) => put_field(&mut fields, 2, ProtoField::LengthDelimited(s)),
            None => return None,
        }
    }
    proof {
        assert(unknown@.skip(0) =~= unknown@);
    }
    let ghost target = spec_proto_fields(tv, vv, unknown@);
    let mut i: usize = 0;
    while i < unknown.len()
        invariant
            i <= unknown.len(),
            target == apply_unknown(fields_view(fields@), unknown@.skip(i as int)),
        decreases unknown.len() - i,
    {
        let (idx, v) = &unknown[i];
        proof {
            assert(unknown@[i as int] == (*idx, *v));
            assert(unknown@.skip(i as int)[0] == unknown@[i as int]);
            assert(unknown@.skip(i as int).drop_first() == unknown@.skip(i + 1));
        }
        match v {
            UnknownValue::Fixed32(x) => put_field(&mut fields, *idx, ProtoField::Fixed32(*x)),
            UnknownValue::Fixed64(x) => put_field(&mut fields, *idx, ProtoField::Fixed64(*x)),
            UnknownValue::Varint(x) => put_field(&mut fields, *idx, ProtoField::Varint(*x)),
            UnknownValue::LengthDelimited(b) => {
                let bc = b.clone();
                proof {
                    assert(bc@ =~= b@);
                }
                match utf8_decode(bc) {
                    Some(s) => put_field(&mut fields, *idx, ProtoField::LengthDelimited(s)),
                    None => {
                        proof {
                            let u = unknown@.skip(i as int);
                            assert(u[0].1 == UnknownValue::LengthDelimited(*b));
                            assert(!valid_utf8(b@));
                            assert(apply_unknown(fields_view(fields@), u) is None);
                        }
                        return None;
                    },
                }
            },
        }
        i = i + 1;
    }
    proof {
        assert(unknown@.skip(unknown@.len() as int) =~= seq![]);
    }
    Some(fields)
}

/// Decodes the bytes as a protobuf `Any` message and maps its fields by
/// number: those of its type URL, its value and each number's
/// last unknown value (`spec_any_fields`).  `Protobuf` where the bytes are
/// no `Any` message (among them those that open with field number 0),
/// `Utf8` where a text of it is not UTF-8; no bytes at all give no fields.
pub fn des_protobuf_fields(bytes: &Vec<u8>) -> (r: Result<BTreeMap<u32, ProtoField>, DecodeFailure>)
    ensures
        r == Err::<BTreeMap<u32, ProtoField>, DecodeFailure>(DecodeFailure::Protobuf) <==> !spec_any_parses(
            bytes@,
        ),
        spec_any_parses(bytes@) ==> match spec_any_fields(
            spec_any_type_url(bytes@),
            spec_any_value(bytes@),
            spec_any_unknown(bytes@),
        ) {
            None => r == Err::<BTreeMap<u32, ProtoField>, DecodeFailure>(DecodeFailure::Utf8),
            Some(m) => r matches Ok(v) && fields_view(v@) == m,
        },
        proto_zero_field_start(bytes@) ==> r == Err::<BTreeMap<u32, ProtoField>, DecodeFailure>(
            DecodeFailure::Protobuf,
        ),
        bytes@.len() == 0 ==> (r matches Ok(v) && v@ == Map::<u32, ProtoField>::empty()),
{
    let any = match parse_any(bytes) {
        Ok(a) => a,
        Err(_) => return Err(DecodeFailure::Protobuf),
    };
    let type_url = any_type_url(&any);
    let value = any_value(&any);
    let unknown = any_unknown_fields(&any);
    proof {
        lemma_proto_fields_grouped(type_url@, value@, unknown@);
    }
    proto_fields_result(type_url, value, unknown)
}

/// The field list for the parts of a message, or `Utf8`.
fn proto_fields_result(type_url: String, value: Vec<u8>, unknown: Vec<(u32, UnknownValue)>) -> (r: Result<
    BTreeMap<u32, ProtoField>,
    DecodeFailure,
>)
    ensures
        match spec_proto_fields(type_url@, value@, unknown@) {
            None => r == Err::<BTreeMap<u32, ProtoField>, DecodeFailure>(DecodeFailure::Utf8),
            Some(m) => r matches Ok(v) && fields_view(v@) == m,
        },
        type_url@.len() == 0 && value@.len() == 0 && unknown@.len() == 0 ==> (r matches Ok(v) && v@
            == Map::<u32, ProtoField>::empty()),
{
    let ghost parts = (type_url@, value@, unknown@);
    match proto_fields(type_url, value, unknown) {
        Some(v) => {
            proof {
                if parts.0.len() == 0 && parts.1.len() == 0 && parts.2.len() == 0 {
                    assert(base_fields(parts.0, parts.1) =~= Map::<u32, ProtoFieldView>::empty());
                    assert(fields_view(v@) =~= Map::<u32, ProtoFieldView>::empty());
                    assert(v@.dom() =~= fields_view(v@).dom());
                    assert(v@ =~= Map::<u32, ProtoField>::empty());
                }
            }
            Ok(v)
        },
        None => Err(DecodeFailure::Utf8),
    }
}

} // verus!
