//! Completion items for the command line: what each suggestion shows, what
//! it inserts, and which part of the input it replaces.
use crate::text::{from_chars, join, push_str_chars, to_chars};
use vstd::prelude::*;

verus! {

/// The group of a completion item, shown beside it.
#[derive(Clone, Copy, PartialEq, Eq, Debug, Structural)]
pub enum CompletionItemKind {
    Generic,
    /// An option of a command (shown as `Option`).
    Flag,
    /// A string command (shown as `String`).
    Text,
    List,
    /// A set command (shown as `Set`).
    SetType,
    ZSet,
    Hash,
    Stream,
    PubSub,
    Server,
    Other,
    /// A field of a search index (shown as `attr`).
    Attr,
    /// A search index (shown as `Index`).
    Index,
}

/// The name a kind is shown by.
pub open spec fn kind_name(k: CompletionItemKind) -> Seq<char> {
    match k {
        CompletionItemKind::Generic => "Generic"@,
        CompletionItemKind::Flag => "Option"@,
        CompletionItemKind::Text => "String"@,
        CompletionItemKind::List => "List"@,
        CompletionItemKind::SetType => "Set"@,
        CompletionItemKind::ZSet => "ZSet"@,
        CompletionItemKind::Hash => "Hash"@,
        CompletionItemKind::Stream => "Stream"@,
        CompletionItemKind::PubSub => "PubSub"@,
        CompletionItemKind::Server => "Server"@,
        CompletionItemKind::Other => "Other"@,
        CompletionItemKind::Attr => "attr"@,
        CompletionItemKind::Index => "Index"@,
    }
}

impl CompletionItemKind {
    /// The name the kind is shown by.
    pub fn name(&self) -> (r: String)
        ensures
            r@ == kind_name(*self),
    {
        match self {
            CompletionItemKind::Generic => String::from_str("Generic"),
            CompletionItemKind::Flag => String::from_str("Option"),
            CompletionItemKind::Text => String::from_str("String"),
            CompletionItemKind::List => String::from_str("List"),
            CompletionItemKind::SetType => String::from_str("Set"),
            CompletionItemKind::ZSet => String::from_str("ZSet"),
            CompletionItemKind::Hash => String::from_str("Hash"),
            CompletionItemKind::Stream => String::from_str("Stream"),
            CompletionItemKind::PubSub => String::from_str("PubSub"),
            CompletionItemKind::Server => String::from_str("Server"),
            CompletionItemKind::Other => String::from_str("Other"),
            CompletionItemKind::Attr => String::from_str("attr"),
            CompletionItemKind::Index => String::from_str("Index"),
        }
    }
}

/// A parameter of a command, as its usage line shows it.
#[derive(Debug)]
pub enum Parameter {
    /// `[FLAG]`, with a description.
    Flag(String, String),
    /// `[A | B]`, each choice with a description.
    Enum(Vec<(String, String)>),
    /// `[key arg]`, with a description.
    Arg { key: String, arg: String, detail: String },
    /// A single value.
    Single(String),
    /// One or more values.
    Many(String),
}

/// A parameter as the contracts see it.
pub enum ParameterView {
    Flag(Seq<char>, Seq<char>),
    Enum(Seq<(Seq<char>, Seq<char>)>),
    Arg { key: Seq<char>, arg: Seq<char>, detail: Seq<char> },
    Single(Seq<char>),
    Many(Seq<char>),
}

/// The view of a pair of strings.
pub open spec fn pair_view(p: (String, String)) -> (Seq<char>, Seq<char>) {
    (p.0@, p.1@)
}

impl View for Parameter {
    type V = ParameterView;

    open spec fn view(&self) -> ParameterView {
        match self {
            Parameter::Flag(a, b) => ParameterView::Flag(a@, b@),
            Parameter::Enum(es) => ParameterView::Enum(es@.map_values(|p: (String, String)| pair_view(p))),
            Parameter::Arg { key, arg, detail } => ParameterView::Arg { key: key@, arg: arg@, detail: detail@ },
            Parameter::Single(s) => ParameterView::Single(s@),
            Parameter::Many(s) => ParameterView::Many(s@),
        }
    }
}

/// How a parameter is written in a usage line.
pub open spec fn param_text(p: ParameterView) -> Seq<char> {
    match p {
        ParameterView::Flag(flag, _) => seq!['['] + flag + seq![']'],
        ParameterView::Enum(es) => seq!['['] + join(es.map_values(|e: (Seq<char>, Seq<char>)| e.0), " | "@)
            + seq![']'],
        ParameterView::Arg { key, arg, .. } => seq!['['] + key + seq![' '] + arg + seq![']'],
        ParameterView::Single(name) => name,
        ParameterView::Many(name) => name + " ["@ + name + "...]"@,
    }
}

fn clone_string(s: &String) -> (r: String)
    ensures
        r@ == s@,
{
    s.clone()
}

impl Parameter {
    /// An optional flag.
    pub fn flag(s: &str, detail: &str) -> (r: Parameter)
        ensures
            r@ == ParameterView::Flag(s@, detail@),
    {
        Parameter::Flag(String::from_str(s), String::from_str(detail))
    }

    /// A choice among several words, each with a description.
    pub fn enums(choices: Vec<(String, String)>) -> (r: Parameter)
        ensures
            r@ == ParameterView::Enum(choices@.map_values(|p: (String, String)| pair_view(p))),
    {
        Parameter::Enum(choices)
    }

    /// A keyword followed by an argument.
    pub fn arg(key: &str, arg: &str, detail: &str) -> (r: Parameter)
        ensures
            r@ == (ParameterView::Arg { key: key@, arg: arg@, detail: detail@ }),
    {
        Parameter::Arg {
            key: String::from_str(key),
            arg: String::from_str(arg),
            detail: String::from_str(detail),
        }
    }

    /// A single value.
    pub fn single(s: &str) -> (r: Parameter)
        ensures
            r@ == ParameterView::Single(s@),
    {
        Parameter::Single(String::from_str(s))
    }

    /// One or more values.
    pub fn many(s: &str) -> (r: Parameter)
        ensures
            r@ == ParameterView::Many(s@),
    {
        Parameter::Many(String::from_str(s))
    }

    /// How the parameter is written in a usage line: `[FLAG]`,
    /// `[A | B]`, `[key arg]`, `name`, or `name [name...]`.
    pub fn to_string(&self) -> (r: String)
        ensures
            r@ == param_text(self@),
    {
        let mut d: Vec<char> = Vec::new();
        match self {
            Parameter::Flag(flag, _) => {
                d.push('[');
                push_str_chars(&mut d, flag.as_str());
                d.push(']');
            },
            Parameter::Enum(es) => {
                d.push('[');
                let ghost names = es@.map_values(|e: (String, String)| e.0@);
                let mut i: usize = 0;
                while i < es.len()
                    invariant
                        i <= es.len(),
                        names == es@.map_values(|e: (String, String)| e.0@),
                        d@ == seq!['['] + join(names.take(i as int), " | "@),
                    decreases es.len() - i,
                {
                    proof {
                        assert(names.take(i + 1).drop_last() =~= names.take(i as int));
                        assert(names.take(i + 1).last() == es@[i as int].0@);
                        reveal_strlit(" | ");
                    }
                    if i > 0 {
                        push_str_chars(&mut d, " | ");
                    }
                    push_str_chars(&mut d, es[i].0.as_str());
                    proof {
                        if i == 0 {
                            assert(names.take(1) =~= seq![es@[0].0@]);
                            assert(d@ =~= seq!['['] + join(names.take(1), " | "@));
                        } else {
                            assert(d@ =~= seq!['['] + join(names.take(i + 1), " | "@));
                        }
                    }
                    i = i + 1;
                }
                proof {
                    assert(names.take(i as int) =~= names);
                    assert(es@.map_values(|e: (String, String)| pair_view(e)).map_values(
                        |e: (Seq<char>, Seq<char>)| e.0,
                    ) =~= names);
                }
                d.push(']');
            },
            Parameter::Arg { key, arg, .. } => {
                d.push('[');
                push_str_chars(&mut d, key.as_str());
                d.push(' ');
                push_str_chars(&mut d, arg.as_str());
                d.push(']');
            },
            Parameter::Single(name) => {
                push_str_chars(&mut d, name.as_str());
            },
            Parameter::Many(name) => {
                push_str_chars(&mut d, name.as_str());
                push_str_chars(&mut d, " [");
                push_str_chars(&mut d, name.as_str());
                push_str_chars(&mut d, "...]");
            },
        }
        proof {
            assert(d@ =~= param_text(self@));
        }
        from_chars(&d)
    }

    /// A copy of the parameter.
    pub fn duplicate(&self) -> (r: Parameter)
        ensures
            r@ == self@,
    {
        match self {
            Parameter::Flag(a, b) => Parameter::Flag(clone_string(a), clone_string(b)),
            Parameter::Enum(es) => {
                let mut v: Vec<(String, String)> = Vec::new();
                let mut i: usize = 0;
                while i < es.len()
                    invariant
                        i <= es.len(),
                        v@.len() == i,
                        forall|j: int| 0 <= j < i ==> pair_view(#[trigger] v@[j]) == pair_view(es@[j]),
                    decreases es.len() - i,
                {
                    v.push((clone_string(&es[i].0), clone_string(&es[i].1)));
                    i = i + 1;
                }
                proof {
                    assert(v@.map_values(|p: (String, String)| pair_view(p)) =~= es@.map_values(
                        |p: (String, String)| pair_view(p),
                    ));
                }
                Parameter::Enum(v)
            },
            Parameter::Arg { key, arg, detail } => Parameter::Arg {
                key: clone_string(key),
                arg: clone_string(arg),
                detail: clone_string(detail),
            },
            Parameter::Single(s) => Parameter::Single(clone_string(s)),
            Parameter::Many(s) => Parameter::Many(clone_string(s)),
        }
    }
}


/// The documentation of a command: its syntax, a summary, and named
/// attributes such as `since` or `complexity`.
#[derive(Debug)]
pub struct Doc {
    pub syntax: String,
    pub summary: String,
    pub attributes: Vec<(String, String)>,
}

/// A command's documentation as the contracts see it.
pub struct DocView {
    pub syntax: Seq<char>,
    pub summary: Seq<char>,
    pub attributes: Seq<(Seq<char>, Seq<char>)>,
}

impl View for Doc {
    type V = DocView;

    open spec fn view(&self) -> DocView {
        DocView {
            syntax: self.syntax@,
            summary: self.summary@,
            attributes: self.attributes@.map_values(|p: (String, String)| pair_view(p)),
        }
    }
}

impl Doc {
    /// Empty documentation.
    pub fn new() -> (r: Doc)
        ensures
            r@ == (DocView { syntax: seq![], summary: seq![], attributes: seq![] }),
    {
        let r = Doc { syntax: String::new(), summary: String::new(), attributes: Vec::new() };
        proof {
            assert(r@.attributes =~= Seq::<(Seq<char>, Seq<char>)>::empty());
        }
        r
    }

    /// Sets the syntax line.
    pub fn syntax(self, s: &str) -> (r: Doc)
        ensures
            r@ == (DocView { syntax: s@, ..self@ }),
    {
        Doc { syntax: String::from_str(s), ..self }
    }

    /// Sets the summary.
    pub fn summary(self, s: &str) -> (r: Doc)
        ensures
            r@ == (DocView { summary: s@, ..self@ }),
    {
        Doc { summary: String::from_str(s), ..self }
    }

    /// Adds a named attribute after the others.
    pub fn attribute(self, key: &str, value: &str) -> (r: Doc)
        ensures
            r@ == (DocView { attributes: self@.attributes.push((key@, value@)), ..self@ }),
    {
        let mut d = self;
        d.attributes.push((String::from_str(key), String::from_str(value)));
        proof {
            assert(d@.attributes =~= self@.attributes.push((key@, value@)));
        }
        d
    }

    /// A copy of the documentation.
    pub fn duplicate(&self) -> (r: Doc)
        ensures
            r@ == self@,
    {
        let mut v: Vec<(String, String)> = Vec::new();
        let mut i: usize = 0;
        while i < self.attributes.len()
            invariant
                i <= self.attributes.len(),
                v@.len() == i,
                forall|j: int| 0 <= j < i ==> pair_view(#[trigger] v@[j]) == pair_view(self.attributes@[j]),
            decreases self.attributes.len() - i,
        {
            v.push((clone_string(&self.attributes[i].0), clone_string(&self.attributes[i].1)));
            i = i + 1;
        }
        let r = Doc { syntax: clone_string(&self.syntax), summary: clone_string(&self.summary), attributes: v };
        proof {
            assert(r@.attributes =~= self@.attributes);
        }
        r
    }
}

/// What a completion item shows: its label, a short detail after it, and the
/// documentation shown beside the menu.
#[derive(Debug)]
pub struct Label {
    pub label: String,
    pub detail: Option<String>,
    pub description: Option<Doc>,
}

/// A completion item: its kind, what it shows, its parameters, the range of
/// the input it replaces (the end is -1 for "to the end of the input"), and
/// the text it inserts.
#[derive(Debug)]
pub struct CompletionItem {
    pub kind: CompletionItemKind,
    pub label: Label,
    pub parameters: Vec<Parameter>,
    pub range: (isize, isize),
    pub insert_text: String,
}

/// A completion item as the contracts see it.
pub struct ItemView {
    pub kind: CompletionItemKind,
    pub label: Seq<char>,
    pub detail: Option<Seq<char>>,
    pub description: Option<DocView>,
    pub parameters: Seq<ParameterView>,
    pub range: (int, int),
    pub insert_text: Seq<char>,
}

impl View for CompletionItem {
    type V = ItemView;

    open spec fn view(&self) -> ItemView {
        ItemView {
            kind: self.kind,
            label: self.label.label@,
            detail: match self.label.detail {
                Some(d) => Some(d@),
                None => None,
            },
            description: match self.label.description {
                Some(d) => Some(d@),
                None => None,
            },
            parameters: self.parameters@.map_values(|p: Parameter| p@),
            range: (self.range.0 as int, self.range.1 as int),
            insert_text: self.insert_text@,
        }
    }
}

/// A fresh item that shows and inserts `s`.
pub open spec fn fresh_item(s: Seq<char>, kind: CompletionItemKind) -> ItemView {
    ItemView {
        kind,
        label: s,
        detail: None,
        description: None,
        parameters: seq![],
        range: (0, -1),
        insert_text: s,
    }
}

/// The usage detail of a parameter list: each parameter's text followed by a
/// space.
pub open spec fn params_detail(ps: Seq<ParameterView>) -> Seq<char>
    decreases ps.len(),
{
    if ps.len() == 0 {
        seq![]
    } else {
        params_detail(ps.drop_last()) + param_text(ps.last()) + seq![' ']
    }
}

impl CompletionItem {
    /// A generic item that shows and inserts `s`.
    pub fn default(s: &str) -> (r: CompletionItem)
        ensures
            r@ == fresh_item(s@, CompletionItemKind::Generic),
    {
        Self::new(s, CompletionItemKind::Generic)
    }

    /// An option item that shows and inserts `s`.
    pub fn option(s: &str) -> (r: CompletionItem)
        ensures
            r@ == fresh_item(s@, CompletionItemKind::Flag),
    {
        Self::new(s, CompletionItemKind::Flag)
    }

    fn new(s: &str, kind: CompletionItemKind) -> (r: CompletionItem)
        ensures
            r@ == fresh_item(s@, kind),
    {
        let r = CompletionItem {
            kind,
            label: Label { label: String::from_str(s), detail: None, description: None },
            parameters: Vec::new(),
            range: (0, -1),
            insert_text: String::from_str(s),
        };
        proof {
            assert(r@.parameters =~= Seq::<ParameterView>::empty());
        }
        r
    }

    /// An item of the given kind that shows and inserts `s`.
    pub fn custom(s: &str, kind: CompletionItemKind) -> (r: CompletionItem)
        ensures
            r@ == fresh_item(s@, kind),
    {
        Self::new(s, kind)
    }

    /// Sets the text the item inserts.
    pub fn insert_text(self, s: &str) -> (r: CompletionItem)
        ensures
            r@ == (ItemView { insert_text: s@, ..self@ }),
    {
        let mut it = self;
        it.insert_text = String::from_str(s);
        it
    }

    /// Adds a parameter after the others.
    pub fn add_param(self, p: Parameter) -> (r: CompletionItem)
        ensures
            r@ == (ItemView { parameters: self@.parameters.push(p@), ..self@ }),
    {
        let mut it = self;
        let ghost pv = p@;
        it.parameters.push(p);
        proof {
            assert(it@.parameters =~= self@.parameters.push(pv));
        }
        it
    }

    /// Sets the detail shown after the label.
    pub fn detail(self, s: &str) -> (r: CompletionItem)
        ensures
            r@ == (ItemView { detail: Some(s@), ..self@ }),
    {
        let mut it = self;
        it.label.detail = Some(String::from_str(s));
        it
    }

    /// Sets the documentation.
    pub fn description(self, doc: Doc) -> (r: CompletionItem)
        ensures
            r@ == (ItemView { description: Some(doc@), ..self@ }),
    {
        let mut it = self;
        it.label.description = Some(doc);
        it
    }

    /// Sets the range of the input the item replaces.
    pub fn range(self, start: isize, end: isize) -> (r: CompletionItem)
        ensures
            r@ == (ItemView { range: (start as int, end as int), ..self@ }),
    {
        let mut it = self;
        it.range = (start, end);
        it
    }

    /// Writes the usage of the parameters as the detail, when there are
    /// parameters.
    pub fn build_label(self) -> (r: CompletionItem)
        ensures
            r@ == if self@.parameters.len() == 0 {
                self@
            } else {
                ItemView { detail: Some(params_detail(self@.parameters)), ..self@ }
            },
    {
        let mut it = self;
        if it.parameters.len() > 0 {
            let ghost ps = it@.parameters;
            let mut d: Vec<char> = Vec::new();
            let mut i: usize = 0;
            while i < it.parameters.len()
                invariant
                    i <= it.parameters.len(),
                    ps == it.parameters@.map_values(|p: Parameter| p@),
                    d@ == params_detail(ps.take(i as int)),
                decreases it.parameters.len() - i,
            {
                let t = it.parameters[i].to_string();
                push_str_chars(&mut d, t.as_str());
                d.push(' ');
                proof {
                    assert(ps.take(i + 1).drop_last() =~= ps.take(i as int));
                    assert(ps.take(i + 1).last() == it.parameters@[i as int]@);
                    assert(d@ =~= params_detail(ps.take(i + 1)));
                }
                i = i + 1;
            }
            proof {
                assert(ps.take(i as int) =~= ps);
            }
            it.label.detail = Some(from_chars(&d));
        }
        it
    }

    /// A copy of the item.
    pub fn duplicate(&self) -> (r: CompletionItem)
        ensures
            r@ == self@,
    {
        let mut ps: Vec<Parameter> = Vec::new();
        let mut i: usize = 0;
        while i < self.parameters.len()
            invariant
                i <= self.parameters.len(),
                ps@.len() == i,
                forall|j: int| 0 <= j < i ==> (#[trigger] ps@[j])@ == self.parameters@[j]@,
            decreases self.parameters.len() - i,
        {
            ps.push(self.parameters[i].duplicate());
            i = i + 1;
        }
        let detail = match &self.label.detail {
            Some(d) => Some(clone_string(d)),
            None => None,
        };
        let description = match &self.label.description {
            Some(d) => Some(d.duplicate()),
            None => None,
        };
        let r = CompletionItem {
            kind: self.kind,
            label: Label { label: clone_string(&self.label.label), detail, description },
            parameters: ps,
            range: self.range,
            insert_text: clone_string(&self.insert_text),
        };
        proof {
            assert(r@.parameters =~= self@.parameters);
        }
        r
    }
}


// ---------------------------------------------------------------------------
// Suggestions for the command line
// ---------------------------------------------------------------------------
/// An argument of the command line with its quote character, if it was
/// quoted, and its character range `start..=end` in the input.
#[derive(Debug)]
pub struct ArgSpan {
    pub arg: String,
    pub quote: Option<char>,
    pub start: usize,
    pub end: usize,
}

/// The upper-case form of a text (`str::to_uppercase`).
pub uninterp spec fn spec_to_uppercase(s: Seq<char>) -> Seq<char>;

/// Upper-cases a text (`str::to_uppercase`); the result is named, not
/// spelled out.
#[verifier::external_body]
pub fn to_uppercase(s: &str) -> (r: String)
    ensures
        r@ == spec_to_uppercase(s@),
{
    s.to_uppercase()
}

/// The lower-case form of a text (`str::to_lowercase`).
pub uninterp spec fn spec_to_lowercase(s: Seq<char>) -> Seq<char>;

/// Lower-cases a text (`str::to_lowercase`); the result is named, not
/// spelled out.
#[verifier::external_body]
pub fn to_lowercase(s: &str) -> (r: String)
    ensures
        r@ == spec_to_lowercase(s@),
{
    s.to_lowercase()
}

/// The characters of `s` from position `start` up to `end`, both cut to the
/// length of `s`; empty when `end <= start` (`substring::Substring`).
pub open spec fn spec_substring(s: Seq<char>, start: int, end: int) -> Seq<char> {
    if end <= start {
        seq![]
    } else {
        let a = if start < s.len() { start } else { s.len() as int };
        let b = if end < s.len() { end } else { s.len() as int };
        s.subrange(a, b)
    }
}

/// The characters of `s` from `start` up to `end`
/// (`substring::Substring::substring`).
#[verifier::external_body]
pub fn substring(s: &str, start: usize, end: usize) -> (r: String)
    ensures
        r@ == spec_substring(s@, start as int, end as int),
{
    substring::Substring::substring(s, start, end).to_string()
}

/// The position of the first argument whose range holds the cursor.
pub open spec fn current_word(args: Seq<ArgSpan>, cursor: int, k: int) -> Option<int>
    decreases args.len() - k,
{
    if 0 <= k < args.len() {
        if args[k].start <= cursor <= args[k].end {
            Some(k)
        } else {
            current_word(args, cursor, k + 1)
        }
    } else {
        None
    }
}

/// The text typed so far of the word under the cursor, upper-cased; empty
/// when the cursor is on no word.
pub open spec fn segment_of(input: Seq<char>, args: Seq<ArgSpan>, cursor: int) -> Seq<char> {
    match current_word(args, cursor, 0) {
        Some(k) => spec_to_uppercase(spec_substring(input, args[k].start as int, cursor)),
        None => seq![],
    }
}

/// An item with another range.
pub open spec fn with_range(it: ItemView, start: int, end: int) -> ItemView {
    ItemView { range: (start, end), ..it }
}

/// The commands a line's first word picks, from the `k`-th known command on.
/// When the cursor is on the first word, every command whose label holds the
/// typed text, each replacing that word; otherwise the first command named
/// by the first word (replacing it when the cursor is on another word), or
/// every command when the line is empty.
pub open spec fn command_candidates(
    commands: Seq<ItemView>,
    args: Seq<ArgSpan>,
    cursor: int,
    segment: Seq<char>,
    k: int,
) -> Seq<ItemView>
    decreases commands.len() - k,
{
    if 0 <= k < commands.len() {
        let item = commands[k];
        let rest = command_candidates(commands, args, cursor, segment, k + 1);
        match current_word(args, cursor, 0) {
            Some(w) => if w == 0 {
                if crate::text::seq_contains(item.label, segment) {
                    seq![with_range(item, args[w].start as isize as int, args[w].end as isize as int)]
                        + rest
                } else {
                    rest
                }
            } else if args.len() > 0 && item.label == spec_to_uppercase(args[0].arg@) {
                seq![with_range(item, args[0].start as isize as int, args[0].end as isize as int)]
            } else {
                rest
            },
            None => if args.len() > 0 {
                if item.label == spec_to_uppercase(args[0].arg@) {
                    seq![item]
                } else {
                    rest
                }
            } else {
                seq![item] + rest
            },
        }
    } else {
        seq![]
    }
}

/// An option suggestion with its detail and range.
pub open spec fn option_item(label: Seq<char>, detail: Seq<char>, start: int, end: int) -> ItemView {
    ItemView {
        kind: CompletionItemKind::Flag,
        label,
        detail: Some(detail),
        description: None,
        parameters: seq![],
        range: (start, end),
        insert_text: label,
    }
}

/// The suggestions for the choices of an enumerated parameter from the
/// `k`-th on that hold the typed text.
pub open spec fn enum_options(
    es: Seq<(Seq<char>, Seq<char>)>,
    segment: Seq<char>,
    start: int,
    end: int,
    k: int,
) -> Seq<ItemView>
    decreases es.len() - k,
{
    if 0 <= k < es.len() {
        let rest = enum_options(es, segment, start, end, k + 1);
        if crate::text::seq_contains(es[k].0, segment) {
            seq![option_item(es[k].0, es[k].1, start, end)] + rest
        } else {
            rest
        }
    } else {
        seq![]
    }
}

/// The suggestions for one parameter: a flag, each choice of an enumeration
/// and the keyword of an argument, when they hold the typed text.
pub open spec fn param_options(p: ParameterView, segment: Seq<char>, start: int, end: int) -> Seq<
    ItemView,
> {
    match p {
        ParameterView::Flag(flag, detail) => if crate::text::seq_contains(flag, segment) {
            seq![option_item(flag, detail, start, end)]
        } else {
            seq![]
        },
        ParameterView::Enum(es) => enum_options(es, segment, start, end, 0),
        ParameterView::Arg { key, detail, .. } => if crate::text::seq_contains(key, segment) {
            seq![option_item(key, detail, start, end)]
        } else {
            seq![]
        },
        _ => seq![],
    }
}

/// An argument's keyword is suggested exactly when it holds the typed text
/// somewhere: then the one suggestion is an option labelled with the
/// keyword, inserting it, with the argument's detail and the typed word's
/// range; otherwise nothing is suggested for it.
pub proof fn lemma_arg_keyword_option(
    key: Seq<char>,
    arg: Seq<char>,
    detail: Seq<char>,
    segment: Seq<char>,
    start: int,
    end: int,
)
    ensures
        ({
            let out = param_options(ParameterView::Arg { key, arg, detail }, segment, start, end);
            let holds = exists|i: int|
                0 <= i <= key.len() - segment.len() && #[trigger] key.subrange(i, i + segment.len())
                    == segment;
            &&& holds ==> out.len() == 1 && out[0].kind == CompletionItemKind::Flag && out[0].label
                == key && out[0].insert_text == key && out[0].detail == Some(detail) && out[0].range
                == (start, end) && out[0].parameters.len() == 0
            &&& !holds ==> out.len() == 0
        }),
{
    if crate::text::seq_contains(key, segment) {
        let i = choose|i: int| crate::text::occurs_at(key, segment, i);
        assert(key.subrange(i, i + segment.len()) == segment);
    }
    if exists|i: int| 0 <= i <= key.len() - segment.len() && #[trigger] key.subrange(i, i + segment.len()) == segment {
        let i = choose|i: int| 0 <= i <= key.len() - segment.len() && #[trigger] key.subrange(i, i + segment.len()) == segment;
        assert(crate::text::occurs_at(key, segment, i));
    }
}

/// A flag is suggested exactly when it holds the typed text somewhere: then
/// the one suggestion is an option labelled with the flag, inserting it,
/// with its detail and the typed word's range; otherwise nothing.
pub proof fn lemma_flag_option(flag: Seq<char>, detail: Seq<char>, segment: Seq<char>, start: int, end: int)
    ensures
        ({
            let out = param_options(ParameterView::Flag(flag, detail), segment, start, end);
            let holds = exists|i: int|
                0 <= i <= flag.len() - segment.len() && #[trigger] flag.subrange(i, i + segment.len())
                    == segment;
            &&& holds ==> out.len() == 1 && out[0].kind == CompletionItemKind::Flag && out[0].label
                == flag && out[0].insert_text == flag && out[0].detail == Some(detail) && out[0].range
                == (start, end) && out[0].parameters.len() == 0
            &&& !holds ==> out.len() == 0
        }),
{
    if crate::text::seq_contains(flag, segment) {
        let i = choose|i: int| crate::text::occurs_at(flag, segment, i);
        assert(flag.subrange(i, i + segment.len()) == segment);
    }
    if exists|i: int| 0 <= i <= flag.len() - segment.len() && #[trigger] flag.subrange(i, i + segment.len()) == segment {
        let i = choose|i: int| 0 <= i <= flag.len() - segment.len() && #[trigger] flag.subrange(i, i + segment.len()) == segment;
        assert(crate::text::occurs_at(flag, segment, i));
    }
}

/// The suggestions for the parameters from the `k`-th on.
pub open spec fn params_options(
    ps: Seq<ParameterView>,
    segment: Seq<char>,
    start: int,
    end: int,
    k: int,
) -> Seq<ItemView>
    decreases ps.len() - k,
{
    if 0 <= k < ps.len() {
        param_options(ps[k], segment, start, end) + params_options(ps, segment, start, end, k + 1)
    } else {
        seq![]
    }
}

/// The suggestions for the parameters of the items from the `k`-th on.
pub open spec fn items_options(
    items: Seq<ItemView>,
    segment: Seq<char>,
    start: int,
    end: int,
    k: int,
) -> Seq<ItemView>
    decreases items.len() - k,
{
    if 0 <= k < items.len() {
        params_options(items[k].parameters, segment, start, end, 0) + items_options(
            items,
            segment,
            start,
            end,
            k + 1,
        )
    } else {
        seq![]
    }
}

/// The suggestions for a command line and the typed text they are matched
/// against: commands while the cursor is on the first word, else the
/// options of the chosen command.
pub open spec fn spec_get_items(
    input: Seq<char>,
    cursor: int,
    args: Seq<ArgSpan>,
    commands: Seq<ItemView>,
) -> (Seq<ItemView>, Seq<char>) {
    let segment = segment_of(input, args, cursor);
    let cands = command_candidates(commands, args, cursor, segment, 0);
    let cw = current_word(args, cursor, 0);
    if cw == Some(0int) {
        (cands, segment)
    } else if cands.len() > 0 {
        let (start, end) = match cw {
            Some(w) => (args[w].start as isize as int, args[w].end as isize as int),
            None => (0, -1),
        };
        (items_options(cands, segment, start, end, 0), segment)
    } else {
        (cands, segment)
    }
}

/// The views of a list of items.
pub open spec fn items_view(v: Seq<CompletionItem>) -> Seq<ItemView> {
    v.map_values(|it: CompletionItem| it@)
}

fn contains_str(s: &str, sub: &Vec<char>) -> (r: bool)
    ensures
        r == crate::text::seq_contains(s@, sub@),
{
    let v = to_chars(s);
    crate::text::contains_chars(&v, sub)
}

pub fn find_current_word(args: &Vec<ArgSpan>, cursor: usize) -> (r: Option<usize>)
    ensures
        match r {
            Some(k) => current_word(args@, cursor as int, 0) == Some(k as int) && k < args@.len(),
            None => current_word(args@, cursor as int, 0) is None,
        },
{
    let mut k: usize = 0;
    while k < args.len()
        invariant
            k <= args.len(),
            current_word(args@, cursor as int, 0) == current_word(args@, cursor as int, k as int),
        decreases args.len() - k,
    {
        if args[k].start <= cursor && cursor <= args[k].end {
            return Some(k);
        }
        k = k + 1;
    }
    None
}

fn push_items(out: &mut Vec<CompletionItem>, more: Vec<CompletionItem>)
    ensures
        items_view(final(out)@) == items_view(old(out)@) + items_view(more@),
{
    let ghost mv = items_view(more@);
    let mut more = more;
    out.append(&mut more);
    proof {
        assert(items_view(out@) =~= items_view(old(out)@) + mv);
    }
}

fn param_options_exec(p: &Parameter, segment: &Vec<char>, start: isize, end: isize) -> (r: Vec<CompletionItem>)
    ensures
        items_view(r@) == param_options(p@, segment@, start as int, end as int),
{
    let mut out: Vec<CompletionItem> = Vec::new();
    match p {
        Parameter::Flag(flag, detail) => {
            if contains_str(flag.as_str(), segment) {
                out.push(CompletionItem::option(flag.as_str()).detail(detail.as_str()).range(start, end));
            }
            proof {
                assert(items_view(out@) =~= param_options(p@, segment@, start as int, end as int));
            }
        },
        Parameter::Enum(es) => {
            let ghost esv = es@.map_values(|e: (String, String)| pair_view(e));
            let mut k: usize = 0;
            proof {
                assert(items_view(out@) + enum_options(esv, segment@, start as int, end as int, 0)
                    =~= enum_options(esv, segment@, start as int, end as int, 0));
            }
            while k < es.len()
                invariant
                    k <= es.len(),
                    esv == es@.map_values(|e: (String, String)| pair_view(e)),
                    items_view(out@) + enum_options(esv, segment@, start as int, end as int, k as int)
                        == enum_options(esv, segment@, start as int, end as int, 0),
                decreases es.len() - k,
            {
                let ghost before = items_view(out@);
                if contains_str(es[k].0.as_str(), segment) {
                    out.push(CompletionItem::option(es[k].0.as_str()).detail(es[k].1.as_str()).range(start, end));
                    proof {
                        assert(items_view(out@) =~= before.push(option_item(esv[k as int].0, esv[k as int].1, start as int, end as int)));
                        assert(before + enum_options(esv, segment@, start as int, end as int, k as int)
                            =~= items_view(out@) + enum_options(esv, segment@, start as int, end as int, k + 1));
                    }
                } else {
                    proof {
                        assert(before + enum_options(esv, segment@, start as int, end as int, k as int)
                            =~= items_view(out@) + enum_options(esv, segment@, start as int, end as int, k + 1));
                    }
                }
                k = k + 1;
            }
            proof {
                assert(items_view(out@) + enum_options(esv, segment@, start as int, end as int, k as int) =~= items_view(out@));
            }
        },
        Parameter::Arg { key, arg: _, detail } => {
            if contains_str(key.as_str(), segment) {
                out.push(CompletionItem::option(key.as_str()).detail(detail.as_str()).range(start, end));
            }
            proof {
                assert(items_view(out@) =~= param_options(p@, segment@, start as int, end as int));
            }
        },
        _ => {
            proof {
                assert(items_view(out@) =~= param_options(p@, segment@, start as int, end as int));
            }
        },
    }
    out
}

fn items_options_exec(items: &Vec<CompletionItem>, segment: &Vec<char>, start: isize, end: isize) -> (r: Vec<CompletionItem>)
    ensures
        items_view(r@) == items_options(items_view(items@), segment@, start as int, end as int, 0),
{
    let ghost iv = items_view(items@);
    let mut out: Vec<CompletionItem> = Vec::new();
    let mut k: usize = 0;
    proof {
        assert(items_view(out@) + items_options(iv, segment@, start as int, end as int, 0)
            =~= items_options(iv, segment@, start as int, end as int, 0));
    }
    while k < items.len()
        invariant
            k <= items.len(),
            iv == items_view(items@),
            items_view(out@) + items_options(iv, segment@, start as int, end as int, k as int)
                == items_options(iv, segment@, start as int, end as int, 0),
        decreases items.len() - k,
    {
        let ps = &items[k].parameters;
        let ghost psv = ps@.map_values(|p: Parameter| p@);
        proof {
            assert(iv[k as int].parameters == psv);
        }
        let ghost before = items_view(out@);
        let mut j: usize = 0;
        proof {
            assert(items_view(out@) + params_options(psv, segment@, start as int, end as int, 0)
                =~= before + params_options(psv, segment@, start as int, end as int, 0));
        }
        while j < ps.len()
            invariant
                j <= ps.len(),
                psv == ps@.map_values(|p: Parameter| p@),
                items_view(out@) + params_options(psv, segment@, start as int, end as int, j as int)
                    == before + params_options(psv, segment@, start as int, end as int, 0),
            decreases ps.len() - j,
        {
            let more = param_options_exec(&ps[j], segment, start, end);
            let ghost mid = items_view(out@);
            push_items(&mut out, more);
            proof {
                assert(psv[j as int] == ps@[j as int]@);
                assert(mid + params_options(psv, segment@, start as int, end as int, j as int)
                    =~= items_view(out@) + params_options(psv, segment@, start as int, end as int, j + 1));
            }
            j = j + 1;
        }
        proof {
            assert(items_view(out@) + params_options(psv, segment@, start as int, end as int, j as int) =~= items_view(out@));
            assert(before + items_options(iv, segment@, start as int, end as int, k as int)
                =~= items_view(out@) + items_options(iv, segment@, start as int, end as int, k + 1));
        }
        k = k + 1;
    }
    proof {
        assert(items_view(out@) + items_options(iv, segment@, start as int, end as int, k as int) =~= items_view(out@));
    }
    out
}

/// Suggestions for the command line `input` with the cursor at character
/// `cursor_x`.  `args` are the line's arguments with their ranges and
/// `commands` the known commands.  While the cursor is on the first word the
/// suggestions are the commands whose label holds the typed text; after it
/// they are the options of the command the first word names.  Also returns
/// the typed text of the word under the cursor, upper-cased.
pub fn get_items(input: &str, cursor_x: usize, args: &Vec<ArgSpan>, commands: &Vec<CompletionItem>) -> (r: (
    Vec<CompletionItem>,
    String,
))
    ensures
        (items_view(r.0@), r.1@) == spec_get_items(input@, cursor_x as int, args@, items_view(commands@)),
{
    let cw = find_current_word(args, cursor_x);
    let segment_s = match cw {
        Some(k) => {
            let sub = substring(input, args[k].start, cursor_x);
            to_uppercase(sub.as_str())
        },
        None => String::new(),
    };
    let segment = to_chars(segment_s.as_str());
    let ghost seg = segment@;
    proof {
        assert(seg == segment_of(input@, args@, cursor_x as int));
    }
    let first_upper: Option<Vec<char>> = if args.len() > 0 {
        let u = to_uppercase(args[0].arg.as_str());
        Some(to_chars(u.as_str()))
    } else {
        None
    };
    let ghost cv = items_view(commands@);
    let ghost target = command_candidates(cv, args@, cursor_x as int, seg, 0);
    let mut cands: Vec<CompletionItem> = Vec::new();
    let mut k: usize = 0;
    let mut done = false;
    proof {
        assert(items_view(cands@) + command_candidates(cv, args@, cursor_x as int, seg, 0)
            =~= command_candidates(cv, args@, cursor_x as int, seg, 0));
    }
    while k < commands.len() && !done
        invariant
            k <= commands.len(),
            cv == items_view(commands@),
            seg == segment@,
            target == command_candidates(cv, args@, cursor_x as int, seg, 0),
            match cw {
                Some(w) => current_word(args@, cursor_x as int, 0) == Some(w as int) && w < args@.len(),
                None => current_word(args@, cursor_x as int, 0) is None,
            },
            match first_upper {
                Some(u) => args@.len() > 0 && u@ == spec_to_uppercase(args@[0].arg@),
                None => args@.len() == 0,
            },
            done ==> items_view(cands@) == target,
            !done ==> items_view(cands@) + command_candidates(cv, args@, cursor_x as int, seg, k as int) == target,
        decreases commands.len() - k,
    {
        let item = &commands[k];
        let ghost before = items_view(cands@);
        proof {
            assert(cv[k as int] == item@);
        }
        let label = to_chars(item.label.label.as_str());
        match cw {
            Some(w) => {
                if w == 0 {
                    if crate::text::contains_chars(&label, &segment) {
                        let c = item.duplicate().range(args[w].start as isize, args[w].end as isize);
                        cands.push(c);
                    }
                    proof {
                        assert(before + command_candidates(cv, args@, cursor_x as int, seg, k as int)
                            =~= items_view(cands@) + command_candidates(cv, args@, cursor_x as int, seg, k + 1));
                    }
                } else {
                    match &first_upper {
                        Some(u) => {
                            if crate::text::chars_eq(&label, u) {
                                let c = item.duplicate().range(args[0].start as isize, args[0].end as isize);
                                cands.push(c);
                                done = true;
                                proof {
                                    assert(items_view(cands@) =~= before + seq![with_range(cv[k as int], args@[0].start as isize as int, args@[0].end as isize as int)]);
                                }
                            }
                        },
                        None => {},
                    }
                }
            },
            None => {
                match &first_upper {
                    Some(u) => {
                        if crate::text::chars_eq(&label, u) {
                            cands.push(item.duplicate());
                            done = true;
                            proof {
                                assert(items_view(cands@) =~= before + seq![cv[k as int]]);
                            }
                        }
                    },
                    None => {
                        cands.push(item.duplicate());
                        proof {
                            assert(before + command_candidates(cv, args@, cursor_x as int, seg, k as int)
                                =~= items_view(cands@) + command_candidates(cv, args@, cursor_x as int, seg, k + 1));
                        }
                    },
                }
            },
        }
        k = k + 1;
    }
    proof {
        if !done {
            assert(items_view(cands@) + command_candidates(cv, args@, cursor_x as int, seg, k as int) =~= items_view(cands@));
        }
    }
    let is_first = match cw {
        Some(w) => w == 0,
        None => false,
    };
    if is_first {
        return (cands, segment_s);
    }
    if cands.len() > 0 {
        let (start, end): (isize, isize) = match cw {
            Some(w) => (args[w].start as isize, args[w].end as isize),
            None => (0, -1),
        };
        let opts = items_options_exec(&cands, &segment, start, end);
        return (opts, segment_s);
    }
    (cands, segment_s)
}

} // verus!
