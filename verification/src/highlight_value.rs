//! Syntax highlighting of a stored value: the value is parsed as JSON, XML
//! or RON with tree-sitter, and the highlighter's events are folded into
//! fragments of text, each with the kind of token it is.
use crate::text::{from_chars, replace_str, spec_lines, spec_replace, split_lines, str_eq, to_chars};
use crate::utils::{utf8_decode, ContentType};
use vstd::prelude::*;
use vstd::string::StringSliceAdditionalSpecFns;
use vstd::utf8::{decode_utf8, encode_utf8, valid_utf8};

verus! {

/// `tree_sitter::Language`.
#[verifier::external_type_specification]
#[verifier::external_body]
pub struct ExLanguage(tree_sitter::Language);

/// `tree_sitter::LanguageError`.
#[verifier::external_type_specification]
#[verifier::external_body]
pub struct ExLanguageError(tree_sitter::LanguageError);

/// `tree_sitter::Parser`.
#[verifier::external_type_specification]
#[verifier::external_body]
pub struct ExParser(tree_sitter::Parser);

/// `tree_sitter::Tree`.
#[verifier::external_type_specification]
#[verifier::external_body]
pub struct ExTree(tree_sitter::Tree);

/// `tree_sitter::QueryError`.
#[verifier::external_type_specification]
#[verifier::external_body]
pub struct ExQueryError(tree_sitter::QueryError);

/// `tree_sitter_highlight::HighlightConfiguration`.
#[verifier::external_type_specification]
#[verifier::external_body]
pub struct ExHighlightConfiguration(tree_sitter_highlight::HighlightConfiguration);

/// `tree_sitter_highlight::Highlighter`.
#[verifier::external_type_specification]
#[verifier::external_body]
pub struct ExHighlighter(tree_sitter_highlight::Highlighter);

/// `tree_sitter_highlight::Error`.
#[verifier::external_type_specification]
#[verifier::external_body]
pub struct ExHighlightError(tree_sitter_highlight::Error);

/// A tree-sitter grammar, with the grammar of this library it is.
pub struct GrammarLanguage {
    language: tree_sitter::Language,
    grammar: Ghost<Grammar>,
}

impl View for GrammarLanguage {
    type V = Grammar;

    closed spec fn view(&self) -> Grammar {
        self.grammar@
    }
}

/// A tree-sitter parser, with the grammar it was given, if any.
pub struct GrammarParser {
    parser: tree_sitter::Parser,
    grammar: Ghost<Option<Grammar>>,
}

impl View for GrammarParser {
    type V = Option<Grammar>;

    closed spec fn view(&self) -> Option<Grammar> {
        self.grammar@
    }
}

/// A parse tree, with the grammar and the text it was parsed from.
pub struct ParsedTree {
    tree: tree_sitter::Tree,
    parsed: Ghost<(Grammar, Seq<char>)>,
}

impl View for ParsedTree {
    type V = (Grammar, Seq<char>);

    closed spec fn view(&self) -> (Grammar, Seq<char>) {
        self.parsed@
    }
}

/// A highlighting configuration, with the grammar, the highlights query and
/// the highlight names it was made with.
pub struct GrammarHighlight {
    config: tree_sitter_highlight::HighlightConfiguration,
    made: Ghost<(Grammar, Seq<char>, Seq<Seq<char>>)>,
}

impl View for GrammarHighlight {
    type V = (Grammar, Seq<char>, Seq<Seq<char>>);

    closed spec fn view(&self) -> (Grammar, Seq<char>, Seq<Seq<char>>) {
        self.made@
    }
}

/// Whether `Parser::set_language` takes a grammar: it checks only the
/// grammar's ABI version and whether it can be parsed with.
pub uninterp spec fn spec_language_fits(grammar: Grammar) -> bool;

/// The kinds of the root node of the tree a grammar parses a text into,
/// and of the root's first child, if any (`Tree::root_node`, `Node::kind`,
/// `Node::child`).
pub uninterp spec fn spec_root_kinds(grammar: Grammar, source: Seq<char>) -> (Seq<char>, Option<Seq<char>>);

/// Whether `HighlightConfiguration::new` takes a highlights query for a
/// grammar (with no injection and no locals query).
pub uninterp spec fn spec_query_fits(grammar: Grammar, query: Seq<char>) -> bool;

/// The events `Highlighter::highlight` gives for a text, run to its end,
/// with a configuration made from a grammar and a highlights query and
/// told the highlight names; `None` where it fails.
pub uninterp spec fn spec_highlight_events(
    grammar: Grammar,
    query: Seq<char>,
    names: Seq<Seq<char>>,
    source: Seq<char>,
) -> Option<Seq<HlEvent>>;

/// The JSON grammar (`tree_sitter_json::LANGUAGE`).
#[verifier::external_body]
fn json_language() -> (r: GrammarLanguage)
    ensures
        r@ == Grammar::Json,
{
    GrammarLanguage { language: tree_sitter_json::LANGUAGE.into(), grammar: Ghost(Grammar::Json) }
}

/// The HTML grammar, used for XML (`tree_sitter_html::LANGUAGE`).
#[verifier::external_body]
fn html_language() -> (r: GrammarLanguage)
    ensures
        r@ == Grammar::Xml,
{
    GrammarLanguage { language: tree_sitter_html::LANGUAGE.into(), grammar: Ghost(Grammar::Xml) }
}

/// A new parser, with no grammar yet (`Parser::new`).
#[verifier::external_body]
fn parser_new() -> (r: GrammarParser)
    ensures
        r@ is None,
{
    GrammarParser { parser: tree_sitter::Parser::new(), grammar: Ghost(None) }
}

/// Sets the parser's grammar (`Parser::set_language`): it succeeds exactly
/// when the grammar fits, and then the parser has that grammar; a refused
/// grammar leaves the parser as it was.
#[verifier::external_body]
fn parser_set_language(
    parser: &mut GrammarParser,
    language: &GrammarLanguage,
) -> (r: Result<(), tree_sitter::LanguageError>)
    ensures
        r is Ok == spec_language_fits(language@),
        r is Ok ==> final(parser)@ == Some(language@),
        r is Err ==> final(parser)@ == old(parser)@,
{
    match parser.parser.set_language(&language.language) {
        Ok(()) => {
            parser.grammar = Ghost(Some(language.grammar@));
            Ok(())
        },
        Err(e) => Err(e),
    }
}

/// Parses a text (`Parser::parse`, with no earlier tree): a tree exactly
/// when the parser has a grammar (no timeout or cancellation is set).
#[verifier::external_body]
fn parser_parse(parser: &mut GrammarParser, source: &str) -> (r: Option<ParsedTree>)
    ensures
        final(parser)@ == old(parser)@,
        r is Some == old(parser)@ is Some,
        r matches Some(t) ==> t@ == (old(parser)@->0, source@),
{
    match parser.parser.parse(source, None) {
        Some(tree) => Some(ParsedTree { tree, parsed: Ghost((parser.grammar@->0, source@)) }),
        None => None,
    }
}

/// The kind of the tree's root node (`Node::kind` of `Tree::root_node`), and
/// that of its first child (`Node::child`), if it has one.
#[verifier::external_body]
fn root_kinds(tree: &ParsedTree) -> (r: (String, Option<String>))
    ensures
        (r.0@, opt_text(r.1)) == spec_root_kinds(tree@.0, tree@.1),
{
    let root = tree.tree.root_node();
    (root.kind().to_string(), root.child(0).map(|c| c.kind().to_string()))
}

/// A highlighting configuration for a grammar and a highlights query, with
/// no injections and no locals (`HighlightConfiguration::new`); it fails
/// exactly where the query does not fit the grammar.
#[verifier::external_body]
fn config_new(
    language: GrammarLanguage,
    name: &str,
    query: &str,
) -> (r: Result<GrammarHighlight, tree_sitter::QueryError>)
    ensures
        r is Ok == spec_query_fits(language@, query@),
        r matches Ok(c) ==> c@ == (language@, query@, Seq::<Seq<char>>::empty()),
{
    match tree_sitter_highlight::HighlightConfiguration::new(language.language, name, query, "", "") {
        Ok(config) => Ok(GrammarHighlight { config, made: Ghost((language.grammar@, query@, Seq::empty())) }),
        Err(e) => Err(e),
    }
}

/// Tells the configuration which highlight names to report, by their
/// position in the list (`HighlightConfiguration::configure`).
#[verifier::external_body]
fn config_configure(config: &mut GrammarHighlight, names: &Vec<String>)
    ensures
        final(config)@ == (old(config)@.0, old(config)@.1, names@.map_values(|t: String| t@)),
{
    config.config.configure(names);
    config.made = Ghost((config.made@.0, config.made@.1, names@.map_values(|t: String| t@)));
}

/// A new highlighter (`Highlighter::new`).
#[verifier::external_body]
fn highlighter_new() -> tree_sitter_highlight::Highlighter {
    tree_sitter_highlight::Highlighter::new()
}

/// The highlighter's events for a text (`Highlighter::highlight`, run to
/// its end, with no cancellation and no injections), each turned into an
/// event of this library: those that `spec_highlight_events` names for the
/// configuration and the text, or an error where it names none.
#[verifier::external_body]
fn highlight_events(
    highlighter: &mut tree_sitter_highlight::Highlighter,
    config: &GrammarHighlight,
    source: &str,
) -> (r: Result<Vec<HlEvent>, tree_sitter_highlight::Error>)
    ensures
        match spec_highlight_events(config@.0, config@.1, config@.2, source@) {
            Some(ev) => r matches Ok(v) && v@ == ev,
            None => r is Err,
        },
{
    let events = highlighter.highlight(&config.config, source.as_bytes(), None, None, |_| None)?;
    let mut out = Vec::new();
    for event in events {
        out.push(match event? {
            tree_sitter_highlight::HighlightEvent::Source { start, end } => HlEvent::Source(start, end),
            tree_sitter_highlight::HighlightEvent::HighlightStart(h) => HlEvent::Start(h.0),
            tree_sitter_highlight::HighlightEvent::HighlightEnd => HlEvent::End,
        });
    }
    Ok(out)
}

/// What `serde_json` makes of a text read as JSON and written back
/// indented: `None` where the text is no JSON.
pub uninterp spec fn spec_json_pretty(source: Seq<char>) -> Option<Seq<char>>;

/// Reads a text as a JSON value (`serde_json::from_str`) and writes the value
/// back indented (`serde_json::to_string_pretty`); `None` where the text is no
/// JSON.
#[verifier::external_body]
fn json_pretty(source: &str) -> (r: Option<String>)
    ensures
        match r {
            Some(p) => spec_json_pretty(source@) == Some(p@),
            None => spec_json_pretty(source@) is None,
        },
{
    match serde_json::from_str::<serde_json::Value>(source) {
        Ok(v) => serde_json::to_string_pretty(&v).ok(),
        Err(_) => None,
    }
}

/// A step of the highlighter's output: a range of the text (in bytes), the
/// start of a highlight (by the position of its name), or its end.
#[derive(Clone, Copy, PartialEq, Eq, Debug, Structural)]
pub enum HlEvent {
    Source(usize, usize),
    Start(usize),
    End,
}

/// The kind of a highlighted fragment.
#[derive(Clone, Copy, PartialEq, Eq, Debug, Structural)]
pub enum HighlightKind {
    String,
    Number,
    Property,
    Constant,
    Comment,
    Keyword,
    Boolean,
    Null,
    Array,
    Object,
    Unknown,
}

/// A fragment of the highlighted text.
#[derive(Debug)]
pub struct HighlightText {
    pub text: String,
    pub kind: HighlightKind,
}

/// The grammar a value is highlighted with.
#[derive(Clone, Copy, PartialEq, Eq, Debug, Structural)]
pub enum Grammar {
    Json,
    Xml,
    Ron,
}

/// Why highlighting stopped with an error.
#[derive(Debug, PartialEq, Eq)]
pub enum HighlightError {
    /// The grammar does not fit the parser.
    Language,
    /// The parser gave no tree.
    Parse,
    /// The highlights query does not fit the grammar.
    Query,
    /// The highlighter failed.
    Highlight,
    /// An event's range is not a piece of the text.
    Range,
}

/// The kind that the highlight name at position `i` stands for, in the
/// list of names given for each grammar.
pub open spec fn kind_of(g: Grammar, i: int) -> HighlightKind {
    match g {
        Grammar::Json => if i == 1 {
            HighlightKind::Property
        } else if i == 2 {
            HighlightKind::String
        } else if i == 3 {
            HighlightKind::Constant
        } else if i == 4 {
            HighlightKind::Number
        } else if i == 5 {
            HighlightKind::Comment
        } else {
            HighlightKind::Unknown
        },
        Grammar::Xml => if i == 1 || i == 6 {
            HighlightKind::Property
        } else if i == 2 || i == 8 || i == 9 {
            HighlightKind::String
        } else if i == 3 || i == 7 || i == 10 || i == 11 || i == 12 || i == 14 {
            HighlightKind::Constant
        } else if i == 4 {
            HighlightKind::Number
        } else if i == 5 || i == 13 {
            HighlightKind::Comment
        } else {
            HighlightKind::Unknown
        },
        Grammar::Ron => if i == 0 {
            HighlightKind::Property
        } else if i == 1 || i == 2 {
            HighlightKind::Keyword
        } else if i == 5 || i == 6 {
            HighlightKind::String
        } else if i == 4 || i == 9 {
            HighlightKind::Constant
        } else if i == 7 || i == 8 {
            HighlightKind::Number
        } else if i == 3 {
            HighlightKind::Comment
        } else {
            HighlightKind::Unknown
        },
    }
}

fn kind_for(g: Grammar, i: usize) -> (r: HighlightKind)
    ensures
        r == kind_of(g, i as int),
{
    match g {
        Grammar::Json => if i == 1 {
            HighlightKind::Property
        } else if i == 2 {
            HighlightKind::String
        } else if i == 3 {
            HighlightKind::Constant
        } else if i == 4 {
            HighlightKind::Number
        } else if i == 5 {
            HighlightKind::Comment
        } else {
            HighlightKind::Unknown
        },
        Grammar::Xml => if i == 1 || i == 6 {
            HighlightKind::Property
        } else if i == 2 || i == 8 || i == 9 {
            HighlightKind::String
        } else if i == 3 || i == 7 || i == 10 || i == 11 || i == 12 || i == 14 {
            HighlightKind::Constant
        } else if i == 4 {
            HighlightKind::Number
        } else if i == 5 || i == 13 {
            HighlightKind::Comment
        } else {
            HighlightKind::Unknown
        },
        Grammar::Ron => if i == 0 {
            HighlightKind::Property
        } else if i == 1 || i == 2 {
            HighlightKind::Keyword
        } else if i == 5 || i == 6 {
            HighlightKind::String
        } else if i == 4 || i == 9 {
            HighlightKind::Constant
        } else if i == 7 || i == 8 {
            HighlightKind::Number
        } else if i == 3 {
            HighlightKind::Comment
        } else {
            HighlightKind::Unknown
        },
    }
}

/// The text of the bytes `start..end`, where they are a piece of valid
/// UTF-8 within the text's bytes.
pub open spec fn piece(bytes: Seq<u8>, start: int, end: int) -> Option<Seq<char>> {
    if 0 <= start <= end <= bytes.len() && valid_utf8(bytes.subrange(start, end)) {
        Some(decode_utf8(bytes.subrange(start, end)))
    } else {
        None
    }
}

/// The fragments finished and the highlight open after some events, or
/// `None` where a range is no piece of the text.  A range outside a
/// highlight is a fragment of unknown kind; inside one it becomes the
/// highlight's text; a highlight becomes a fragment at its end.
pub open spec fn fold_state(bytes: Seq<u8>, g: Grammar, events: Seq<HlEvent>) -> Option<
    (Seq<(Seq<char>, HighlightKind)>, Option<(Seq<char>, HighlightKind)>),
>
    decreases events.len(),
{
    if events.len() == 0 {
        Some((seq![], None))
    } else {
        match fold_state(bytes, g, events.drop_last()) {
            None => None,
            Some((done, open)) => match events.last() {
                HlEvent::Source(s, e) => match piece(bytes, s as int, e as int) {
                    None => None,
                    Some(t) => match open {
                        None => Some((done.push((t, HighlightKind::Unknown)), None)),
                        Some((_, k)) => Some((done, Some((t, k)))),
                    },
                },
                HlEvent::Start(i) => Some((done, Some((seq![], kind_of(g, i as int))))),
                HlEvent::End => match open {
                    Some(h) => Some((done.push(h), None)),
                    None => Some((done, None)),
                },
            },
        }
    }
}

/// The views of some fragments.
pub open spec fn fragments_view(v: Seq<HighlightText>) -> Seq<(Seq<char>, HighlightKind)> {
    v.map_values(|h: HighlightText| (h.text@, h.kind))
}

fn copy_range(bytes: &[u8], start: usize, end: usize) -> (r: Vec<u8>)
    requires
        start <= end <= bytes@.len(),
    ensures
        r@ == bytes@.subrange(start as int, end as int),
{
    let mut out: Vec<u8> = Vec::new();
    let mut i = start;
    while i < end
        invariant
            start <= i <= end <= bytes@.len(),
            out@ == bytes@.subrange(start as int, i as int),
        decreases end - i,
    {
        out.push(bytes[i]);
        proof {
            assert(bytes@.subrange(start as int, i + 1) =~= bytes@.subrange(start as int, i as int).push(
                bytes@[i as int],
            ));
        }
        i = i + 1;
    }
    out
}

/// Folds the highlighter's events over a text into fragments.
pub fn fold_events(source: &str, events: &Vec<HlEvent>, g: Grammar) -> (r: Result<
    Vec<HighlightText>,
    HighlightError,
>)
    ensures
        match fold_state(source.spec_bytes(), g, events@) {
            None => r == Err::<Vec<HighlightText>, HighlightError>(HighlightError::Range),
            Some((done, _)) => r matches Ok(v) && fragments_view(v@) == done,
        },
{
    let bytes = source.as_bytes();
    let mut done: Vec<HighlightText> = Vec::new();
    let mut open: Option<HighlightText> = None;
    let mut i: usize = 0;
    while i < events.len()
        invariant
            i <= events.len(),
            bytes@ == source.spec_bytes(),
            fold_state(bytes@, g, events@.take(i as int)) == Some(
                (
                    fragments_view(done@),
                    match open {
                        Some(h) => Some((h.text@, h.kind)),
                        None => None,
                    },
                ),
            ),
        decreases events.len() - i,
    {
        proof {
            assert(events@.take(i + 1).drop_last() =~= events@.take(i as int));
            assert(events@.take(i + 1).last() == events@[i as int]);
        }
        match events[i] {
            HlEvent::Source(s, e) => {
                if !(s <= e && e <= bytes.len()) {
                    proof {
                        lemma_fold_none_stays(bytes@, g, events@, i + 1);
                    }
                    return Err(HighlightError::Range);
                }
                let t = match utf8_decode(copy_range(bytes, s, e)) {
                    Some(t) => t,
                    None => {
                        proof {
                            lemma_fold_none_stays(bytes@, g, events@, i + 1);
                        }
                        return Err(HighlightError::Range);
                    },
                };
                match open {
                    None => {
                        let ghost before = done@;
                        let ht = HighlightText { text: t, kind: HighlightKind::Unknown };
                        done.push(ht);
                        proof {
                            assert(fragments_view(done@) =~= fragments_view(before).push(
                                (ht.text@, ht.kind),
                            ));
                        }
                    },
                    Some(h) => {
                        open = Some(HighlightText { text: t, kind: h.kind });
                    },
                }
            },
            HlEvent::Start(k) => {
                open = Some(HighlightText { text: String::new(), kind: kind_for(g, k) });
            },
            HlEvent::End => {
                match open {
                    Some(h) => {
                        let ghost before = done@;
                        let ghost hv = (h.text@, h.kind);
                        done.push(h);
                        proof {
                            assert(fragments_view(done@) =~= fragments_view(before).push(hv));
                        }
                        open = None;
                    },
                    None => {},
                }
            },
        }
        i = i + 1;
    }
    proof {
        assert(events@.take(events@.len() as int) =~= events@);
    }
    Ok(done)
}

proof fn lemma_fold_none_stays(bytes: Seq<u8>, g: Grammar, events: Seq<HlEvent>, k: int)
    requires
        0 <= k <= events.len(),
        fold_state(bytes, g, events.take(k)) is None,
    ensures
        fold_state(bytes, g, events) is None,
    decreases events.len() - k,
{
    if k < events.len() {
        assert(events.take(k + 1).drop_last() =~= events.take(k));
        lemma_fold_none_stays(bytes, g, events, k + 1);
    } else {
        assert(events.take(k) =~= events);
    }
}

/// The text of the highlights query for JSON.
pub const JSON_HIGHLIGHTS: &'static str = "\n(pair\n  key: (_) @property)\n\n(array\n  \",\" @array.delimiter)\n\n[\n  (pair\n    value: (string) @string.value)\n  (array\n    (string) @string.value)\n  (document (string) @string.value)\n]\n\n(number) @number\n\n[\n  (null)\n  (true)\n  (false)\n] @constant.builtin\n\n(escape_sequence) @escape\n\n(comment) @comment\n";

/// The text of the highlights query for XML.
pub const XML_HIGHLIGHTS: &'static str = "\n(tag_name) @tag\n(erroneous_end_tag_name) @tag.error\n(doctype) @constant\n(attribute_name) @attribute\n(attribute_value) @string\n(comment) @comment\n\n[\n  \"<\"\n  \">\"\n  \"</\"\n  \"/>\"\n] @punctuation.bracket\n";

/// The highlights query for JSON.
pub fn json_highlights_query() -> (r: &'static str)
    ensures
        r@ == JSON_HIGHLIGHTS@,
{
    JSON_HIGHLIGHTS
}

/// The highlights query for XML.
pub fn xml_highlights_query() -> (r: &'static str)
    ensures
        r@ == XML_HIGHLIGHTS@,
{
    XML_HIGHLIGHTS
}

fn names(list: &[&str]) -> (r: Vec<String>)
    ensures
        r@.len() == list@.len(),
        forall|i: int| 0 <= i < list@.len() ==> #[trigger] r@[i]@ == list@[i]@,
{
    let mut out: Vec<String> = Vec::new();
    let mut i: usize = 0;
    while i < list.len()
        invariant
            i <= list@.len(),
            out@.len() == i,
            forall|k: int| 0 <= k < i ==> #[trigger] out@[k]@ == list@[k]@,
        decreases list@.len() - i,
    {
        out.push(list[i].to_string());
        i = i + 1;
    }
    out
}

/// The highlight names reported for JSON, in the positions `kind_of` reads.
pub fn json_highlight_names() -> (r: Vec<String>)
    ensures
        r@.map_values(|t: String| t@) == json_names(),
{
    let r = names(&["document", "property", "string.value", "constant.builtin", "number", "comment"]);
    proof {
        assert(r@.map_values(|t: String| t@) =~= seq!["document"@, "property"@, "string.value"@, "constant.builtin"@, "number"@, "comment"@]);
    }
    r
}

/// The highlight names reported for XML, in the positions `kind_of` reads.
pub fn xml_highlight_names() -> (r: Vec<String>)
    ensures
        r@.map_values(|t: String| t@) == xml_names(),
{
    let r = names(
        &[
            "document",
            "property",
            "string.value",
            "constant.builtin",
            "number",
            "comment",
            "attribute",
            "boolean",
            "string",
            "string.special",
            "string.special.symbol",
            "constant",
            "tag",
            "markup.link",
            "keyword",
        ],
    );
    proof {
        assert(r@.map_values(|t: String| t@) =~= seq!["document"@, "property"@, "string.value"@, "constant.builtin"@, "number"@, "comment"@, "attribute"@, "boolean"@, "string"@, "string.special"@, "string.special.symbol"@, "constant"@, "tag"@, "markup.link"@, "keyword"@]);
    }
    r
}

/// The highlight names reported for RON, in the positions `kind_of` reads.
pub fn ron_highlight_names() -> (r: Vec<String>)
    ensures
        r@.map_values(|t: String| t@) == seq!["property"@, "type"@, "type.builtin"@, "comment"@, "constant"@, "string"@, "character"@, "number"@, "float"@, "boolean"@],
{
    let r = names(
        &[
            "property",
            "type",
            "type.builtin",
            "comment",
            "constant",
            "string",
            "character",
            "number",
            "float",
            "boolean",
        ],
    );
    proof {
        assert(r@.map_values(|t: String| t@) =~= seq!["property"@, "type"@, "type.builtin"@, "comment"@, "constant"@, "string"@, "character"@, "number"@, "float"@, "boolean"@]);
    }
    r
}

/// Whether a JSON parse is a document: its root is `document` and its first
/// child, if any, is no `ERROR`.
pub open spec fn json_tree_ok(root: Seq<char>, first: Option<Seq<char>>) -> bool {
    root == "document"@ && first != Some("ERROR"@)
}

/// Whether an XML parse is a document: its root is `document` and its first
/// child, if any, is neither an `ERROR` nor plain `text`.
pub open spec fn xml_tree_ok(root: Seq<char>, first: Option<Seq<char>>) -> bool {
    root == "document"@ && first != Some("ERROR"@) && first != Some("text"@)
}

/// Whether a RON parse is a file: its root is `source_file` and its first
/// child, if any, is no `ERROR`.
pub open spec fn ron_tree_ok(root: Seq<char>, first: Option<Seq<char>>) -> bool {
    root == "source_file"@ && first != Some("ERROR"@)
}

/// The view of an optional string.
pub open spec fn opt_text(o: Option<String>) -> Option<Seq<char>> {
    match o {
        Some(s) => Some(s@),
        None => None,
    }
}

fn is_kind(first: &Option<String>, kind: &str) -> (r: bool)
    ensures
        r == (opt_text(*first) == Some(kind@)),
{
    match first {
        Some(f) => str_eq(f.as_str(), kind),
        None => false,
    }
}

/// Checks a JSON parse's root and first child.
pub fn check_json_tree(root: &str, first: &Option<String>) -> (r: bool)
    ensures
        r == json_tree_ok(root@, opt_text(*first)),
{
    proof {
        reveal_strlit("document");
        reveal_strlit("ERROR");
    }
    str_eq(root, "document") && !is_kind(first, "ERROR")
}

/// Checks an XML parse's root and first child.
pub fn check_xml_tree(root: &str, first: &Option<String>) -> (r: bool)
    ensures
        r == xml_tree_ok(root@, opt_text(*first)),
{
    proof {
        reveal_strlit("document");
        reveal_strlit("ERROR");
        reveal_strlit("text");
    }
    str_eq(root, "document") && !is_kind(first, "ERROR") && !is_kind(first, "text")
}

/// Checks a RON parse's root and first child.
pub fn check_ron_tree(root: &str, first: &Option<String>) -> (r: bool)
    ensures
        r == ron_tree_ok(root@, opt_text(*first)),
{
    proof {
        reveal_strlit("source_file");
        reveal_strlit("ERROR");
    }
    str_eq(root, "source_file") && !is_kind(first, "ERROR")
}

/// The XML declaration, which the HTML grammar does not know.
pub open spec fn xml_declaration() -> Seq<char> {
    "<?xml version=\"1.0\" encoding=\"UTF-8\"?>"@
}

/// The XML declaration as a comment, which the HTML grammar reads.
pub open spec fn xml_declaration_comment() -> Seq<char> {
    "<!-- <?xml version=\"1.0\" encoding=\"UTF-8\"?> -->"@
}

/// What is left to do after `process`.
#[derive(Debug, PartialEq, Eq)]
pub enum ProcessStep {
    /// The fragments are set, or no grammar applied.
    Done,
    /// The text is to be tried as RON: parse it, check the tree with
    /// `check_ron_tree`, highlight it and hand the events, or `None` where
    /// the tree did not pass, to `finish_ron`.  The RON grammar is not
    /// loaded here: `tree-sitter-ron` is built for an older tree-sitter than
    /// the one this library parses with, so the caller brings the events, and
    /// without a grammar calls `finish_ron(None)`.
    NeedRon,
}

/// Highlights one value.
#[derive(Debug)]
pub struct HighlightProcessor {
    pub source: String,
    pub fragments: Vec<HighlightText>,
    pub content_type: Option<ContentType>,
    pub do_formatting: bool,
}

/// The highlight names reported for JSON, in order.
pub open spec fn json_names() -> Seq<Seq<char>> {
    seq!["document"@, "property"@, "string.value"@, "constant.builtin"@, "number"@, "comment"@]
}

/// The highlight names reported for XML, in order.
pub open spec fn xml_names() -> Seq<Seq<char>> {
    seq!["document"@, "property"@, "string.value"@, "constant.builtin"@, "number"@, "comment"@, "attribute"@, "boolean"@, "string"@, "string.special"@, "string.special.symbol"@, "constant"@, "tag"@, "markup.link"@, "keyword"@]
}

/// The highlights query of a grammar (XML's for any but JSON).
pub open spec fn query_of(g: Grammar) -> Seq<char> {
    if g == Grammar::Json {
        JSON_HIGHLIGHTS@
    } else {
        XML_HIGHLIGHTS@
    }
}

/// The highlight names of a grammar (XML's for any but JSON).
pub open spec fn names_of(g: Grammar) -> Seq<Seq<char>> {
    if g == Grammar::Json {
        json_names()
    } else {
        xml_names()
    }
}

/// Whether the tree's root and first child say the text is of the grammar
/// (the XML check for any but JSON).
pub open spec fn tree_fits(g: Grammar, kinds: (Seq<char>, Option<Seq<char>>)) -> bool {
    if g == Grammar::Json {
        json_tree_ok(kinds.0, kinds.1)
    } else {
        xml_tree_ok(kinds.0, kinds.1)
    }
}

/// What highlighting a text with a grammar comes to, the text being parsed
/// as `parse_source` (the XML pass parses it with its declaration made a
/// comment): an error where the grammar or its query does not fit, the
/// highlighter fails or an event's range is no piece of the text;
/// `Ok(None)` where the tree says the text is not of the grammar; else the
/// fragments that folding the highlighter's events gives.
pub open spec fn spec_process(g: Grammar, parse_source: Seq<char>, source: Seq<char>) -> Result<
    Option<Seq<(Seq<char>, HighlightKind)>>,
    HighlightError,
> {
    if !spec_language_fits(g) {
        Err(HighlightError::Language)
    } else if !tree_fits(g, spec_root_kinds(g, parse_source)) {
        Ok(None)
    } else if !spec_query_fits(g, query_of(g)) {
        Err(HighlightError::Query)
    } else {
        match spec_highlight_events(g, query_of(g), names_of(g), source) {
            None => Err(HighlightError::Highlight),
            Some(ev) => match fold_state(encode_utf8(source), g, ev) {
                None => Err(HighlightError::Range),
                Some((done, _)) => Ok(Some(done)),
            },
        }
    }
}

/// What `process` answers after a grammar's pass: its error, with the
/// fragments as they were; `Done` with the highlighted fragments; and where
/// the text is not of the grammar, `otherwise`, with the fragments as they
/// were.
pub open spec fn step_result(
    outcome: Result<Option<Seq<(Seq<char>, HighlightKind)>>, HighlightError>,
    r: Result<ProcessStep, HighlightError>,
    otherwise: ProcessStep,
    before: Seq<(Seq<char>, HighlightKind)>,
    after: Seq<(Seq<char>, HighlightKind)>,
) -> bool {
    match outcome {
        Err(e) => r == Err::<ProcessStep, HighlightError>(e) && after == before,
        Ok(None) => r == Ok::<ProcessStep, HighlightError>(otherwise) && after == before,
        Ok(Some(d)) => r == Ok::<ProcessStep, HighlightError>(ProcessStep::Done) && after == d,
    }
}

/// The text the XML pass parses: the XML declaration made a comment.
pub open spec fn xml_parse_source(source: Seq<char>) -> Seq<char> {
    spec_replace(
        source,
        "<?xml version=\"1.0\" encoding=\"UTF-8\"?>"@,
        "<!-- <?xml version=\"1.0\" encoding=\"UTF-8\"?> -->"@,
    )
}

/// What a pass that tried a grammar did: an error leaves the fragments as
/// they were, `Ok(false)` too (the text is not of the grammar), and
/// `Ok(true)` sets them to the highlighted ones.
pub open spec fn pass_result(
    outcome: Result<Option<Seq<(Seq<char>, HighlightKind)>>, HighlightError>,
    r: Result<bool, HighlightError>,
    before: Seq<(Seq<char>, HighlightKind)>,
    after: Seq<(Seq<char>, HighlightKind)>,
) -> bool {
    match outcome {
        Err(e) => r == Err::<bool, HighlightError>(e) && after == before,
        Ok(None) => r == Ok::<bool, HighlightError>(false) && after == before,
        Ok(Some(d)) => r == Ok::<bool, HighlightError>(true) && after == d,
    }
}

/// The text after the JSON pass formatted it, where it formats.
pub open spec fn formatted(source: Seq<char>, do_formatting: bool) -> Seq<char> {
    if do_formatting {
        match spec_json_pretty(source) {
            Some(p) => p,
            None => source,
        }
    } else {
        source
    }
}

impl HighlightProcessor {
    /// A processor for a text, its tabs replaced by four spaces, of the
    /// given content type, if known; it formats JSON.
    pub fn new(source: &str, content_type: Option<ContentType>) -> (r: HighlightProcessor)
        ensures
            r.source@ == spec_replace(source@, "\t"@, "    "@),
            r.fragments@.len() == 0,
            r.content_type == content_type,
            r.do_formatting,
    {
        proof {
            reveal_strlit("\t");
        }
        HighlightProcessor {
            source: replace_str(source, "\t", "    "),
            fragments: Vec::new(),
            content_type,
            do_formatting: true,
        }
    }

    /// Keeps JSON as it is written.
    pub fn disable_formatting(&mut self)
        ensures
            !final(self).do_formatting,
            final(self).source@ == old(self).source@,
            final(self).content_type == old(self).content_type,
            fragments_view(final(self).fragments@) == fragments_view(old(self).fragments@),
    {
        self.do_formatting = false;
    }

    /// The fragments found.
    pub fn get_fragments(&self) -> (r: &Vec<HighlightText>)
        ensures
            r@ == self.fragments@,
    {
        &self.fragments
    }

    /// The whole text as one string fragment.
    pub fn process_plain(&mut self) -> (r: Result<bool, HighlightError>)
        ensures
            r == Ok::<bool, HighlightError>(true),
            fragments_view(final(self).fragments@) == seq![(old(self).source@, HighlightKind::String)],
            final(self).source@ == old(self).source@,
            final(self).content_type == old(self).content_type,
            final(self).do_formatting == old(self).do_formatting,
    {
        let mut fragments: Vec<HighlightText> = Vec::new();
        fragments.push(HighlightText { text: self.source.clone(), kind: HighlightKind::String });
        proof {
            assert(fragments_view(fragments@) =~= seq![(self.source@, HighlightKind::String)]);
        }
        self.fragments = fragments;
        Ok(true)
    }

    /// Tries the text as JSON: formats it first where it reads as JSON and
    /// formatting is on; then parses it, and where the tree is a document,
    /// highlights it.  `Ok(false)`: not JSON, fragments unchanged.
    pub fn process_json(&mut self) -> (r: Result<bool, HighlightError>)
        ensures
            final(self).source@ == formatted(old(self).source@, old(self).do_formatting),
            final(self).content_type == old(self).content_type,
            final(self).do_formatting == old(self).do_formatting,
            pass_result(
                spec_process(Grammar::Json, final(self).source@, final(self).source@),
                r,
                fragments_view(old(self).fragments@),
                fragments_view(final(self).fragments@),
            ),
    {
        if self.do_formatting {
            if let Some(p) = json_pretty(self.source.as_str()) {
                self.source = p;
            }
        }
        let mut parser = parser_new();
        let language = json_language();
        if parser_set_language(&mut parser, &language).is_err() {
            return Err(HighlightError::Language);
        }
        let tree = match parser_parse(&mut parser, self.source.as_str()) {
            Some(t) => t,
            None => return Err(HighlightError::Parse),
        };
        let (root, first) = root_kinds(&tree);
        if !check_json_tree(root.as_str(), &first) {
            return Ok(false);
        }
        let mut config = match config_new(json_language(), "json", json_highlights_query()) {
            Ok(c) => c,
            Err(_) => return Err(HighlightError::Query),
        };
        config_configure(&mut config, &json_highlight_names());
        let mut highlighter = highlighter_new();
        let events = match highlight_events(&mut highlighter, &config, self.source.as_str()) {
            Ok(e) => e,
            Err(_) => return Err(HighlightError::Highlight),
        };
        let fragments = fold_events(self.source.as_str(), &events, Grammar::Json)?;
        proof {
            assert(fold_state(encode_utf8(self.source@), Grammar::Json, events@) matches Some((done, _))
                && fragments_view(fragments@) == done);
        }
        self.fragments = fragments;
        Ok(true)
    }
}

impl HighlightProcessor {
    /// Tries the text as XML: parses it with the XML declaration turned into
    /// a comment, and where the tree is a document, highlights the text.
    /// `Ok(false)`: not XML, fragments unchanged.
    pub fn process_xml(&mut self) -> (r: Result<bool, HighlightError>)
        ensures
            final(self).source@ == old(self).source@,
            final(self).content_type == old(self).content_type,
            final(self).do_formatting == old(self).do_formatting,
            pass_result(
                spec_process(Grammar::Xml, xml_parse_source(old(self).source@), old(self).source@),
                r,
                fragments_view(old(self).fragments@),
                fragments_view(final(self).fragments@),
            ),
    {
        proof {
            assert("<?xml version=\"1.0\" encoding=\"UTF-8\"?>"@.len() > 0) by {
                reveal_strlit("<?xml version=\"1.0\" encoding=\"UTF-8\"?>");
            }
        }
        let parse_source = replace_str(
            self.source.as_str(),
            "<?xml version=\"1.0\" encoding=\"UTF-8\"?>",
            "<!-- <?xml version=\"1.0\" encoding=\"UTF-8\"?> -->",
        );
        let mut parser = parser_new();
        let language = html_language();
        if parser_set_language(&mut parser, &language).is_err() {
            return Err(HighlightError::Language);
        }
        let tree = match parser_parse(&mut parser, parse_source.as_str()) {
            Some(t) => t,
            None => return Err(HighlightError::Parse),
        };
        let (root, first) = root_kinds(&tree);
        if !check_xml_tree(root.as_str(), &first) {
            return Ok(false);
        }
        let mut config = match config_new(html_language(), "xml", xml_highlights_query()) {
            Ok(c) => c,
            Err(_) => return Err(HighlightError::Query),
        };
        config_configure(&mut config, &xml_highlight_names());
        let mut highlighter = highlighter_new();
        let events = match highlight_events(&mut highlighter, &config, self.source.as_str()) {
            Ok(e) => e,
            Err(_) => return Err(HighlightError::Highlight),
        };
        let fragments = fold_events(self.source.as_str(), &events, Grammar::Xml)?;
        let ghost ev = events@;
        proof {
            assert(fold_state(encode_utf8(self.source@), Grammar::Xml, ev) matches Some((done, _))
                && fragments_view(fragments@) == done);
        }
        self.fragments = fragments;
        proof {
            assert(fold_state(encode_utf8(self.source@), Grammar::Xml, ev) matches Some((done, _))
                && fragments_view(self.fragments@) == done);
        }
        Ok(true)
    }

    /// Sets the fragments from the RON highlighter's events over the text.
    pub fn process_ron_events(&mut self, events: &Vec<HlEvent>) -> (r: Result<(), HighlightError>)
        ensures
            final(self).source@ == old(self).source@,
            final(self).content_type == old(self).content_type,
            match fold_state(encode_utf8(old(self).source@), Grammar::Ron, events@) {
                None => r == Err::<(), HighlightError>(HighlightError::Range) && fragments_view(
                    final(self).fragments@,
                ) == fragments_view(old(self).fragments@),
                Some((done, _)) => r is Ok && fragments_view(final(self).fragments@) == done,
            },
    {
        let fragments = fold_events(self.source.as_str(), events, Grammar::Ron)?;
        self.fragments = fragments;
        Ok(())
    }

    /// Ends the RON pass: with the events where the text parsed as RON;
    /// without, the whole text becomes one string fragment when no content
    /// type was given, and nothing changes otherwise.
    pub fn finish_ron(&mut self, events: Option<&Vec<HlEvent>>) -> (r: Result<(), HighlightError>)
        ensures
            final(self).source@ == old(self).source@,
            final(self).content_type == old(self).content_type,
            match events {
                Some(ev) => match fold_state(encode_utf8(old(self).source@), Grammar::Ron, ev@) {
                    None => r == Err::<(), HighlightError>(HighlightError::Range)
                        && fragments_view(final(self).fragments@) == fragments_view(
                        old(self).fragments@,
                    ),
                    Some((done, _)) => r is Ok && fragments_view(final(self).fragments@) == done,
                },
                None => r is Ok && fragments_view(final(self).fragments@) == if old(
                    self,
                ).content_type is None {
                    seq![(old(self).source@, HighlightKind::String)]
                } else {
                    fragments_view(old(self).fragments@)
                },
            },
    {
        match events {
            Some(ev) => self.process_ron_events(ev),
            None => {
                if self.content_type.is_none() {
                    let _ = self.process_plain();
                }
                Ok(())
            },
        }
    }

    /// Highlights the text as its content type says: a string as one
    /// fragment, JSON and XML with their grammar, RON by the caller (see
    /// `ProcessStep::NeedRon`).  Without a content type, JSON is tried, then
    /// XML, then RON, then the text is taken as one string.
    pub fn process(&mut self) -> (r: Result<ProcessStep, HighlightError>)
        ensures
            final(self).content_type == old(self).content_type,
            old(self).content_type == Some(ContentType::String) ==> r == Ok::<
                ProcessStep,
                HighlightError,
            >(ProcessStep::Done) && fragments_view(final(self).fragments@) == seq![
                (old(self).source@, HighlightKind::String),
            ],
            old(self).content_type == Some(ContentType::Ron) ==> r == Ok::<
                ProcessStep,
                HighlightError,
            >(ProcessStep::NeedRon) && final(self).source@ == old(self).source@
                && fragments_view(final(self).fragments@) == fragments_view(old(self).fragments@),
            old(self).content_type == Some(ContentType::Json) ==> final(self).source@ == formatted(
                old(self).source@,
                old(self).do_formatting,
            ) && step_result(
                spec_process(Grammar::Json, final(self).source@, final(self).source@),
                r,
                ProcessStep::Done,
                fragments_view(old(self).fragments@),
                fragments_view(final(self).fragments@),
            ),
            old(self).content_type == Some(ContentType::Xml) ==> final(self).source@ == old(self).source@
                && step_result(
                spec_process(Grammar::Xml, xml_parse_source(old(self).source@), old(self).source@),
                r,
                ProcessStep::Done,
                fragments_view(old(self).fragments@),
                fragments_view(final(self).fragments@),
            ),
            old(self).content_type is None ==> final(self).source@ == formatted(
                old(self).source@,
                old(self).do_formatting,
            ) && match spec_process(Grammar::Json, final(self).source@, final(self).source@) {
                Ok(None) => step_result(
                    spec_process(Grammar::Xml, xml_parse_source(final(self).source@), final(self).source@),
                    r,
                    ProcessStep::NeedRon,
                    fragments_view(old(self).fragments@),
                    fragments_view(final(self).fragments@),
                ),
                outcome => step_result(
                    outcome,
                    r,
                    ProcessStep::Done,
                    fragments_view(old(self).fragments@),
                    fragments_view(final(self).fragments@),
                ),
            },
    {
        match self.content_type {
            Some(ContentType::String) => {
                let _ = self.process_plain();
                Ok(ProcessStep::Done)
            },
            Some(ContentType::Json) => {
                let _ = self.process_json()?;
                Ok(ProcessStep::Done)
            },
            Some(ContentType::Xml) => {
                let _ = self.process_xml()?;
                Ok(ProcessStep::Done)
            },
            Some(ContentType::Ron) => Ok(ProcessStep::NeedRon),
            None => {
                if self.process_json()? {
                    return Ok(ProcessStep::Done);
                }
                if self.process_xml()? {
                    return Ok(ProcessStep::Done);
                }
                Ok(ProcessStep::NeedRon)
            },
        }
    }
}

/// A line of highlighted text: its spans, each with its kind.
pub type SpanLine = Seq<(Seq<char>, HighlightKind)>;

/// Adds a span to the last line, starting a line where there is none.
pub open spec fn push_span(lines: Seq<SpanLine>, span: (Seq<char>, HighlightKind)) -> Seq<SpanLine> {
    if lines.len() == 0 {
        seq![seq![span]]
    } else {
        lines.update(lines.len() - 1, lines.last().push(span))
    }
}

/// The lines after laying out the pieces of one fragment's lines from the
/// `i`-th on: the first continues the last line, each other starts a line.
pub open spec fn lay_pieces(lines: Seq<SpanLine>, pieces: Seq<Seq<char>>, kind: HighlightKind) -> Seq<SpanLine>
    decreases pieces.len(),
{
    if pieces.len() == 0 {
        lines
    } else {
        let before = lay_pieces(lines, pieces.drop_last(), kind);
        if pieces.len() == 1 {
            push_span(before, (pieces[0], kind))
        } else {
            before.push(seq![(pieces.last(), kind)])
        }
    }
}

/// The lines of highlighted text that fragments make: each fragment is
/// split into its lines (as `str::lines` splits); its first line continues
/// the current line and each further one starts a new line.
pub open spec fn layout(fragments: Seq<(Seq<char>, HighlightKind)>) -> Seq<SpanLine>
    decreases fragments.len(),
{
    if fragments.len() == 0 {
        seq![]
    } else {
        let (t, k) = fragments.last();
        lay_pieces(layout(fragments.drop_last()), spec_lines(t), k)
    }
}

/// The views of lines of spans.
pub open spec fn span_lines_view(v: Seq<Vec<HighlightText>>) -> Seq<SpanLine> {
    v.map_values(|l: Vec<HighlightText>| fragments_view(l@))
}

fn push_span_exec(lines: &mut Vec<Vec<HighlightText>>, span: HighlightText)
    ensures
        span_lines_view(final(lines)@) == push_span(span_lines_view(old(lines)@), (span.text@, span.kind)),
{
    let ghost before = span_lines_view(lines@);
    let ghost sv = (span.text@, span.kind);
    let n = lines.len();
    if n == 0 {
        let mut l: Vec<HighlightText> = Vec::new();
        l.push(span);
        lines.push(l);
        proof {
            assert(fragments_view(lines@[0]@) =~= seq![sv]);
            assert(span_lines_view(lines@) =~= seq![seq![sv]]);
        }
    } else {
        let mut last = lines.pop().unwrap();
        let ghost lv = fragments_view(last@);
        last.push(span);
        proof {
            assert(fragments_view(last@) =~= lv.push(sv));
        }
        lines.push(last);
        proof {
            assert(span_lines_view(lines@) =~= before.update(before.len() - 1, before.last().push(sv)));
        }
    }
}

/// Lays out highlighted fragments into lines of spans, as `layout` says.
pub fn highlight_lines(fragments: &Vec<HighlightText>) -> (r: Vec<Vec<HighlightText>>)
    ensures
        span_lines_view(r@) == layout(fragments_view(fragments@)),
{
    let ghost fv = fragments_view(fragments@);
    let mut lines: Vec<Vec<HighlightText>> = Vec::new();
    let mut i: usize = 0;
    while i < fragments.len()
        invariant
            i <= fragments.len(),
            fv == fragments_view(fragments@),
            span_lines_view(lines@) == layout(fv.take(i as int)),
        decreases fragments.len() - i,
    {
        let kind = fragments[i].kind;
        let chars = to_chars(fragments[i].text.as_str());
        let pieces = split_lines(&chars);
        let ghost pv = pieces@.map_values(|l: Vec<char>| l@);
        let ghost base = span_lines_view(lines@);
        proof {
            assert(fv.take(i + 1).drop_last() =~= fv.take(i as int));
            assert(fv.take(i + 1).last() == (fragments@[i as int].text@, kind));
        }
        let mut j: usize = 0;
        while j < pieces.len()
            invariant
                j <= pieces.len(),
                pv == pieces@.map_values(|l: Vec<char>| l@),
                span_lines_view(lines@) == lay_pieces(base, pv.take(j as int), kind),
            decreases pieces.len() - j,
        {
            let text = from_chars(&pieces[j]);
            proof {
                assert(pv.take(j + 1).drop_last() =~= pv.take(j as int));
                assert(pv.take(j + 1).last() == pieces@[j as int]@);
                if j == 0 {
                    assert(pv.take(1)[0] == pieces@[0]@);
                }
            }
            if j == 0 {
                push_span_exec(&mut lines, HighlightText { text, kind });
            } else {
                let ghost before = span_lines_view(lines@);
                let mut l: Vec<HighlightText> = Vec::new();
                let ghost tv = text@;
                l.push(HighlightText { text, kind });
                proof {
                    assert(fragments_view(l@) =~= seq![(tv, kind)]);
                }
                lines.push(l);
                proof {
                    assert(span_lines_view(lines@) =~= before.push(seq![(tv, kind)]));
                }
            }
            j = j + 1;
        }
        proof {
            assert(pv.take(pv.len() as int) =~= pv);
        }
        i = i + 1;
    }
    proof {
        assert(fv.take(fv.len() as int) =~= fv);
    }
    lines
}

/// What a value is shown as when highlighting failed: the whole text as
/// one string fragment.
pub fn fallback_fragments(value: &str) -> (r: Vec<HighlightText>)
    ensures
        fragments_view(r@) == seq![(value@, HighlightKind::String)],
{
    let mut v: Vec<HighlightText> = Vec::new();
    v.push(HighlightText { text: value.to_string(), kind: HighlightKind::String });
    proof {
        assert(fragments_view(v@) =~= seq![(value@, HighlightKind::String)]);
    }
    v
}

} // verus!
