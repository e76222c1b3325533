//! The completion items of the command line: the built-in commands, and
//! the server commands read from their JSON description.
use crate::completion::{
    CompletionItem, CompletionItemKind, Doc, DocView, ItemView, Label, Parameter,
    ParameterView, fresh_item, pair_view, params_detail,
};
use crate::text::str_eq;
use vstd::prelude::*;

verus! {

/// A JSON value.  Numbers are kept as their text.
#[derive(Debug)]
pub enum Json {
    Null,
    Bool(bool),
    Number(String),
    Str(String),
    Array(Vec<Json>),
    Object(Vec<(String, Json)>),
}

/// The value of the first member named `key` of an object; none for other
/// values.
pub open spec fn json_get(v: Json, key: Seq<char>) -> Option<Json> {
    match v {
        Json::Object(entries) => member(entries@, key),
        _ => None,
    }
}

/// The value of the first member named `key`.
pub open spec fn member(entries: Seq<(String, Json)>, key: Seq<char>) -> Option<Json>
    decreases entries.len(),
{
    if entries.len() == 0 {
        None
    } else {
        match member(entries.drop_last(), key) {
            Some(v) => Some(v),
            None => if entries.last().0@ == key {
                Some(entries.last().1)
            } else {
                None
            },
        }
    }
}

/// The text of a string value, empty for any other value.
pub open spec fn text_of(v: Json) -> Seq<char> {
    match v {
        Json::Str(s) => s@,
        _ => seq![],
    }
}

/// The member of an object named `key`.
pub fn get<'a>(v: &'a Json, key: &str) -> (r: Option<&'a Json>)
    ensures
        match r {
            Some(x) => json_get(*v, key@) == Some(*x),
            None => json_get(*v, key@) is None,
        },
{
    match v {
        Json::Object(entries) => {
            let mut i: usize = 0;
            while i < entries.len()
                invariant
                    i <= entries.len(),
                    member(entries@.take(i as int), key@) is None,
                    json_get(*v, key@) == member(entries@, key@),
                decreases entries.len() - i,
            {
                proof {
                    assert(entries@.take(i + 1).drop_last() =~= entries@.take(i as int));
                }
                if str_eq(entries[i].0.as_str(), key) {
                    proof {
                        lemma_member_prefix(entries@, key@, i as int);
                    }
                    return Some(&entries[i].1);
                }
                i = i + 1;
            }
            proof {
                assert(entries@.take(entries@.len() as int) =~= entries@);
            }
            None
        },
        _ => None,
    }
}

proof fn lemma_member_prefix(entries: Seq<(String, Json)>, key: Seq<char>, k: int)
    requires
        0 <= k < entries.len(),
        member(entries.take(k), key) is None,
        entries[k].0@ == key,
    ensures
        member(entries, key) == Some(entries[k].1),
    decreases entries.len(),
{
    if k < entries.len() - 1 {
        assert(entries.drop_last().take(k) =~= entries.take(k));
        lemma_member_prefix(entries.drop_last(), key, k);
    } else {
        assert(entries.drop_last() =~= entries.take(k));
    }
}

/// The text of a string value, empty for any other value.
pub fn value_to_string(v: &Json) -> (r: String)
    ensures
        r@ == text_of(*v),
{
    match v {
        Json::Str(s) => s.clone(),
        _ => String::new(),
    }
}

/// The kind of the commands of a group.
pub open spec fn group_kind(group: Seq<char>) -> CompletionItemKind {
    if group == "generic"@ {
        CompletionItemKind::Generic
    } else if group == "string"@ {
        CompletionItemKind::Text
    } else if group == "list"@ {
        CompletionItemKind::List
    } else if group == "set"@ {
        CompletionItemKind::SetType
    } else if group == "sorted-set"@ {
        CompletionItemKind::ZSet
    } else if group == "hash"@ {
        CompletionItemKind::Hash
    } else if group == "stream"@ {
        CompletionItemKind::Stream
    } else if group == "pubsub"@ {
        CompletionItemKind::PubSub
    } else if group == "server"@ {
        CompletionItemKind::Server
    } else {
        CompletionItemKind::Other
    }
}

/// The parameter an argument description gives: `None` where a member it
/// needs is missing (which stops the reading of all commands), `Some(None)`
/// where it gives no parameter.
pub open spec fn argument_param(arg: Json) -> Option<Option<ParameterView>> {
    match json_get(arg, "type"@) {
        None => None,
        Some(t) => match t {
            Json::Str(ts) => if ts@ == "flag"@ {
                match json_get(arg, "value"@) {
                    None => None,
                    Some(v) => if text_of(v).len() > 0 {
                        Some(Some(ParameterView::Flag(text_of(v), text_of(v))))
                    } else {
                        Some(None)
                    },
                }
            } else if ts@ == "enum"@ {
                match json_get(arg, "values"@) {
                    Some(Json::Array(vs)) => Some(Some(ParameterView::Enum(enum_choices(vs@)))),
                    _ => None,
                }
            } else if ts@ == "arg"@ {
                match (json_get(arg, "key"@), json_get(arg, "arg"@), json_get(arg, "detail"@)) {
                    (Some(k), Some(a), Some(d)) => if text_of(k).len() > 0 {
                        Some(
                            Some(
                                ParameterView::Arg {
                                    key: text_of(k),
                                    arg: text_of(a),
                                    detail: text_of(d),
                                },
                            ),
                        )
                    } else {
                        Some(None)
                    },
                    _ => None,
                }
            } else if ts@ == "many"@ {
                match json_get(arg, "name"@) {
                    None => None,
                    Some(n) => if text_of(n).len() > 0 {
                        Some(Some(ParameterView::Many(text_of(n))))
                    } else {
                        Some(None)
                    },
                }
            } else if ts@ == "single"@ {
                match json_get(arg, "name"@) {
                    None => None,
                    Some(n) => if text_of(n).len() > 0 {
                        Some(Some(ParameterView::Single(text_of(n))))
                    } else {
                        Some(None)
                    },
                }
            } else {
                Some(None)
            },
            _ => Some(None),
        },
    }
}

/// The choices of an enumeration: each non-empty text, as its own
/// description.
pub open spec fn enum_choices(vs: Seq<Json>) -> Seq<(Seq<char>, Seq<char>)>
    decreases vs.len(),
{
    if vs.len() == 0 {
        seq![]
    } else {
        let rest = enum_choices(vs.drop_last());
        let t = text_of(vs.last());
        if t.len() > 0 {
            rest.push((t, t))
        } else {
            rest
        }
    }
}

/// The parameters of a list of argument descriptions, or `None` where one
/// of them lacks a member it needs.
pub open spec fn arguments_params(args: Seq<Json>) -> Option<Seq<ParameterView>>
    decreases args.len(),
{
    if args.len() == 0 {
        Some(seq![])
    } else {
        match arguments_params(args.drop_last()) {
            None => None,
            Some(ps) => match argument_param(args.last()) {
                None => None,
                Some(None) => Some(ps),
                Some(Some(p)) => Some(ps.push(p)),
            },
        }
    }
}

/// The completion item of a command description, or `None` where it lacks
/// a member (`command`, `group`, `syntax`, `summary`, `since`,
/// `complexity`, `acl`, `arguments`), its group is no string, its
/// arguments no array, or one of them lacks a member.
pub open spec fn command_item(cmd: Json) -> Option<ItemView> {
    match (
        json_get(cmd, "command"@),
        json_get(cmd, "group"@),
        json_get(cmd, "syntax"@),
        json_get(cmd, "summary"@),
        json_get(cmd, "since"@),
        json_get(cmd, "complexity"@),
        json_get(cmd, "acl"@),
        json_get(cmd, "arguments"@),
    ) {
        (
            Some(c),
            Some(Json::Str(g)),
            Some(syn),
            Some(sum),
            Some(since),
            Some(cx),
            Some(acl),
            Some(Json::Array(args)),
        ) => match arguments_params(args@) {
            None => None,
            Some(ps) => {
                let base = fresh_item(text_of(c), group_kind(g@));
                let doc = DocView {
                    syntax: text_of(syn),
                    summary: text_of(sum),
                    attributes: seq![
                        ("since"@, text_of(since)),
                        ("complexity"@, text_of(cx)),
                        ("acl"@, text_of(acl)),
                    ],
                };
                let item = ItemView { description: Some(doc), parameters: ps, ..base };
                Some(
                    if ps.len() == 0 {
                        item
                    } else {
                        ItemView { detail: Some(params_detail(ps)), ..item }
                    },
                )
            },
        },
        _ => None,
    }
}

/// The items read from the command descriptions, in order, up to the first
/// one that cannot be read; the flag says whether all could be read.
pub open spec fn resolved(cmds: Seq<Json>) -> (Seq<ItemView>, bool)
    decreases cmds.len(),
{
    if cmds.len() == 0 {
        (seq![], true)
    } else {
        let (items, ok) = resolved(cmds.drop_last());
        if !ok {
            (items, false)
        } else {
            match command_item(cmds.last()) {
                Some(it) => (items.push(it), true),
                None => (items, false),
            }
        }
    }
}

/// The views of a list of items.
pub open spec fn items_view(v: Seq<CompletionItem>) -> Seq<ItemView> {
    v.map_values(|i: CompletionItem| i@)
}

/// The view of an optional parameter.
pub open spec fn opt_param_view(p: Option<Parameter>) -> Option<ParameterView> {
    match p {
        Some(x) => Some(x@),
        None => None,
    }
}

fn enum_choices_of(vs: &Vec<Json>) -> (r: Vec<(String, String)>)
    ensures
        r@.map_values(|p: (String, String)| pair_view(p)) == enum_choices(vs@),
{
    let mut out: Vec<(String, String)> = Vec::new();
    let mut i: usize = 0;
    while i < vs.len()
        invariant
            i <= vs.len(),
            out@.map_values(|p: (String, String)| pair_view(p)) == enum_choices(vs@.take(i as int)),
        decreases vs.len() - i,
    {
        let t = value_to_string(&vs[i]);
        proof {
            assert(vs@.take(i + 1).drop_last() =~= vs@.take(i as int));
            assert(vs@.take(i + 1).last() == vs@[i as int]);
        }
        if !t.as_str().is_empty() {
            let ghost before = out@;
            let t2 = t.clone();
            out.push((t, t2));
            proof {
                assert(out@.map_values(|p: (String, String)| pair_view(p)) =~= before.map_values(
                    |p: (String, String)| pair_view(p),
                ).push((text_of(vs@[i as int]), text_of(vs@[i as int]))));
            }
        }
        i = i + 1;
    }
    proof {
        assert(vs@.take(vs@.len() as int) =~= vs@);
    }
    out
}

/// The parameter an argument description gives, as `argument_param` says.
pub fn argument_parameter(arg: &Json) -> (r: Option<Option<Parameter>>)
    ensures
        match r {
            None => argument_param(*arg) is None,
            Some(p) => argument_param(*arg) == Some(opt_param_view(p)),
        },
{
    proof {
        reveal_strlit("type");
        reveal_strlit("value");
        reveal_strlit("values");
        reveal_strlit("key");
        reveal_strlit("arg");
        reveal_strlit("detail");
        reveal_strlit("name");
        reveal_strlit("flag");
        reveal_strlit("enum");
        reveal_strlit("many");
        reveal_strlit("single");
    }
    let t = match get(arg, "type") {
        Some(t) => t,
        None => return None,
    };
    let ts = match t {
        Json::Str(ts) => ts,
        _ => return Some(None),
    };
    if str_eq(ts.as_str(), "flag") {
        let v = match get(arg, "value") {
            Some(v) => v,
            None => return None,
        };
        let s = value_to_string(v);
        if s.as_str().is_empty() {
            Some(None)
        } else {
            let s2 = s.clone();
            Some(Some(Parameter::Flag(s, s2)))
        }
    } else if str_eq(ts.as_str(), "enum") {
        match get(arg, "values") {
            Some(Json::Array(vs)) => {
                let choices = enum_choices_of(vs);
                Some(Some(Parameter::Enum(choices)))
            },
            _ => None,
        }
    } else if str_eq(ts.as_str(), "arg") {
        let k = match get(arg, "key") {
            Some(k) => k,
            None => return None,
        };
        let a = match get(arg, "arg") {
            Some(a) => a,
            None => return None,
        };
        let d = match get(arg, "detail") {
            Some(d) => d,
            None => return None,
        };
        let key = value_to_string(k);
        if key.as_str().is_empty() {
            Some(None)
        } else {
            Some(Some(Parameter::Arg { key, arg: value_to_string(a), detail: value_to_string(d) }))
        }
    } else if str_eq(ts.as_str(), "many") || str_eq(ts.as_str(), "single") {
        let n = match get(arg, "name") {
            Some(n) => n,
            None => return None,
        };
        let name = value_to_string(n);
        if name.as_str().is_empty() {
            Some(None)
        } else if str_eq(ts.as_str(), "many") {
            Some(Some(Parameter::Many(name)))
        } else {
            Some(Some(Parameter::Single(name)))
        }
    } else {
        Some(None)
    }
}

fn group_kind_of(g: &str) -> (r: CompletionItemKind)
    ensures
        r == group_kind(g@),
{
    proof {
        reveal_strlit("generic");
        reveal_strlit("string");
        reveal_strlit("list");
        reveal_strlit("set");
        reveal_strlit("sorted-set");
        reveal_strlit("hash");
        reveal_strlit("stream");
        reveal_strlit("pubsub");
        reveal_strlit("server");
    }
    if str_eq(g, "generic") {
        CompletionItemKind::Generic
    } else if str_eq(g, "string") {
        CompletionItemKind::Text
    } else if str_eq(g, "list") {
        CompletionItemKind::List
    } else if str_eq(g, "set") {
        CompletionItemKind::SetType
    } else if str_eq(g, "sorted-set") {
        CompletionItemKind::ZSet
    } else if str_eq(g, "hash") {
        CompletionItemKind::Hash
    } else if str_eq(g, "stream") {
        CompletionItemKind::Stream
    } else if str_eq(g, "pubsub") {
        CompletionItemKind::PubSub
    } else if str_eq(g, "server") {
        CompletionItemKind::Server
    } else {
        CompletionItemKind::Other
    }
}

proof fn lemma_params_stop(args: Seq<Json>, k: int)
    requires
        0 <= k < args.len(),
        arguments_params(args.take(k)) is Some,
        argument_param(args[k]) is None,
    ensures
        arguments_params(args) is None,
    decreases args.len(),
{
    if k < args.len() - 1 {
        assert(args.drop_last().take(k) =~= args.take(k));
        assert(args.drop_last()[k] == args[k]);
        lemma_params_stop(args.drop_last(), k);
    } else {
        assert(args.drop_last() =~= args.take(k));
    }
}

/// The completion item of one command description, as `command_item` says.
#[verifier::loop_isolation(false)]
pub fn command_completion(cmd: &Json) -> (r: Option<CompletionItem>)
    ensures
        match r {
            Some(it) => command_item(*cmd) == Some(it@),
            None => command_item(*cmd) is None,
        },
{
    proof {
        reveal_strlit("command");
        reveal_strlit("group");
        reveal_strlit("syntax");
        reveal_strlit("summary");
        reveal_strlit("since");
        reveal_strlit("complexity");
        reveal_strlit("acl");
        reveal_strlit("arguments");
    }
    let c = match get(cmd, "command") {
        Some(x) => x,
        None => return None,
    };
    let g = match get(cmd, "group") {
        Some(x) => x,
        None => return None,
    };
    let syn = match get(cmd, "syntax") {
        Some(x) => x,
        None => return None,
    };
    let sum = match get(cmd, "summary") {
        Some(x) => x,
        None => return None,
    };
    let since = match get(cmd, "since") {
        Some(x) => x,
        None => return None,
    };
    let cx = match get(cmd, "complexity") {
        Some(x) => x,
        None => return None,
    };
    let acl = match get(cmd, "acl") {
        Some(x) => x,
        None => return None,
    };
    let args = match get(cmd, "arguments") {
        Some(x) => x,
        None => return None,
    };
    let group = match g {
        Json::Str(s) => s,
        _ => return None,
    };
    let args = match args {
        Json::Array(a) => a,
        _ => return None,
    };
    let name = value_to_string(c);
    let mut item = CompletionItem::default(name.as_str());
    item.kind = group_kind_of(group.as_str());
    let syntax = value_to_string(syn);
    let summary = value_to_string(sum);
    let since_text = value_to_string(since);
    let cx_text = value_to_string(cx);
    let acl_text = value_to_string(acl);
    let doc = Doc::new().syntax(syntax.as_str()).summary(summary.as_str()).attribute(
        "since",
        since_text.as_str(),
    ).attribute("complexity", cx_text.as_str()).attribute("acl", acl_text.as_str());
    let ghost docv = doc@;
    item = item.description(doc);
    let ghost base = item@;
    let mut i: usize = 0;
    while i < args.len()
        invariant
            i <= args.len(),
            arguments_params(args@.take(i as int)) == Some(item@.parameters),
            item@ == (ItemView { parameters: item@.parameters, ..base }),
        decreases args.len() - i,
    {
        proof {
            assert(args@.take(i + 1).drop_last() =~= args@.take(i as int));
            assert(args@.take(i + 1).last() == args@[i as int]);
        }
        match argument_parameter(&args[i]) {
            None => {
                proof {
                    lemma_params_stop(args@, i as int);
                }
                return None;
            },
            Some(None) => {},
            Some(Some(p)) => {
                item = item.add_param(p);
            },
        }
        i = i + 1;
    }
    proof {
        assert(args@.take(args@.len() as int) =~= args@);
        assert(base.parameters =~= Seq::<ParameterView>::empty()) by {
            assert(fresh_item(name@, CompletionItemKind::Generic).parameters =~= seq![]);
        }
    }
    let r = item.build_label();
    proof {
        assert(docv.attributes =~= seq![
            ("since"@, text_of(*since)),
            ("complexity"@, text_of(*cx)),
            ("acl"@, text_of(*acl)),
        ]);
        assert(base.description == Some(DocView {
            syntax: text_of(*syn),
            summary: text_of(*sum),
            attributes: seq![
                ("since"@, text_of(*since)),
                ("complexity"@, text_of(*cx)),
                ("acl"@, text_of(*acl)),
            ],
        }));
    }
    Some(r)
}

/// Reads the command descriptions in order into `items`, stopping at the
/// first one that cannot be read; the result says whether all could be
/// read.
pub fn resolve_commands(commands: &Vec<Json>, items: &mut Vec<CompletionItem>) -> (r: Option<()>)
    ensures
        items_view(final(items)@) == items_view(old(items)@) + resolved(commands@).0,
        r is Some <==> resolved(commands@).1,
{
    let mut i: usize = 0;
    while i < commands.len()
        invariant
            i <= commands.len(),
            resolved(commands@.take(i as int)).1,
            items_view(items@) == items_view(old(items)@) + resolved(commands@.take(i as int)).0,
        decreases commands.len() - i,
    {
        proof {
            assert(commands@.take(i + 1).drop_last() =~= commands@.take(i as int));
            assert(commands@.take(i + 1).last() == commands@[i as int]);
        }
        match command_completion(&commands[i]) {
            None => {
                proof {
                    lemma_resolved_stops(commands@, i as int);
                }
                return None;
            },
            Some(it) => {
                let ghost before = items@;
                items.push(it);
                proof {
                    assert(items_view(items@) =~= items_view(before).push(it@));
                }
            },
        }
        i = i + 1;
    }
    proof {
        assert(commands@.take(commands@.len() as int) =~= commands@);
    }
    Some(())
}

proof fn lemma_resolved_stops(cmds: Seq<Json>, k: int)
    requires
        0 <= k < cmds.len(),
        resolved(cmds.take(k)).1,
        command_item(cmds[k]) is None,
    ensures
        resolved(cmds) == (resolved(cmds.take(k)).0, false),
    decreases cmds.len(),
{
    if k < cmds.len() - 1 {
        assert(cmds.drop_last().take(k) =~= cmds.take(k));
        assert(cmds.drop_last()[k] == cmds[k]);
        lemma_resolved_stops(cmds.drop_last(), k);
    } else {
        assert(cmds.drop_last() =~= cmds.take(k));
    }
}

/// A built-in command of the command line.
pub open spec fn builtin_item(label: Seq<char>, detail: Seq<char>, insert: Seq<char>) -> ItemView {
    ItemView {
        kind: CompletionItemKind::Other,
        label,
        detail: Some(detail),
        description: None,
        parameters: seq![],
        range: (0, -1),
        insert_text: insert,
    }
}

fn builtin(label: &str, detail: &str, insert: &str) -> (r: CompletionItem)
    ensures
        r@ == builtin_item(label@, detail@, insert@),
{
    let r = CompletionItem {
        kind: CompletionItemKind::Other,
        label: Label { label: label.to_string(), detail: Some(detail.to_string()), description: None },
        parameters: Vec::new(),
        range: (0, -1),
        insert_text: insert.to_string(),
    };
    proof {
        assert(r@.parameters =~= Seq::<ParameterView>::empty());
    }
    r
}

/// The items of the command line: `CLEAR`, `EXIT`, `RESTART` and `HELP`,
/// then the server commands read from their descriptions, where there are
/// any.
pub fn command_items(commands: Option<Vec<Json>>) -> (r: Vec<CompletionItem>)
    ensures
        items_view(r@) == seq![
            builtin_item("CLEAR"@, "clear the cli screen"@, "clear"@),
            builtin_item("EXIT"@, "exit the application"@, "exit"@),
            builtin_item("RESTART"@, "restart the application"@, "restart"@),
            builtin_item("HELP"@, "print help"@, "help"@),
        ] + match commands {
            Some(c) => resolved(c@).0,
            None => seq![],
        },
{
    let mut items: Vec<CompletionItem> = Vec::new();
    items.push(builtin("CLEAR", "clear the cli screen", "clear"));
    items.push(builtin("EXIT", "exit the application", "exit"));
    items.push(builtin("RESTART", "restart the application", "restart"));
    items.push(builtin("HELP", "print help", "help"));
    let ghost first = items_view(items@);
    proof {
        assert(first =~= seq![
            builtin_item("CLEAR"@, "clear the cli screen"@, "clear"@),
            builtin_item("EXIT"@, "exit the application"@, "exit"@),
            builtin_item("RESTART"@, "restart the application"@, "restart"@),
            builtin_item("HELP"@, "print help"@, "help"@),
        ]);
    }
    if let Some(c) = commands {
        let _ = resolve_commands(&c, &mut items);
    } else {
        proof {
            assert(items_view(items@) =~= first + Seq::<ItemView>::empty());
        }
    }
    items
}

} // verus!
