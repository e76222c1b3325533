//! The key explorer: scan patterns, key filters, and the tree of keys split
//! at the separator.
use crate::text::{chars_eq, contains_chars, ends_with_chars, from_chars, push_str_chars, seq_contains, starts_with_chars, to_chars};
use vstd::prelude::*;

verus! {

/// Which pane of the explorer has the focus.
#[derive(Clone, Copy, PartialEq, Eq, Debug, Structural)]
pub enum CurrentScreen {
    KeysTree,
    ValuesViewer,
}

impl Default for CurrentScreen {
    fn default() -> (r: Self)
        ensures
            r == CurrentScreen::KeysTree,
    {
        CurrentScreen::KeysTree
    }
}

/// How the filter text selects keys.
#[derive(Clone, Copy, PartialEq, Eq, Debug, Structural)]
pub enum FilterMod {
    /// Keys that hold the text.
    Fuzzy,
    /// Keys that match a pattern with `*` at either end.
    Pattern,
}

impl Default for FilterMod {
    fn default() -> (r: Self)
        ensures
            r == FilterMod::Fuzzy,
    {
        FilterMod::Fuzzy
    }
}

/// The `SCAN` pattern for a filter: in fuzzy mode `*` for no text and
/// `*text*` otherwise; in pattern mode the text itself.
pub open spec fn spec_scan_pattern(mode: FilterMod, filter: Seq<char>) -> Seq<char> {
    match mode {
        FilterMod::Fuzzy => if filter.len() == 0 {
            seq!['*']
        } else {
            seq!['*'] + filter + seq!['*']
        },
        FilterMod::Pattern => filter,
    }
}

/// The `SCAN` pattern for a filter.
pub fn scan_pattern(mode: FilterMod, filter: &str) -> (r: String)
    ensures
        r@ == spec_scan_pattern(mode, filter@),
{
    match mode {
        FilterMod::Fuzzy => {
            let mut v: Vec<char> = Vec::new();
            if filter.is_empty() {
                v.push('*');
                proof {
                    assert(v@ =~= seq!['*']);
                }
            } else {
                v.push('*');
                push_str_chars(&mut v, filter);
                v.push('*');
                proof {
                    assert(v@ =~= seq!['*'] + filter@ + seq!['*']);
                }
            }
            from_chars(&v)
        },
        FilterMod::Pattern => String::from_str(filter),
    }
}

/// Whether a key name passes a filter.  Fuzzy: the name holds the text.
/// Pattern: `*` alone passes everything; otherwise a `*` at the start, at
/// the end, or both ask for a name that ends with, starts with, or holds the
/// rest of the text, and no `*` asks for the text itself.
pub open spec fn spec_key_matches(mode: FilterMod, filter: Seq<char>, name: Seq<char>) -> bool {
    match mode {
        FilterMod::Fuzzy => seq_contains(name, filter),
        FilterMod::Pattern => if filter == seq!['*'] {
            true
        } else {
            let fs = filter.len() > 0 && filter[0] == '*';
            let t1 = if fs { filter.drop_first() } else { filter };
            let fe = filter.len() > 0 && filter.last() == '*';
            let t = if fe { t1.drop_last() } else { t1 };
            if fs && fe {
                seq_contains(name, t)
            } else if fs {
                t.len() <= name.len() && name.skip(name.len() - t.len()) == t
            } else if fe {
                t.len() <= name.len() && name.take(t.len() as int) == t
            } else {
                name == t
            }
        },
    }
}

/// Whether a key name passes a filter.
pub fn key_matches(mode: FilterMod, filter: &Vec<char>, name: &Vec<char>) -> (r: bool)
    ensures
        r == spec_key_matches(mode, filter@, name@),
{
    match mode {
        FilterMod::Fuzzy => contains_chars(name, filter),
        FilterMod::Pattern => {
            if filter.len() == 1 && filter[0] == '*' {
                proof {
                    assert(filter@ =~= seq!['*']);
                }
                return true;
            }
            proof {
                if filter@ == seq!['*'] {
                    assert(filter@.len() == 1);
                }
            }
            let fs = filter.len() > 0 && filter[0] == '*';
            let fe = filter.len() > 0 && filter[filter.len() - 1] == '*';
            let mut t: Vec<char> = Vec::new();
            let start: usize = if fs { 1 } else { 0 };
            let mut end: usize = filter.len();
            if fe && end > start {
                end = end - 1;
            } else if fe {
                end = start;
            }
            let mut j: usize = start;
            while j < end
                invariant
                    start <= j <= end <= filter.len(),
                    t@ == filter@.subrange(start as int, j as int),
                decreases end - j,
            {
                t.push(filter[j]);
                proof {
                    assert(t@ =~= filter@.subrange(start as int, j + 1));
                }
                j = j + 1;
            }
            proof {
                let t1 = if fs { filter@.drop_first() } else { filter@ };
                let tt = if fe { t1.drop_last() } else { t1 };
                assert(t@ =~= tt);
            }
            if fs && fe {
                contains_chars(name, &t)
            } else if fs {
                ends_with_chars(name, &t)
            } else if fe {
                starts_with_chars(name, &t)
            } else {
                chars_eq(name, &t)
            }
        },
    }
}

/// A key found by a scan, with what is known of it.
#[derive(Debug)]
pub struct RedisKey {
    pub name: String,
    pub key_type: String,
    pub key_size: Option<usize>,
    pub length: Option<usize>,
    pub ttl: Option<u64>,
}

impl RedisKey {
    /// A key with its name and type, nothing else known.
    pub fn new(name: &str, key_type: &str) -> (r: RedisKey)
        ensures
            r.name@ == name@,
            r.key_type@ == key_type@,
            r.key_size is None,
            r.length is None,
            r.ttl is None,
    {
        RedisKey {
            name: String::from_str(name),
            key_type: String::from_str(key_type),
            key_size: None,
            length: None,
            ttl: None,
        }
    }
}

/// The keys that pass a filter, in order; no text keeps every key.
pub open spec fn spec_filter_keys(mode: FilterMod, filter: Seq<char>, names: Seq<Seq<char>>) -> Seq<
    Seq<char>,
> {
    if filter.len() == 0 {
        names
    } else {
        names.filter(|n: Seq<char>| spec_key_matches(mode, filter, n))
    }
}

/// The keys, each with its type, whose names pass a filter, in order; no
/// text keeps every key.
pub open spec fn spec_filter_typed(
    mode: FilterMod,
    filter: Seq<char>,
    keys: Seq<(Seq<char>, Seq<char>)>,
) -> Seq<(Seq<char>, Seq<char>)> {
    if filter.len() == 0 {
        keys
    } else {
        keys.filter(|k: (Seq<char>, Seq<char>)| spec_key_matches(mode, filter, k.0))
    }
}

/// In fuzzy mode a key passes exactly when the filter text occurs in its
/// name at some position, anywhere, not only at its start; and filtering
/// by a non-empty text keeps, in order, exactly the keys whose names hold
/// it.
pub proof fn lemma_fuzzy_holds_text(filter: Seq<char>, name: Seq<char>, keys: Seq<(Seq<char>, Seq<char>)>)
    ensures
        spec_key_matches(FilterMod::Fuzzy, filter, name) <==> exists|i: int|
            0 <= i <= name.len() - filter.len() && #[trigger] name.subrange(i, i + filter.len())
                == filter,
        filter.len() > 0 ==> spec_filter_typed(FilterMod::Fuzzy, filter, keys) == keys.filter(
            |k: (Seq<char>, Seq<char>)|
                exists|i: int|
                    0 <= i <= k.0.len() - filter.len() && #[trigger] k.0.subrange(i, i + filter.len())
                        == filter,
        ),
{
    assert forall|n: Seq<char>| spec_key_matches(FilterMod::Fuzzy, filter, n) == (exists|i: int|
        0 <= i <= n.len() - filter.len() && #[trigger] n.subrange(i, i + filter.len()) == filter) by {
        if spec_key_matches(FilterMod::Fuzzy, filter, n) {
            let i = choose|i: int| crate::text::occurs_at(n, filter, i);
            assert(n.subrange(i, i + filter.len()) == filter);
        }
        if exists|i: int| 0 <= i <= n.len() - filter.len() && #[trigger] n.subrange(i, i + filter.len()) == filter {
            let i = choose|i: int| 0 <= i <= n.len() - filter.len() && #[trigger] n.subrange(i, i + filter.len()) == filter;
            assert(crate::text::occurs_at(n, filter, i));
        }
    }
    if filter.len() > 0 {
        let f1 = |k: (Seq<char>, Seq<char>)| spec_key_matches(FilterMod::Fuzzy, filter, k.0);
        let f2 = |k: (Seq<char>, Seq<char>)|
            exists|i: int|
                0 <= i <= k.0.len() - filter.len() && #[trigger] k.0.subrange(i, i + filter.len()) == filter;
        assert(f1 =~= f2);
    }
}

/// The `SCAN` pattern built for a fuzzy filter, read as a pattern, selects
/// exactly the names the fuzzy filter keeps: the server and the filter
/// agree on which keys match.
pub proof fn lemma_fuzzy_scan_agrees(filter: Seq<char>, name: Seq<char>)
    ensures
        spec_key_matches(FilterMod::Pattern, spec_scan_pattern(FilterMod::Fuzzy, filter), name)
            == spec_key_matches(FilterMod::Fuzzy, filter, name),
{
    let pat = spec_scan_pattern(FilterMod::Fuzzy, filter);
    if filter.len() == 0 {
        assert(crate::text::occurs_at(name, filter, 0)) by {
            assert(name.subrange(0, 0) =~= filter);
        }
    } else {
        assert(pat[0] == '*');
        assert(pat.last() == '*');
        assert(pat.drop_first().drop_last() =~= filter);
        assert(pat != seq!['*']) by {
            assert(pat.len() >= 3);
        }
    }
}

/// In pattern mode `*` alone keeps every name; a text with a `*` at both
/// ends keeps the names that hold the text between them; a `*` only at the
/// start keeps the names that end with the rest, only at the end those that
/// start with the rest; and a text without `*` at either end keeps only
/// that name.
pub proof fn lemma_pattern_modes(t: Seq<char>, name: Seq<char>)
    ensures
        spec_key_matches(FilterMod::Pattern, seq!['*'], name),
        t.len() > 0 ==> (spec_key_matches(FilterMod::Pattern, seq!['*'] + t + seq!['*'], name) <==> exists|i: int|
            0 <= i <= name.len() - t.len() && #[trigger] name.subrange(i, i + t.len()) == t),
        t.len() > 0 && t.last() != '*' ==> (spec_key_matches(FilterMod::Pattern, seq!['*'] + t, name) <==> (
        t.len() <= name.len() && name.subrange(name.len() - t.len(), name.len() as int) == t)),
        t.len() > 0 && t[0] != '*' ==> (spec_key_matches(FilterMod::Pattern, t + seq!['*'], name) <==> (t.len()
            <= name.len() && name.subrange(0, t.len() as int) == t)),
        t.len() > 0 && t[0] != '*' && t.last() != '*' ==> (spec_key_matches(FilterMod::Pattern, t, name)
            <==> name == t),
{
    if t.len() > 0 {
        let both = seq!['*'] + t + seq!['*'];
        assert(both[0] == '*' && both.last() == '*');
        assert(both.drop_first().drop_last() =~= t);
        assert(both != seq!['*']) by {
            assert(both.len() >= 3);
        }
        if spec_key_matches(FilterMod::Pattern, both, name) {
            let i = choose|i: int| crate::text::occurs_at(name, t, i);
            assert(name.subrange(i, i + t.len()) == t);
        }
        if exists|i: int| 0 <= i <= name.len() - t.len() && #[trigger] name.subrange(i, i + t.len()) == t {
            let i = choose|i: int| 0 <= i <= name.len() - t.len() && #[trigger] name.subrange(i, i + t.len()) == t;
            assert(crate::text::occurs_at(name, t, i));
        }
        let front = seq!['*'] + t;
        assert(front[0] == '*');
        assert(front.last() == t.last());
        assert(front.drop_first() =~= t);
        if t.len() <= name.len() {
            assert(name.skip(name.len() - t.len()) =~= name.subrange(name.len() - t.len(), name.len() as int));
            assert(name.take(t.len() as int) =~= name.subrange(0, t.len() as int));
        }
        if t.last() != '*' {
            assert(front != seq!['*']) by {
                if front.len() == 1 {
                } else {
                    assert(front.len() >= 2);
                }
            }
        }
        let back = t + seq!['*'];
        assert(back[0] == t[0]);
        assert(back.last() == '*');
        assert(back.drop_last() =~= t);
        if t[0] != '*' {
            assert(back != seq!['*']) by {
                assert(back.len() >= 2);
            }
        }
        if t[0] != '*' && t.last() != '*' {
            assert(t != seq!['*']) by {
                assert(t[0] != '*');
            }
        }
    }
}

/// Keeps the keys whose names pass the filter.
pub fn filter_keys(mode: FilterMod, filter: &str, keys: Vec<RedisKey>) -> (r: Vec<RedisKey>)
    ensures
        keys_view(r@) == spec_filter_typed(mode, filter@, keys_view(keys@)),
        r@.map_values(|k: RedisKey| k.name@) == spec_filter_keys(
            mode,
            filter@,
            keys@.map_values(|k: RedisKey| k.name@),
        ),
{
    proof {
        lemma_filter_names(mode, filter@, keys_view(keys@));
        assert(keys_view(keys@).map_values(|p: (Seq<char>, Seq<char>)| p.0) =~= keys@.map_values(
            |k: RedisKey| k.name@,
        ));
    }
    if filter.is_empty() {
        return keys;
    }
    let f = to_chars(filter);
    let ghost kv = keys_view(keys@);
    let ghost pred = |p: (Seq<char>, Seq<char>)| spec_key_matches(mode, filter@, p.0);
    let mut keys = keys;
    let mut out: Vec<RedisKey> = Vec::new();
    let n = keys.len();
    let mut i: usize = 0;
    while keys.len() > 0
        invariant
            keys@.len() + i == n,
            n == kv.len(),
            f@ == filter@,
            keys_view(keys@) == kv.skip(i as int),
            keys_view(out@) == kv.take(i as int).filter(pred),
            pred == (|p: (Seq<char>, Seq<char>)| spec_key_matches(mode, filter@, p.0)),
        decreases keys.len(),
    {
        let ghost old_keys = keys@;
        let k = keys.remove(0);
        proof {
            assert forall|x: int| 0 <= x < keys@.len() implies (#[trigger] keys_view(keys@)[x]) == kv.skip(i + 1)[x] by {
                assert(keys@[x] == old_keys[x + 1]);
                assert(keys_view(old_keys)[x + 1] == kv.skip(i as int)[x + 1]);
            }
            assert(keys_view(keys@) =~= kv.skip(i + 1));
            assert(kv.skip(i as int)[0] == (k.name@, k.key_type@));
            assert(kv.take(i + 1) =~= kv.take(i as int).push((k.name@, k.key_type@)));
            kv.take(i as int).lemma_filter_push((k.name@, k.key_type@), pred);
        }
        let nm = to_chars(k.name.as_str());
        let ghost before = keys_view(out@);
        let keep = key_matches(mode, &f, &nm);
        proof {
            assert(pred((k.name@, k.key_type@)) == keep);
        }
        if keep {
            let ghost kp = (k.name@, k.key_type@);
            out.push(k);
            proof {
                assert(keys_view(out@) =~= before.push(kp));
            }
        }
        i = i + 1;
    }
    proof {
        assert(kv.take(i as int) =~= kv);
    }
    out
}

/// Filtering keys with their types keeps the same names as filtering the
/// names alone.
proof fn lemma_filter_names(mode: FilterMod, filter: Seq<char>, keys: Seq<(Seq<char>, Seq<char>)>)
    ensures
        spec_filter_typed(mode, filter, keys).map_values(|p: (Seq<char>, Seq<char>)| p.0)
            == spec_filter_keys(mode, filter, keys.map_values(|p: (Seq<char>, Seq<char>)| p.0)),
    decreases keys.len(),
{
    if filter.len() > 0 && keys.len() > 0 {
        let pred = |p: (Seq<char>, Seq<char>)| spec_key_matches(mode, filter, p.0);
        let npred = |n: Seq<char>| spec_key_matches(mode, filter, n);
        let init = keys.drop_last();
        lemma_filter_names(mode, filter, init);
        assert(keys =~= init.push(keys.last()));
        init.lemma_filter_push(keys.last(), pred);
        let names = keys.map_values(|p: (Seq<char>, Seq<char>)| p.0);
        assert(names =~= init.map_values(|p: (Seq<char>, Seq<char>)| p.0).push(keys.last().0));
        init.map_values(|p: (Seq<char>, Seq<char>)| p.0).lemma_filter_push(keys.last().0, npred);
        assert(spec_filter_typed(mode, filter, keys).map_values(|p: (Seq<char>, Seq<char>)| p.0)
            =~= spec_filter_keys(mode, filter, names));
    }
}

// ---------------------------------------------------------------------------
// The key tree
// ---------------------------------------------------------------------------
/// A node of the key tree: a name segment, the node's id (the segments from
/// the top joined by the separator), the key's type when a key ends here,
/// and the children, ordered by name.
#[derive(Debug)]
pub struct TreeNode {
    pub name: String,
    pub id: String,
    pub key_type: Option<String>,
    pub children: Vec<TreeNode>,
}

/// Lexicographic order of texts by code point, as `String`'s order is.
pub open spec fn seq_less(a: Seq<char>, b: Seq<char>) -> bool
    decreases a.len(),
{
    if a.len() == 0 {
        b.len() > 0
    } else if b.len() == 0 {
        false
    } else if a[0] != b[0] {
        a[0] < b[0]
    } else {
        seq_less(a.drop_first(), b.drop_first())
    }
}

proof fn lemma_head_tail_eq<A>(a: Seq<A>, b: Seq<A>)
    requires
        a.len() > 0,
        b.len() > 0,
        a[0] == b[0],
        a.drop_first() == b.drop_first(),
    ensures
        a == b,
{
    assert(a.len() == a.drop_first().len() + 1);
    assert(b.len() == b.drop_first().len() + 1);
    assert forall|j: int| 0 <= j < a.len() implies a[j] == b[j] by {
        if j > 0 {
            assert(a[j] == a.drop_first()[j - 1]);
            assert(b[j] == b.drop_first()[j - 1]);
        }
    }
    assert(a =~= b);
}

proof fn lemma_seq_less_irreflexive(a: Seq<char>)
    ensures
        !seq_less(a, a),
    decreases a.len(),
{
    if a.len() > 0 {
        lemma_seq_less_irreflexive(a.drop_first());
    }
}

proof fn lemma_seq_less_trans(a: Seq<char>, b: Seq<char>, c: Seq<char>)
    requires
        seq_less(a, b),
        seq_less(b, c),
    ensures
        seq_less(a, c),
    decreases a.len(),
{
    if a.len() > 0 && b.len() > 0 && c.len() > 0 && a[0] == b[0] && b[0] == c[0] {
        lemma_seq_less_trans(a.drop_first(), b.drop_first(), c.drop_first());
    }
}

proof fn lemma_seq_less_total(a: Seq<char>, b: Seq<char>)
    ensures
        a == b || seq_less(a, b) || seq_less(b, a),
    decreases a.len(),
{
    if a.len() > 0 && b.len() > 0 {
        if a[0] == b[0] {
            lemma_seq_less_total(a.drop_first(), b.drop_first());
            if a.drop_first() == b.drop_first() {
                lemma_head_tail_eq(a, b);
            }
        }
    } else if a.len() == 0 && b.len() == 0 {
        assert(a =~= b);
    }
}

/// Whether `a` comes before `b`.
pub fn chars_less(a: &Vec<char>, b: &Vec<char>) -> (r: bool)
    ensures
        r == seq_less(a@, b@),
{
    let mut i: usize = 0;
    proof {
        assert(a@.skip(0) =~= a@);
        assert(b@.skip(0) =~= b@);
    }
    while i < a.len() && i < b.len() && a[i] == b[i]
        invariant
            i <= a.len(),
            i <= b.len(),
            a@.take(i as int) == b@.take(i as int),
            seq_less(a@, b@) == seq_less(a@.skip(i as int), b@.skip(i as int)),
        decreases a.len() - i,
    {
        proof {
            assert(a@.skip(i as int).drop_first() =~= a@.skip(i + 1));
            assert(b@.skip(i as int).drop_first() =~= b@.skip(i + 1));
            assert(a@.take(i + 1) =~= a@.take(i as int).push(a@[i as int]));
            assert(b@.take(i + 1) =~= b@.take(i as int).push(b@[i as int]));
        }
        i = i + 1;
    }
    if i == a.len() {
        i < b.len()
    } else if i == b.len() {
        false
    } else {
        proof {
            assert(a@.skip(i as int)[0] == a@[i as int]);
            assert(b@.skip(i as int)[0] == b@[i as int]);
        }
        a[i] < b[i]
    }
}

impl TreeNode {
    /// The tree's invariant: children strictly ordered by name, each a
    /// well-formed tree.
    pub open spec fn wf(self) -> bool
        decreases self,
    {
        &&& forall|i: int, j: int|
            0 <= i < j < self.children@.len() ==> seq_less(
                #[trigger] self.children@[i].name@,
                #[trigger] self.children@[j].name@,
            )
        &&& forall|i: int| 0 <= i < self.children@.len() ==> (#[trigger] self.children@[i]).wf()
    }
}

/// The position of the child named `name`, or -1.
pub open spec fn child_pos(children: Seq<TreeNode>, name: Seq<char>) -> int
    decreases children.len(),
{
    if children.len() == 0 {
        -1
    } else if children.last().name@ == name {
        children.len() - 1
    } else {
        child_pos(children.drop_last(), name)
    }
}

proof fn lemma_child_pos(children: Seq<TreeNode>, name: Seq<char>)
    ensures
        -1 <= child_pos(children, name) < children.len(),
        child_pos(children, name) >= 0 ==> children[child_pos(children, name)].name@ == name,
        child_pos(children, name) < 0 ==> forall|j: int| 0 <= j < children.len() ==> children[j].name@ != name,
    decreases children.len(),
{
    if children.len() > 0 && children.last().name@ != name {
        lemma_child_pos(children.drop_last(), name);
        if child_pos(children, name) < 0 {
            assert forall|j: int| 0 <= j < children.len() implies children[j].name@ != name by {
                if j < children.len() - 1 {
                    assert(children[j] == children.drop_last()[j]);
                }
            }
        } else {
            assert(children[child_pos(children, name)] == children.drop_last()[child_pos(children, name)]);
        }
    }
}

proof fn lemma_child_pos_unique(children: Seq<TreeNode>, j: int)
    requires
        0 <= j < children.len(),
        forall|a: int, b: int| 0 <= a < b < children.len() ==> seq_less(
            #[trigger] children[a].name@,
            #[trigger] children[b].name@,
        ),
    ensures
        child_pos(children, children[j].name@) == j,
{
    let name = children[j].name@;
    lemma_child_pos(children, name);
    let p = child_pos(children, name);
    if p != j {
        if p < 0 {
        } else if p < j {
            assert(seq_less(children[p].name@, children[j].name@));
            lemma_seq_less_irreflexive(name);
        } else {
            assert(seq_less(children[j].name@, children[p].name@));
            lemma_seq_less_irreflexive(name);
        }
    }
}

/// The type of the key at a path below a node, if a key ends there.
pub open spec fn key_of(node: TreeNode, path: Seq<Seq<char>>) -> Option<Seq<char>>
    decreases node, path.len(),
{
    if path.len() == 0 {
        match node.key_type {
            Some(k) => Some(k@),
            None => None,
        }
    } else {
        let p = child_pos(node.children@, path[0]);
        if 0 <= p < node.children@.len() {
            key_of(node.children@[p], path.drop_first())
        } else {
            None
        }
    }
}

/// The id of a child named `name` under a node with id `prefix`: the name
/// alone under an empty id, else the prefix, the separator and the name.
pub open spec fn child_id(prefix: Seq<char>, sep: Seq<char>, name: Seq<char>) -> Seq<char> {
    if prefix.len() == 0 {
        name
    } else {
        prefix + sep + name
    }
}

/// The id of the node at a path below a node, if there is one.
pub open spec fn id_at(node: TreeNode, path: Seq<Seq<char>>) -> Option<Seq<char>>
    decreases node, path.len(),
{
    if path.len() == 0 {
        Some(node.id@)
    } else {
        let p = child_pos(node.children@, path[0]);
        if 0 <= p < node.children@.len() {
            id_at(node.children@[p], path.drop_first())
        } else {
            None
        }
    }
}

/// Whether `q` is one of the nodes on the way to `p`: a non-empty start of it.
pub open spec fn on_route(q: Seq<Seq<char>>, p: Seq<Seq<char>>) -> bool {
    0 < q.len() <= p.len() && q == p.take(q.len() as int)
}

/// The id that the node at `q` has after the key at `p` was added to the
/// tree `old`, giving `new`: the id it had where it was there; where it is
/// created on the way, the id of its parent, the separator and its name (the
/// name alone below an empty id); none elsewhere.
pub open spec fn id_rule(
    new: TreeNode,
    old: TreeNode,
    p: Seq<Seq<char>>,
    sep: Seq<char>,
    q: Seq<Seq<char>>,
) -> bool {
    id_at(new, q) == if id_at(old, q) is Some {
        id_at(old, q)
    } else if on_route(q, p) {
        Some(child_id(id_at(new, q.drop_last())->0, sep, q.last()))
    } else {
        None
    }
}

/// The ids after the key at `p` was added to the tree `old`, giving `new`:
/// every node that was there keeps its id, a node created on the way gets
/// the id of its parent, the separator and its name, and there are no
/// other nodes.
pub open spec fn ids_after_insert(
    new: TreeNode,
    old: TreeNode,
    p: Seq<Seq<char>>,
    sep: Seq<char>,
) -> bool {
    forall|q: Seq<Seq<char>>| #[trigger] id_rule(new, old, p, sep, q)
}

/// Apart from the child named `name`, both lists have the same children.
pub open spec fn others_agree(nc: Seq<TreeNode>, oc: Seq<TreeNode>, name: Seq<char>) -> bool {
    forall|x: Seq<char>|
        x != name ==> (#[trigger] child_pos(nc, x) >= 0 <==> child_pos(oc, x) >= 0) && (child_pos(
            nc,
            x,
        ) >= 0 ==> nc[child_pos(nc, x)] == oc[child_pos(oc, x)])
}

proof fn lemma_route_step(q: Seq<Seq<char>>, p: Seq<Seq<char>>)
    requires
        q.len() > 0,
        p.len() > 0,
        q[0] == p[0],
    ensures
        on_route(q, p) <==> (q.len() == 1 || on_route(q.drop_first(), p.drop_first())),
{
    if q.len() == 1 {
        assert(q =~= p.take(1));
    } else {
        if on_route(q, p) {
            assert(q.drop_first() =~= p.drop_first().take(q.len() - 1));
        }
        if on_route(q.drop_first(), p.drop_first()) {
            assert(q =~= p.take(q.len() as int)) by {
                assert forall|k: int| 0 <= k < q.len() implies q[k] == p.take(q.len() as int)[k] by {
                    if k > 0 {
                        assert(q[k] == q.drop_first()[k - 1]);
                        assert(p.drop_first().take(q.len() - 1)[k - 1] == p[k]);
                    }
                }
            }
        }
    }
}

proof fn lemma_ids_same(a: TreeNode, b: TreeNode, q: Seq<Seq<char>>)
    requires
        a.id == b.id,
        a.children == b.children,
    ensures
        id_at(a, q) == id_at(b, q),
{
}

/// The id of the node at one path, for a node whose child on the route is
/// found by the name of the route's first step, given the ids of the child.
proof fn lemma_ids_step_at(
    new: TreeNode,
    old: TreeNode,
    c: TreeNode,
    oc: TreeNode,
    p: Seq<Seq<char>>,
    sep: Seq<char>,
    q: Seq<Seq<char>>,
)
    requires
        p.len() > 0,
        new.id == old.id,
        others_agree(new.children@, old.children@, p[0]),
        0 <= child_pos(new.children@, p[0]) < new.children@.len(),
        c == new.children@[child_pos(new.children@, p[0])],
        0 <= child_pos(old.children@, p[0]) < old.children@.len() ==> oc == old.children@[child_pos(
            old.children@,
            p[0],
        )],
        !(0 <= child_pos(old.children@, p[0]) < old.children@.len()) ==> oc.id@ == child_id(
            old.id@,
            sep,
            p[0],
        ) && oc.children@.len() == 0,
        q.len() > 0 && q[0] == p[0] ==> id_rule(c, oc, p.drop_first(), sep, q.drop_first()),
    ensures
        id_rule(new, old, p, sep, q),
{
    let nch = new.children@;
    let och = old.children@;
    let found = 0 <= child_pos(och, p[0]) < och.len();
    lemma_child_pos(och, p[0]);
    if q.len() == 0 {
    } else if q[0] == p[0] {
        let q2 = q.drop_first();
        assert(id_at(new, q) == id_at(c, q2));
        lemma_route_step(q, p);
        if found {
            assert(id_at(old, q) == id_at(oc, q2));
        } else {
            assert(id_at(old, q) is None);
        }
        if q.len() == 1 {
            assert(q2.len() == 0);
            assert(q.drop_last().len() == 0);
        } else {
            assert(q.drop_last()[0] == p[0]);
            assert(q.drop_last().drop_first() =~= q2.drop_last());
            assert(id_at(new, q.drop_last()) == id_at(c, q2.drop_last()));
            assert(q.last() == q2.last());
            if !found {
                assert(id_at(oc, q2) is None);
            }
        }
    } else {
        let x = q[0];
        assert(child_pos(nch, x) >= 0 <==> child_pos(och, x) >= 0);
        lemma_child_pos(nch, x);
        lemma_child_pos(och, x);
        if child_pos(nch, x) >= 0 {
            assert(nch[child_pos(nch, x)] == och[child_pos(och, x)]);
            assert(id_at(new, q) == id_at(nch[child_pos(nch, x)], q.drop_first()));
            assert(id_at(old, q) == id_at(och[child_pos(och, x)], q.drop_first()));
        } else {
            assert(id_at(new, q) is None);
            assert(id_at(old, q) is None);
        }
        assert(!on_route(q, p)) by {
            if on_route(q, p) {
                assert(q[0] == p.take(q.len() as int)[0]);
            }
        }
    }
}

/// The ids of a node whose child on the route is found by the name of the
/// route's first step, given those of the child.
proof fn lemma_ids_step(new: TreeNode, old: TreeNode, c: TreeNode, oc: TreeNode, p: Seq<Seq<char>>, sep: Seq<char>)
    requires
        p.len() > 0,
        new.id == old.id,
        others_agree(new.children@, old.children@, p[0]),
        0 <= child_pos(new.children@, p[0]) < new.children@.len(),
        c == new.children@[child_pos(new.children@, p[0])],
        0 <= child_pos(old.children@, p[0]) < old.children@.len() ==> oc == old.children@[child_pos(
            old.children@,
            p[0],
        )],
        !(0 <= child_pos(old.children@, p[0]) < old.children@.len()) ==> oc.id@ == child_id(
            old.id@,
            sep,
            p[0],
        ) && oc.children@.len() == 0,
        ids_after_insert(c, oc, p.drop_first(), sep),
    ensures
        ids_after_insert(new, old, p, sep),
{
    assert forall|q: Seq<Seq<char>>| #[trigger] id_rule(new, old, p, sep, q) by {
        if q.len() > 0 && q[0] == p[0] {
            assert(id_rule(c, oc, p.drop_first(), sep, q.drop_first()));
        }
        lemma_ids_step_at(new, old, c, oc, p, sep, q);
    }
}

/// Two nodes with the same id and children have the same ids below, so
/// adding the last step of a route to one of them keeps the id rule.
proof fn lemma_ids_kept(a: TreeNode, b: TreeNode, p: Seq<Seq<char>>, sep: Seq<char>)
    requires
        a.id == b.id,
        a.children == b.children,
        p.len() == 0,
    ensures
        ids_after_insert(a, b, p, sep),
{
    assert forall|q: Seq<Seq<char>>| #[trigger] id_rule(a, b, p, sep, q) by {
        lemma_ids_same(a, b, q);
    }
}

proof fn lemma_key_of_empty(node: TreeNode, q: Seq<Seq<char>>)
    requires
        node.children@.len() == 0,
        node.key_type is None,
    ensures
        key_of(node, q) is None,
{
}

impl TreeNode {
    /// An empty tree.
    pub fn new() -> (r: TreeNode)
        ensures
            r.wf(),
            r.name@ == Seq::<char>::empty(),
            r.id@ == Seq::<char>::empty(),
            r.key_type is None,
            r.children@.len() == 0,
            forall|q: Seq<Seq<char>>| key_of(r, q) is None,
    {
        let r = TreeNode { name: String::new(), id: String::new(), key_type: None, children: Vec::new() };
        proof {
            assert forall|q: Seq<Seq<char>>| key_of(r, q) is None by {
                lemma_key_of_empty(r, q);
            }
        }
        r
    }

    fn leaf(name: String, id: String) -> (r: TreeNode)
        ensures
            r.wf(),
            r.name@ == name@,
            r.id@ == id@,
            r.key_type is None,
            r.children@.len() == 0,
    {
        TreeNode { name, id, key_type: None, children: Vec::new() }
    }

    /// Adds the key whose name splits into `path[from..]` below this node,
    /// with its type; missing nodes are created on the way, each with the id
    /// of its parent, the separator and its name.  Afterwards the key has
    /// this type, every other key keeps its type, and every node that was
    /// there keeps its id.  An empty rest of the path changes nothing.
    pub fn insert(&mut self, path: &Vec<String>, from: usize, key_type: &str, separator: &str)
        requires
            old(self).wf(),
            from <= path@.len(),
        ensures
            final(self).wf(),
            final(self).name@ == old(self).name@,
            final(self).id@ == old(self).id@,
            from == path@.len() ==> *final(self) == *old(self),
            from < path@.len() ==> key_of(*final(self), path@.skip(from as int).map_values(|s: String| s@))
                == Some(key_type@),
            forall|q: Seq<Seq<char>>|
                q != path@.skip(from as int).map_values(|s: String| s@) ==> key_of(*final(self), q)
                    == key_of(*old(self), q),
            ids_after_insert(
                *final(self),
                *old(self),
                path@.skip(from as int).map_values(|s: String| s@),
                separator@,
            ),
        decreases path@.len() - from,
    {
        let ghost p = path@.skip(from as int).map_values(|s: String| s@);
        let ghost old_self = *old(self);
        if from == path.len() {
            proof {
                assert(p.len() == 0);
                lemma_ids_kept(*self, *self, p, separator@);
            }
            return;
        }
        let first = to_chars(path[from].as_str());
        proof {
            assert(p[0] == path@[from as int]@);
        }
        // find the child, or the place it belongs at
        let mut i: usize = 0;
        let mut stop = false;
        let mut found = false;
        while i < self.children.len() && !stop
            invariant
                i <= self.children.len(),
                self.wf(),
                *self == old_self,
                first@ == p[0],
                forall|j: int| 0 <= j < i ==> seq_less(#[trigger] self.children@[j].name@, first@),
                stop ==> i < self.children@.len() && !seq_less(self.children@[i as int].name@, first@),
                found ==> stop && self.children@[i as int].name@ == first@,
                !found && stop ==> self.children@[i as int].name@ != first@,
            decreases self.children.len() - i + if stop { 0int } else { 1int },
        {
            let cn = to_chars(self.children[i].name.as_str());
            if chars_eq(&cn, &first) {
                found = true;
                stop = true;
                proof {
                    lemma_seq_less_irreflexive(first@);
                }
            } else if chars_less(&cn, &first) {
                i = i + 1;
            } else {
                stop = true;
            }
        }
        let ghost old_children = self.children@;
        let last = from == path.len() - 1;
        proof {
            if last {
                assert(p.drop_first() =~= Seq::<Seq<char>>::empty());
            } else {
                assert(p.drop_first() =~= path@.skip(from + 1).map_values(|s: String| s@));
            }
        }
        if found {
            let mut child = self.children.remove(i);
            let ghost old_child = child;
            proof {
                assert(old_child == old_children[i as int]);
                assert(old_child.wf());
            }
            if last {
                child.key_type = Some(String::from_str(key_type));
                proof {
                    assert forall|q: Seq<Seq<char>>| q != p.drop_first() implies key_of(child, q) == key_of(old_child, q) by {
                        if q.len() == 0 {
                            assert(q =~= p.drop_first());
                        }
                        assert(child.children == old_child.children);
                    }
                    lemma_ids_kept(child, old_child, p.drop_first(), separator@);
                }
            } else {
                child.insert(path, from + 1, key_type, separator);
            }
            self.children.insert(i, child);
            proof {
                assert(self.children@ =~= old_children.update(i as int, child));
                self.lemma_after_update(old_self, i as int, old_child, p, from, path@, key_type@, last);
                lemma_ids_step(*self, old_self, child, old_child, p, separator@);
            }
        } else {
            let name = String::from_str(path[from].as_str());
            let mut idv: Vec<char> = Vec::new();
            if self.id.as_str().is_empty() {
                push_str_chars(&mut idv, path[from].as_str());
            } else {
                push_str_chars(&mut idv, self.id.as_str());
                push_str_chars(&mut idv, separator);
                push_str_chars(&mut idv, path[from].as_str());
            }
            let mut child = TreeNode::leaf(name, from_chars(&idv));
            let ghost fresh = child;
            proof {
                assert forall|q: Seq<Seq<char>>| key_of(fresh, q) is None by {
                    lemma_key_of_empty(fresh, q);
                }
            }
            if last {
                child.key_type = Some(String::from_str(key_type));
                proof {
                    assert forall|q: Seq<Seq<char>>| q != p.drop_first() implies key_of(child, q) == key_of(fresh, q) by {
                        if q.len() == 0 {
                            assert(q =~= p.drop_first());
                        }
                        assert(child.children == fresh.children);
                    }
                    lemma_ids_kept(child, fresh, p.drop_first(), separator@);
                }
            } else {
                child.insert(path, from + 1, key_type, separator);
            }
            self.children.insert(i, child);
            proof {
                assert(self.children@ =~= old_children.insert(i as int, child));
                self.lemma_after_insert(old_self, i as int, fresh, p, from, path@, key_type@, last);
                assert(fresh.id@ == child_id(old_self.id@, separator@, p[0]));
                lemma_ids_step(*self, old_self, child, fresh, p, separator@);
            }
        }
    }

    proof fn lemma_after_update(
        self,
        old_self: TreeNode,
        i: int,
        old_child: TreeNode,
        p: Seq<Seq<char>>,
        from: usize,
        path: Seq<String>,
        key_type: Seq<char>,
        last: bool,
    )
        requires
            old_self.wf(),
            0 <= i < old_self.children@.len(),
            old_child == old_self.children@[i],
            self.children@ == old_self.children@.update(i, self.children@[i]),
            self.name == old_self.name,
            self.id == old_self.id,
            self.key_type == old_self.key_type,
            self.children@[i].wf(),
            self.children@[i].name@ == old_child.name@,
            p.len() > 0,
            p[0] == old_child.name@,
            from < path.len(),
            p == path.skip(from as int).map_values(|s: String| s@),
            last == (from + 1 == path.len()),
            key_of(self.children@[i], p.drop_first()) == Some(key_type),
            forall|q: Seq<Seq<char>>|
                q != p.drop_first() ==> key_of(self.children@[i], q) == key_of(old_child, q),
        ensures
            self.wf(),
            key_of(self, p) == Some(key_type),
            forall|q: Seq<Seq<char>>| q != p ==> key_of(self, q) == key_of(old_self, q),
            child_pos(self.children@, p[0]) == i,
            child_pos(old_self.children@, p[0]) == i,
            others_agree(self.children@, old_self.children@, p[0]),
    {
        let oc = old_self.children@;
        let nc = self.children@;
        assert forall|a: int, b: int| 0 <= a < b < nc.len() implies seq_less(
            #[trigger] nc[a].name@,
            #[trigger] nc[b].name@,
        ) by {
            assert(oc[a].name@ == nc[a].name@);
            assert(oc[b].name@ == nc[b].name@);
        }
        assert forall|x: Seq<char>| x != p[0] implies (#[trigger] child_pos(nc, x) >= 0 <==> child_pos(
            oc,
            x,
        ) >= 0) && (child_pos(nc, x) >= 0 ==> nc[child_pos(nc, x)] == oc[child_pos(oc, x)]) by {
            lemma_child_pos(oc, x);
            lemma_child_pos(nc, x);
            let po = child_pos(oc, x);
            let pn = child_pos(nc, x);
            if po >= 0 {
                lemma_child_pos_unique(oc, po);
                assert(po != i);
                assert(nc[po] == oc[po]);
                lemma_child_pos_unique(nc, po);
            } else if pn >= 0 {
                assert(pn != i);
                assert(nc[pn] == oc[pn]);
            }
        }
        assert forall|a: int| 0 <= a < nc.len() implies (#[trigger] nc[a]).wf() by {
            if a != i {
                assert(nc[a] == oc[a]);
            }
        }
        lemma_child_pos_unique(nc, i);
        lemma_child_pos_unique(oc, i);
        assert(key_of(self, p) == key_of(nc[i], p.drop_first()));
        assert forall|q: Seq<Seq<char>>| q != p implies key_of(self, q) == key_of(old_self, q) by {
            if q.len() > 0 {
                if q[0] == p[0] {
                    assert(child_pos(nc, q[0]) == i);
                    assert(child_pos(oc, q[0]) == i);
                    assert(key_of(self, q) == key_of(nc[i], q.drop_first()));
                    assert(key_of(old_self, q) == key_of(oc[i], q.drop_first()));
                    assert(q.drop_first() != p.drop_first()) by {
                        if q.drop_first() == p.drop_first() {
                            lemma_head_tail_eq(q, p);
                        }
                    }
                } else {
                    lemma_child_pos(oc, q[0]);
                    lemma_child_pos(nc, q[0]);
                    let po = child_pos(oc, q[0]);
                    let pn = child_pos(nc, q[0]);
                    if po >= 0 {
                        lemma_child_pos_unique(oc, po);
                        assert(nc[po] == oc[po]);
                        lemma_child_pos_unique(nc, po);
                    } else if pn >= 0 {
                        assert(nc[pn] == oc[pn]);
                    }
                }
            }
        }
    }

    proof fn lemma_after_insert(
        self,
        old_self: TreeNode,
        i: int,
        fresh: TreeNode,
        p: Seq<Seq<char>>,
        from: usize,
        path: Seq<String>,
        key_type: Seq<char>,
        last: bool,
    )
        requires
            old_self.wf(),
            0 <= i <= old_self.children@.len(),
            forall|j: int| 0 <= j < i ==> seq_less(#[trigger] old_self.children@[j].name@, p[0]),
            i < old_self.children@.len() ==> !seq_less(old_self.children@[i].name@, p[0]) && old_self.children@[i].name@ != p[0],
            self.children@ == old_self.children@.insert(i, self.children@[i]),
            self.name == old_self.name,
            self.id == old_self.id,
            self.key_type == old_self.key_type,
            self.children@[i].wf(),
            self.children@[i].name@ == p[0],
            p.len() > 0,
            forall|q: Seq<Seq<char>>| key_of(fresh, q) is None,
            key_of(self.children@[i], p.drop_first()) == Some(key_type),
            forall|q: Seq<Seq<char>>|
                q != p.drop_first() ==> key_of(self.children@[i], q) == key_of(fresh, q),
        ensures
            self.wf(),
            key_of(self, p) == Some(key_type),
            forall|q: Seq<Seq<char>>| q != p ==> key_of(self, q) == key_of(old_self, q),
            child_pos(self.children@, p[0]) == i,
            child_pos(old_self.children@, p[0]) < 0,
            others_agree(self.children@, old_self.children@, p[0]),
    {
        let oc = old_self.children@;
        let nc = self.children@;
        assert forall|a: int, b: int| 0 <= a < b < nc.len() implies seq_less(
            #[trigger] nc[a].name@,
            #[trigger] nc[b].name@,
        ) by {
            if b < i {
                assert(nc[a] == oc[a]);
                assert(nc[b] == oc[b]);
            } else if b == i {
                assert(nc[a] == oc[a]);
            } else if a == i {
                assert(nc[b] == oc[b - 1]);
                if b - 1 == i {
                    lemma_seq_less_total(oc[i].name@, p[0]);
                } else {
                    lemma_seq_less_total(oc[i].name@, p[0]);
                    lemma_seq_less_trans(p[0], oc[i].name@, oc[b - 1].name@);
                }
            } else if a < i {
                assert(nc[a] == oc[a]);
                assert(nc[b] == oc[b - 1]);
                if a < b - 1 {
                } else {
                }
                lemma_seq_less_total(oc[i].name@, p[0]);
                if i < b - 1 {
                    lemma_seq_less_trans(p[0], oc[i].name@, oc[b - 1].name@);
                }
                lemma_seq_less_trans(oc[a].name@, p[0], oc[b - 1].name@);
            } else {
                assert(nc[a] == oc[a - 1]);
                assert(nc[b] == oc[b - 1]);
            }
        }
        assert forall|a: int| 0 <= a < nc.len() implies (#[trigger] nc[a]).wf() by {
            if a < i {
                assert(nc[a] == oc[a]);
            } else if a > i {
                assert(nc[a] == oc[a - 1]);
            }
        }
        lemma_child_pos_unique(nc, i);
        lemma_child_pos(oc, p[0]);
        assert(child_pos(oc, p[0]) < 0) by {
            if child_pos(oc, p[0]) >= 0 {
                let j = child_pos(oc, p[0]);
                if j < i {
                    assert(seq_less(oc[j].name@, p[0]));
                    lemma_seq_less_irreflexive(p[0]);
                } else if j > i {
                    assert(seq_less(oc[i].name@, oc[j].name@));
                    lemma_seq_less_total(oc[i].name@, p[0]);
                    lemma_seq_less_trans(p[0], oc[i].name@, oc[j].name@);
                    lemma_seq_less_irreflexive(p[0]);
                }
            }
        }
        assert forall|x: Seq<char>| x != p[0] implies (#[trigger] child_pos(nc, x) >= 0 <==> child_pos(
            oc,
            x,
        ) >= 0) && (child_pos(nc, x) >= 0 ==> nc[child_pos(nc, x)] == oc[child_pos(oc, x)]) by {
            lemma_child_pos(oc, x);
            lemma_child_pos(nc, x);
            let po = child_pos(oc, x);
            let pn = child_pos(nc, x);
            if po >= 0 {
                lemma_child_pos_unique(oc, po);
                let np = if po < i { po } else { po + 1 };
                assert(nc[np] == oc[po]);
                lemma_child_pos_unique(nc, np);
            } else if pn >= 0 {
                if pn < i {
                    assert(nc[pn] == oc[pn]);
                } else if pn > i {
                    assert(nc[pn] == oc[pn - 1]);
                }
            }
        }
        assert forall|q: Seq<Seq<char>>| q != p implies key_of(self, q) == key_of(old_self, q) by {
            if q.len() > 0 {
                if q[0] == p[0] {
                    assert(q.drop_first() != p.drop_first()) by {
                        if q.drop_first() == p.drop_first() {
                            lemma_head_tail_eq(q, p);
                        }
                    }
                    assert(child_pos(nc, q[0]) == i);
                    assert(key_of(self, q) == key_of(nc[i], q.drop_first()));
                    assert(key_of(nc[i], q.drop_first()) == key_of(fresh, q.drop_first()));
                    assert(key_of(old_self, q) is None);
                } else {
                    lemma_child_pos(oc, q[0]);
                    lemma_child_pos(nc, q[0]);
                    let po = child_pos(oc, q[0]);
                    let pn = child_pos(nc, q[0]);
                    if po >= 0 {
                        lemma_child_pos_unique(oc, po);
                        let np = if po < i { po } else { po + 1 };
                        assert(nc[np] == oc[po]);
                        lemma_child_pos_unique(nc, np);
                        assert(key_of(self, q) == key_of(nc[np], q.drop_first()));
                        assert(key_of(old_self, q) == key_of(oc[po], q.drop_first()));
                    } else {
                        if pn >= 0 {
                            if pn < i {
                                assert(nc[pn] == oc[pn]);
                            } else if pn > i {
                                assert(nc[pn] == oc[pn - 1]);
                            }
                        }
                        assert(pn < 0);
                        assert(key_of(self, q) is None);
                        assert(key_of(old_self, q) is None);
                    }
                }
            }
        }
    }
}


/// The id at `r` after the keys at `p` and at `q` were both added to `t`:
/// the id that was there, else, on the way to either key, the id of the
/// parent, the separator and the name.
pub open spec fn ids_after_two(
    t: TreeNode,
    p: Seq<Seq<char>>,
    q: Seq<Seq<char>>,
    sep: Seq<char>,
    r: Seq<Seq<char>>,
) -> Option<Seq<char>>
    decreases r.len(),
{
    if id_at(t, r) is Some {
        id_at(t, r)
    } else if r.len() > 0 && (on_route(r, p) || on_route(r, q)) {
        Some(child_id(ids_after_two(t, p, q, sep, r.drop_last())->0, sep, r.last()))
    } else {
        None
    }
}

proof fn lemma_route_parent(r: Seq<Seq<char>>, p: Seq<Seq<char>>)
    requires
        on_route(r, p),
        r.len() > 1,
    ensures
        on_route(r.drop_last(), p),
{
    assert(r.drop_last() =~= p.take(r.len() - 1));
}

proof fn lemma_ids_two(
    t: TreeNode,
    a: TreeNode,
    b: TreeNode,
    p: Seq<Seq<char>>,
    q: Seq<Seq<char>>,
    sep: Seq<char>,
    r: Seq<Seq<char>>,
)
    requires
        ids_after_insert(a, t, p, sep),
        ids_after_insert(b, a, q, sep),
    ensures
        id_at(b, r) == ids_after_two(t, p, q, sep, r),
        on_route(r, p) || on_route(r, q) || r.len() == 0 ==> id_at(b, r) is Some,
    decreases r.len(),
{
    assert(id_rule(a, t, p, sep, r));
    assert(id_rule(b, a, q, sep, r));
    if r.len() > 0 {
        lemma_ids_two(t, a, b, p, q, sep, r.drop_last());
        assert(id_rule(a, t, p, sep, r.drop_last()));
        assert(id_rule(b, a, q, sep, r.drop_last()));
        if r.len() > 1 {
            if on_route(r, p) {
                lemma_route_parent(r, p);
            }
            if on_route(r, q) {
                lemma_route_parent(r, q);
            }
        } else {
            assert(r.drop_last().len() == 0);
        }
    } else {
        assert(id_at(t, r) is Some);
    }
}

/// Adding two different keys to the key tree gives the same tree in either
/// order: at every path the same node is there or not, with the same id
/// and the same key type.
pub proof fn lemma_insert_order_free(
    t: TreeNode,
    a: TreeNode,
    b: TreeNode,
    c: TreeNode,
    d: TreeNode,
    p: Seq<Seq<char>>,
    q: Seq<Seq<char>>,
    tp: Seq<char>,
    tq: Seq<char>,
    sep: Seq<char>,
)
    requires
        p != q,
        key_of(a, p) == Some(tp),
        forall|r: Seq<Seq<char>>| r != p ==> key_of(a, r) == key_of(t, r),
        ids_after_insert(a, t, p, sep),
        key_of(b, q) == Some(tq),
        forall|r: Seq<Seq<char>>| r != q ==> key_of(b, r) == key_of(a, r),
        ids_after_insert(b, a, q, sep),
        key_of(c, q) == Some(tq),
        forall|r: Seq<Seq<char>>| r != q ==> key_of(c, r) == key_of(t, r),
        ids_after_insert(c, t, q, sep),
        key_of(d, p) == Some(tp),
        forall|r: Seq<Seq<char>>| r != p ==> key_of(d, r) == key_of(c, r),
        ids_after_insert(d, c, p, sep),
    ensures
        forall|r: Seq<Seq<char>>| key_of(b, r) == key_of(d, r) && id_at(b, r) == id_at(d, r),
{
    assert forall|r: Seq<Seq<char>>| key_of(b, r) == key_of(d, r) && id_at(b, r) == id_at(d, r) by {
        lemma_ids_two(t, a, b, p, q, sep, r);
        lemma_ids_two(t, c, d, q, p, sep, r);
        lemma_ids_two_sym(t, p, q, sep, r);
    }
}

proof fn lemma_ids_two_sym(t: TreeNode, p: Seq<Seq<char>>, q: Seq<Seq<char>>, sep: Seq<char>, r: Seq<Seq<char>>)
    ensures
        ids_after_two(t, p, q, sep, r) == ids_after_two(t, q, p, sep, r),
    decreases r.len(),
{
    if r.len() > 0 {
        lemma_ids_two_sym(t, p, q, sep, r.drop_last());
    }
}

/// Adding the same key twice gives the same tree as adding it once.
pub proof fn lemma_insert_twice(
    t: TreeNode,
    a: TreeNode,
    b: TreeNode,
    p: Seq<Seq<char>>,
    tp: Seq<char>,
    sep: Seq<char>,
)
    requires
        key_of(a, p) == Some(tp),
        forall|r: Seq<Seq<char>>| r != p ==> key_of(a, r) == key_of(t, r),
        ids_after_insert(a, t, p, sep),
        key_of(b, p) == Some(tp),
        forall|r: Seq<Seq<char>>| r != p ==> key_of(b, r) == key_of(a, r),
        ids_after_insert(b, a, p, sep),
    ensures
        forall|r: Seq<Seq<char>>| key_of(b, r) == key_of(a, r) && id_at(b, r) == id_at(a, r),
{
    assert forall|r: Seq<Seq<char>>| key_of(b, r) == key_of(a, r) && id_at(b, r) == id_at(a, r) by {
        lemma_ids_two(t, a, b, p, p, sep, r);
        assert(id_rule(a, t, p, sep, r));
        assert(id_rule(b, a, p, sep, r));
        if on_route(r, p) && id_at(a, r) is None {
            assert(false);
        }
    }
}

/// The fields of a text split at each `sep`, empty fields kept
/// (`str::split` with a one-character separator).
pub open spec fn split_on(l: Seq<char>, sep: char) -> Seq<Seq<char>>
    decreases l.len(),
{
    if l.len() == 0 {
        seq![seq![]]
    } else {
        let rest = split_on(l.drop_last(), sep);
        if l.last() == sep {
            rest.push(seq![])
        } else {
            rest.update(rest.len() - 1, rest.last().push(l.last()))
        }
    }
}

proof fn lemma_split_on_len(l: Seq<char>, sep: char)
    ensures
        split_on(l, sep).len() >= 1,
    decreases l.len(),
{
    if l.len() > 0 {
        lemma_split_on_len(l.drop_last(), sep);
    }
}

/// Splits a key name at the separator.
pub fn split_key(name: &str, sep: char) -> (r: Vec<String>)
    ensures
        r@.map_values(|f: String| f@) == split_on(name@, sep),
        r@.len() >= 1,
{
    let l = to_chars(name);
    let mut out: Vec<Vec<char>> = Vec::new();
    out.push(Vec::new());
    let mut i: usize = 0;
    proof {
        assert(out@.map_values(|f: Vec<char>| f@) =~= split_on(l@.take(0), sep));
    }
    while i < l.len()
        invariant
            i <= l.len(),
            out@.len() >= 1,
            out@.map_values(|f: Vec<char>| f@) == split_on(l@.take(i as int), sep),
        decreases l.len() - i,
    {
        proof {
            assert(l@.take(i + 1).drop_last() == l@.take(i as int));
        }
        if l[i] == sep {
            out.push(Vec::new());
        } else {
            let last = out.len() - 1;
            let mut f = out.remove(last);
            f.push(l[i]);
            out.push(f);
        }
        proof {
            assert(out@.map_values(|f: Vec<char>| f@) =~= split_on(l@.take(i + 1), sep));
        }
        i = i + 1;
    }
    proof {
        assert(l@.take(l@.len() as int) == l@);
    }
    let mut r: Vec<String> = Vec::new();
    let mut j: usize = 0;
    while j < out.len()
        invariant
            j <= out.len(),
            r@.len() == j,
            forall|k: int| 0 <= k < j ==> (#[trigger] r@[k])@ == out@[k]@,
        decreases out.len() - j,
    {
        r.push(from_chars(&out[j]));
        j = j + 1;
    }
    proof {
        assert(r@.map_values(|f: String| f@) =~= out@.map_values(|f: Vec<char>| f@));
    }
    r
}

/// The key types by path after adding the keys in order, a later key
/// replacing an earlier one with the same path.
pub open spec fn keys_map(keys: Seq<(Seq<char>, Seq<char>)>, sep: char) -> Map<Seq<Seq<char>>, Seq<char>>
    decreases keys.len(),
{
    if keys.len() == 0 {
        Map::empty()
    } else {
        keys_map(keys.drop_last(), sep).insert(split_on(keys.last().0, sep), keys.last().1)
    }
}

/// The view of a key list: each key's name and type.
pub open spec fn keys_view(keys: Seq<RedisKey>) -> Seq<(Seq<char>, Seq<char>)> {
    keys.map_values(|k: RedisKey| (k.name@, k.key_type@))
}

/// Builds the tree of the keys, splitting each name at the separator: a key
/// path holds the type of the last key with that path, and no other path
/// holds a type.
pub fn build_tree(keys: &Vec<RedisKey>, sep: char) -> (r: TreeNode)
    ensures
        r.wf(),
        forall|q: Seq<Seq<char>>| key_of(r, q) == keys_map(keys_view(keys@), sep).get(q),
{
    let mut root = TreeNode::new();
    let mut sep_s: Vec<char> = Vec::new();
    sep_s.push(sep);
    let sep_str = from_chars(&sep_s);
    let ghost kv = keys_view(keys@);
    let mut i: usize = 0;
    proof {
        assert forall|q: Seq<Seq<char>>| key_of(root, q) == keys_map(kv.take(0), sep).get(q) by {
            assert(kv.take(0) =~= Seq::<(Seq<char>, Seq<char>)>::empty());
        }
    }
    while i < keys.len()
        invariant
            i <= keys.len(),
            kv == keys_view(keys@),
            root.wf(),
            forall|q: Seq<Seq<char>>| key_of(root, q) == keys_map(kv.take(i as int), sep).get(q),
        decreases keys.len() - i,
    {
        let parts = split_key(keys[i].name.as_str(), sep);
        let ghost pv = parts@.map_values(|f: String| f@);
        proof {
            assert(parts@.skip(0) =~= parts@);
            assert(kv.take(i + 1).drop_last() =~= kv.take(i as int));
            assert(kv.take(i + 1).last() == (keys@[i as int].name@, keys@[i as int].key_type@));
        }
        root.insert(&parts, 0, keys[i].key_type.as_str(), sep_str.as_str());
        proof {
            assert forall|q: Seq<Seq<char>>| key_of(root, q) == keys_map(kv.take(i + 1), sep).get(q) by {
                assert(parts@.skip(0).map_values(|s: String| s@) == pv);
            }
        }
        i = i + 1;
    }
    proof {
        assert(kv.take(i as int) =~= kv);
    }
    root
}

} // verus!
