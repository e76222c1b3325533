//! What the client reads out of a server's replies when it connects: the
//! `INFO` properties, and the nodes of a cluster.
use crate::resp::RespValue;
use crate::text::{from_chars, spec_lines, split_lines, to_chars};
use crate::utils::utf8_decode;
use vstd::prelude::*;
use vstd::utf8::{decode_utf8, valid_utf8};

verus! {

/// The position of the first `c` in `l`, or -1 when there is none.
pub open spec fn first_index(l: Seq<char>, c: char) -> int
    decreases l.len(),
{
    if l.len() == 0 {
        -1
    } else if l[0] == c {
        0
    } else {
        let r = first_index(l.drop_first(), c);
        if r < 0 {
            -1
        } else {
            r + 1
        }
    }
}

proof fn lemma_first_index(l: Seq<char>, c: char)
    ensures
        -1 <= first_index(l, c) < l.len(),
        first_index(l, c) >= 0 ==> l[first_index(l, c)] == c,
        forall|j: int|
            0 <= j < l.len() && (first_index(l, c) < 0 || j < first_index(l, c)) ==> l[j] != c,
    decreases l.len(),
{
    if l.len() > 0 && l[0] != c {
        lemma_first_index(l.drop_first(), c);
        assert forall|j: int|
            0 <= j < l.len() && (first_index(l, c) < 0 || j < first_index(l, c)) implies l[j]
            != c by {
            if j > 0 {
                assert(l[j] == l.drop_first()[j - 1]);
            }
        }
    }
}

fn find_char(l: &Vec<char>, c: char) -> (r: Option<usize>)
    ensures
        r is Some <==> first_index(l@, c) >= 0,
        r matches Some(i) ==> i == first_index(l@, c) && i < l@.len(),
{
    proof {
        lemma_first_index(l@, c);
    }
    let mut i: usize = 0;
    while i < l.len()
        invariant
            i <= l.len(),
            forall|j: int| 0 <= j < i ==> l@[j] != c,
            -1 <= first_index(l@, c) < l@.len(),
            first_index(l@, c) >= 0 ==> l@[first_index(l@, c)] == c,
            forall|j: int|
                0 <= j < l@.len() && (first_index(l@, c) < 0 || j < first_index(l@, c)) ==> l@[j]
                    != c,
        decreases l.len() - i,
    {
        if l[i] == c {
            return Some(i);
        }
        i = i + 1;
    }
    None
}

/// The value of `key` in the lines of an `INFO` reply: the first line that
/// does not start with `#` and that, up to its first `:`, is the key, gives
/// the text after that `:`.
pub open spec fn info_lookup(lines: Seq<Seq<char>>, key: Seq<char>) -> Option<Seq<char>>
    decreases lines.len(),
{
    if lines.len() == 0 {
        None
    } else {
        let l = lines[0];
        let c = first_index(l, ':');
        if !(l.len() > 0 && l[0] == '#') && c >= 0 && l.take(c) == key {
            Some(l.skip(c + 1))
        } else {
            info_lookup(lines.drop_first(), key)
        }
    }
}

/// The value of a property in the text of an `INFO` reply, such as
/// `redis_mode` or `redis_version`.
pub fn get_server_info(server_info: &str, key: &str) -> (r: Option<String>)
    ensures
        match r {
            Some(v) => info_lookup(spec_lines(server_info@), key@) == Some(v@),
            None => info_lookup(spec_lines(server_info@), key@) is None,
        },
{
    let text = to_chars(server_info);
    let keyv = to_chars(key);
    let lines = split_lines(&text);
    let ghost lv = lines@.map_values(|l: Vec<char>| l@);
    let mut i: usize = 0;
    proof {
        assert(lv.skip(0) =~= lv);
    }
    while i < lines.len()
        invariant
            i <= lines.len(),
            lv == lines@.map_values(|l: Vec<char>| l@),
            lv == spec_lines(server_info@),
            keyv@ == key@,
            info_lookup(lv, key@) == info_lookup(lv.skip(i as int), key@),
        decreases lines.len() - i,
    {
        let line = &lines[i];
        proof {
            assert(lv.skip(i as int)[0] == line@);
            assert(lv.skip(i as int).drop_first() =~= lv.skip(i + 1));
        }
        let commented = line.len() > 0 && line[0] == '#';
        if !commented {
            if let Some(c) = find_char(line, ':') {
                let mut k: Vec<char> = Vec::new();
                let mut j: usize = 0;
                while j < c
                    invariant
                        j <= c < line@.len(),
                        k@ == line@.take(j as int),
                    decreases c - j,
                {
                    k.push(line[j]);
                    proof {
                        assert(line@.take(j + 1) == line@.take(j as int).push(line@[j as int]));
                    }
                    j = j + 1;
                }
                if crate::text::chars_eq(&k, &keyv) {
                    let mut v: Vec<char> = Vec::new();
                    let mut j: usize = c + 1;
                    while j < line.len()
                        invariant
                            c + 1 <= j <= line@.len(),
                            v@ == line@.subrange(c + 1, j as int),
                        decreases line.len() - j,
                    {
                        v.push(line[j]);
                        proof {
                            assert(v@ =~= line@.subrange(c + 1, j + 1));
                        }
                        j = j + 1;
                    }
                    proof {
                        assert(line@.subrange(c + 1, line@.len() as int) == line@.skip(c + 1));
                    }
                    return Some(from_chars(&v));
                }
            }
        }
        i = i + 1;
    }
    proof {
        assert(lv.skip(i as int) =~= Seq::<Seq<char>>::empty());
    }
    None
}

/// Whether the server runs as a cluster, by its `redis_mode` property.
pub fn is_cluster_mode(server_info: &str) -> (r: bool)
    ensures
        r <==> info_lookup(spec_lines(server_info@), "redis_mode"@) == Some("cluster"@),
{
    match get_server_info(server_info, "redis_mode") {
        Some(mode) => crate::text::str_eq(mode.as_str(), "cluster"),
        None => false,
    }
}

/// Why the server's mode could not be read from its `INFO SERVER` reply.
#[derive(Clone, Copy, PartialEq, Eq, Debug, Structural)]
pub enum ModeError {
    /// The reply is not verbatim text.
    NotVerbatim,
    /// The text has no `redis_mode` property.
    MissingMode,
}

/// Reads the server's `INFO SERVER` reply: whether it runs as a cluster,
/// by its `redis_mode` property; an error where the reply is not verbatim
/// text or names no mode.
pub fn server_mode(reply: &RespValue) -> (r: Result<bool, ModeError>)
    ensures
        match reply {
            RespValue::VerbatimString { text, .. } => match info_lookup(
                spec_lines(text@),
                "redis_mode"@,
            ) {
                Some(m) => r == Ok::<bool, ModeError>(m == "cluster"@),
                None => r == Err::<bool, ModeError>(ModeError::MissingMode),
            },
            _ => r == Err::<bool, ModeError>(ModeError::NotVerbatim),
        },
{
    match reply {
        RespValue::VerbatimString { text, .. } => match get_server_info(text.as_str(), "redis_mode") {
            Some(mode) => Ok(crate::text::str_eq(mode.as_str(), "cluster")),
            None => Err(ModeError::MissingMode),
        },
        _ => Err(ModeError::NotVerbatim),
    }
}

// ---------------------------------------------------------------------------
// Cluster topology
// ---------------------------------------------------------------------------
/// Why the cluster's slot table could not be read.
#[derive(Clone, Copy, PartialEq, Eq, Debug, Structural)]
pub enum ClusterError {
    /// The reply is not an array.
    NotAnArray,
    /// A slot names no node list.
    MissingNodes,
    /// A node lacks its host, port or id.
    MissingNodeField,
    /// A host or an id is not valid UTF-8.
    InvalidUtf8,
}

/// A node of the slot table: host, port and node id.
pub type NodeView = (Seq<char>, u16, Seq<char>);

/// The text of a bulk string when it is valid UTF-8, an error when it is
/// not, and the empty text for any other reply.
pub open spec fn bulk_text(v: RespValue) -> Result<Seq<char>, ClusterError> {
    match v {
        RespValue::BulkString { bytes, shown } => if valid_utf8(bytes@) {
            Ok(decode_utf8(bytes@))
        } else {
            Err(ClusterError::InvalidUtf8)
        },
        _ => Ok(seq![]),
    }
}

/// The port of a node: an integer reply cut to 16 bits, else 0.
pub open spec fn port_of(v: RespValue) -> u16 {
    match v {
        RespValue::Int(p) => p as u16,
        _ => 0,
    }
}

/// The node that one slot entry names: the slot's third element lists the
/// node's host, port and id.  A slot that is not an array, or whose third
/// element is not an array, names none.
pub open spec fn slot_node(slot: RespValue) -> Result<Option<NodeView>, ClusterError> {
    match slot {
        RespValue::Array(item) => if item@.len() < 3 {
            Err(ClusterError::MissingNodes)
        } else {
            match item@[2] {
                RespValue::Array(node) => if node@.len() < 3 {
                    Err(ClusterError::MissingNodeField)
                } else {
                    match bulk_text(node@[0]) {
                        Err(e) => Err(e),
                        Ok(host) => match bulk_text(node@[2]) {
                            Err(e) => Err(e),
                            Ok(id) => Ok(Some((host, port_of(node@[1]), id))),
                        },
                    }
                },
                _ => Ok(None),
            }
        },
        _ => Ok(None),
    }
}

/// The nodes of the slots from the `k`-th on, or the first error.
pub open spec fn slots_nodes(slots: Seq<RespValue>, k: int) -> Result<Seq<NodeView>, ClusterError>
    decreases slots.len() - k,
{
    if 0 <= k < slots.len() {
        match slot_node(slots[k]) {
            Err(e) => Err(e),
            Ok(n) => match slots_nodes(slots, k + 1) {
                Err(e) => Err(e),
                Ok(rest) => match n {
                    Some(x) => Ok(seq![x] + rest),
                    None => Ok(rest),
                },
            },
        }
    } else {
        Ok(seq![])
    }
}

/// The nodes listed by a `CLUSTER SLOTS` reply.
pub open spec fn spec_cluster_slots(reply: RespValue) -> Result<Seq<NodeView>, ClusterError> {
    match reply {
        RespValue::Array(slots) => slots_nodes(slots@, 0),
        _ => Err(ClusterError::NotAnArray),
    }
}

/// The view of a node list.
pub open spec fn nodes_view(v: Seq<(String, u16, String)>) -> Seq<NodeView> {
    v.map_values(|n: (String, u16, String)| (n.0@, n.1, n.2@))
}

fn bulk_text_exec(v: &RespValue) -> (r: Result<String, ClusterError>)
    ensures
        match r {
            Ok(s) => bulk_text(*v) == Ok::<Seq<char>, ClusterError>(s@),
            Err(e) => bulk_text(*v) == Err::<Seq<char>, ClusterError>(e),
        },
{
    match v {
        RespValue::BulkString { bytes, shown: _ } => {
            match utf8_decode(bytes.clone()) {
                Some(s) => Ok(s),
                None => Err(ClusterError::InvalidUtf8),
            }
        },
        _ => Ok(String::new()),
    }
}

fn slot_node_exec(slot: &RespValue) -> (r: Result<Option<(String, u16, String)>, ClusterError>)
    ensures
        match r {
            Ok(Some(n)) => slot_node(*slot) == Ok::<Option<NodeView>, ClusterError>(
                Some((n.0@, n.1, n.2@)),
            ),
            Ok(None) => slot_node(*slot) == Ok::<Option<NodeView>, ClusterError>(None),
            Err(e) => slot_node(*slot) == Err::<Option<NodeView>, ClusterError>(e),
        },
{
    match slot {
        RespValue::Array(item) => {
            if item.len() < 3 {
                return Err(ClusterError::MissingNodes);
            }
            match &item[2] {
                RespValue::Array(node) => {
                    if node.len() < 3 {
                        return Err(ClusterError::MissingNodeField);
                    }
                    let host = match bulk_text_exec(&node[0]) {
                        Ok(h) => h,
                        Err(e) => return Err(e),
                    };
                    let id = match bulk_text_exec(&node[2]) {
                        Ok(i) => i,
                        Err(e) => return Err(e),
                    };
                    let port: u16 = match &node[1] {
                        RespValue::Int(p) => *p as u16,
                        _ => 0,
                    };
                    Ok(Some((host, port, id)))
                },
                _ => Ok(None),
            }
        },
        _ => Ok(None),
    }
}

/// Reads the nodes of a cluster from its `CLUSTER SLOTS` reply: host, port
/// and id of each slot's node, in the order of the slots.
pub fn parse_cluster_slots(reply: &RespValue) -> (r: Result<Vec<(String, u16, String)>, ClusterError>)
    ensures
        match r {
            Ok(v) => spec_cluster_slots(*reply) == Ok::<Seq<NodeView>, ClusterError>(nodes_view(v@)),
            Err(e) => spec_cluster_slots(*reply) == Err::<Seq<NodeView>, ClusterError>(e),
        },
{
    match reply {
        RespValue::Array(slots) => {
            let mut out: Vec<(String, u16, String)> = Vec::new();
            let mut k: usize = 0;
            while k < slots.len()
                invariant
                    k <= slots.len(),
                    *reply == RespValue::Array(*slots),
                    slots_nodes(slots@, 0) == match slots_nodes(slots@, k as int) {
                        Ok(rest) => Ok(nodes_view(out@) + rest),
                        Err(e) => Err(e),
                    },
                decreases slots.len() - k,
            {
                match slot_node_exec(&slots[k]) {
                    Ok(Some(n)) => {
                        let ghost before = nodes_view(out@);
                        let ghost nv = (n.0@, n.1, n.2@);
                        out.push(n);
                        proof {
                            assert(nodes_view(out@) =~= before.push(nv));
                            match slots_nodes(slots@, k + 1) {
                                Ok(rest) => {
                                    assert(before + (seq![nv] + rest) =~= before.push(nv) + rest);
                                },
                                Err(_) => {},
                            }
                        }
                    },
                    Ok(None) => {},
                    Err(e) => {
                        return Err(e);
                    },
                }
                k = k + 1;
            }
            proof {
                assert(nodes_view(out@) + seq![] =~= nodes_view(out@));
            }
            Ok(out)
        },
        _ => Err(ClusterError::NotAnArray),
    }
}

/// The fields of a line split at each single space, empty fields kept
/// (`str::split(" ")`).
pub open spec fn split_spaces(l: Seq<char>) -> Seq<Seq<char>>
    decreases l.len(),
{
    if l.len() == 0 {
        seq![seq![]]
    } else {
        let rest = split_spaces(l.drop_last());
        if l.last() == ' ' {
            rest.push(seq![])
        } else {
            rest.update(rest.len() - 1, rest.last().push(l.last()))
        }
    }
}

proof fn lemma_split_spaces_len(l: Seq<char>)
    ensures
        split_spaces(l).len() >= 1,
    decreases l.len(),
{
    if l.len() > 0 {
        lemma_split_spaces_len(l.drop_last());
    }
}

/// True when every line has at least three space-separated fields, as the
/// lines of a `CLUSTER NODES` reply do.
pub open spec fn nodes_text_wf(text: Seq<char>) -> bool {
    forall|i: int|
        0 <= i < spec_lines(text).len() ==> #[trigger] split_spaces(spec_lines(text)[i]).len() >= 3
}

/// For each line of a `CLUSTER NODES` reply: the node id (first field) and
/// whether its flags (third field) mention `master`.
pub open spec fn spec_cluster_nodes(text: Seq<char>) -> Seq<(Seq<char>, bool)> {
    spec_lines(text).map_values(
        |l: Seq<char>|
            (split_spaces(l)[0], crate::text::seq_contains(split_spaces(l)[2], "master"@)),
    )
}

fn split_spaces_exec(l: &Vec<char>) -> (r: Vec<Vec<char>>)
    ensures
        r@.map_values(|f: Vec<char>| f@) == split_spaces(l@),
{
    let mut out: Vec<Vec<char>> = Vec::new();
    out.push(Vec::new());
    let mut i: usize = 0;
    proof {
        assert(out@.map_values(|f: Vec<char>| f@) =~= split_spaces(l@.take(0)));
    }
    while i < l.len()
        invariant
            i <= l.len(),
            out@.len() >= 1,
            out@.map_values(|f: Vec<char>| f@) == split_spaces(l@.take(i as int)),
        decreases l.len() - i,
    {
        proof {
            assert(l@.take(i + 1).drop_last() == l@.take(i as int));
        }
        if l[i] == ' ' {
            out.push(Vec::new());
        } else {
            let last = out.len() - 1;
            let mut f = out.remove(last);
            f.push(l[i]);
            out.push(f);
        }
        proof {
            assert(out@.map_values(|f: Vec<char>| f@) =~= split_spaces(l@.take(i + 1)));
        }
        i = i + 1;
    }
    proof {
        assert(l@.take(l@.len() as int) == l@);
    }
    out
}

/// Reads a `CLUSTER NODES` reply: for each line, the node id and whether the
/// node is a master.
pub fn parse_cluster_nodes(text: &str) -> (r: Vec<(String, bool)>)
    requires
        nodes_text_wf(text@),
    ensures
        r@.map_values(|n: (String, bool)| (n.0@, n.1)) == spec_cluster_nodes(text@),
{
    let t = to_chars(text);
    let lines = split_lines(&t);
    let ghost lv = lines@.map_values(|l: Vec<char>| l@);
    let master = to_chars("master");
    let mut out: Vec<(String, bool)> = Vec::new();
    let mut i: usize = 0;
    while i < lines.len()
        invariant
            i <= lines.len(),
            lv == lines@.map_values(|l: Vec<char>| l@),
            lv == spec_lines(text@),
            nodes_text_wf(text@),
            master@ == "master"@,
            out@.len() == i,
            forall|j: int|
                0 <= j < i ==> (#[trigger] out@[j]).0@ == spec_cluster_nodes(text@)[j].0
                    && out@[j].1 == spec_cluster_nodes(text@)[j].1,
        decreases lines.len() - i,
    {
        let fields = split_spaces_exec(&lines[i]);
        proof {
            assert(lv[i as int] == lines@[i as int]@);
            assert(split_spaces(lv[i as int]).len() >= 3);
        }
        let id = from_chars(&fields[0]);
        let is_master = crate::text::contains_chars(&fields[2], &master);
        let ghost old_out = out@;
        out.push((id, is_master));
        proof {
            assert forall|j: int| 0 <= j < i + 1 implies (#[trigger] out@[j]).0@
                == spec_cluster_nodes(text@)[j].0 && out@[j].1 == spec_cluster_nodes(text@)[j].1 by {
                if j < i {
                    assert(out@[j] == old_out[j]);
                }
            }
        }
        i = i + 1;
    }
    proof {
        assert(out@.map_values(|n: (String, bool)| (n.0@, n.1)) =~= spec_cluster_nodes(text@));
    }
    out
}

/// Whether node `id` is a master: the last line naming it decides, and an
/// unknown node is not.
pub open spec fn spec_is_master(nodes: Seq<(Seq<char>, bool)>, id: Seq<char>) -> bool
    decreases nodes.len(),
{
    if nodes.len() == 0 {
        false
    } else if nodes.last().0 == id {
        nodes.last().1
    } else {
        spec_is_master(nodes.drop_last(), id)
    }
}

/// Looks up whether a node is a master in the parsed `CLUSTER NODES` reply.
pub fn node_is_master(nodes: &Vec<(String, bool)>, id: &str) -> (r: bool)
    ensures
        r == spec_is_master(nodes@.map_values(|n: (String, bool)| (n.0@, n.1)), id@),
{
    let ghost nv = nodes@.map_values(|n: (String, bool)| (n.0@, n.1));
    let mut i: usize = nodes.len();
    proof {
        assert(nv.take(i as int) =~= nv);
    }
    while i > 0
        invariant
            i <= nodes.len(),
            nv == nodes@.map_values(|n: (String, bool)| (n.0@, n.1)),
            spec_is_master(nv, id@) == spec_is_master(nv.take(i as int), id@),
        decreases i,
    {
        proof {
            assert(nv.take(i as int).last() == nv[i - 1]);
            assert(nv.take(i as int).drop_last() =~= nv.take(i - 1));
        }
        if crate::text::str_eq(nodes[i - 1].0.as_str(), id) {
            return nodes[i - 1].1;
        }
        i = i - 1;
    }
    proof {
        assert(nv.take(0) =~= Seq::<(Seq<char>, bool)>::empty());
    }
    false
}

/// The memory a key takes, from the reply to `MEMORY USAGE`: the integer
/// it answered, 0 for any other reply.
pub fn memory_usage(reply: &RespValue) -> (r: i64)
    ensures
        r == match *reply {
            RespValue::Int(n) => n,
            _ => 0,
        },
{
    match reply {
        RespValue::Int(n) => *n,
        _ => 0,
    }
}

} // verus!
