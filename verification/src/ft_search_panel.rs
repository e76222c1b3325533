//! The full-text search panel: an index input and a query input, the
//! indexes the server listed and what it told of each of them.
use crate::completable::CompletableTextArea;
use crate::completion::{
    CompletionItem, CompletionItemKind, Doc, DocView, ItemView, fresh_item, items_view,
    spec_to_lowercase, to_lowercase,
};
use crate::footer::{hints, push_hint};
use crate::ft_search::{AttributeInfo, IndexInfo, IndexInfoView};
use crate::text::{
    contains_chars, decimal, i64_to_string, join, join_strings, seq_contains, signed_decimal,
    str_eq, strs_view, to_chars, u64_to_string,
};
use vstd::prelude::*;

verus! {

/// Which input of the panel takes the keys.
#[derive(Clone, Copy, PartialEq, Eq, Debug, Structural)]
pub enum FtEditing {
    Index,
    Search,
}

/// The panel's state, apart from the two text areas' texts.
pub struct FtSearchPanel {
    pub editing: FtEditing,
    /// The indexes the server listed, once it answered.
    pub indexes: Option<Vec<String>>,
    /// The information of the index chosen for the query.
    pub index_info: Option<IndexInfo>,
    /// What the server told of each index, as it arrived.
    pub indexes_info: Vec<IndexInfo>,
    pub index_area: CompletableTextArea,
    pub search_area: CompletableTextArea,
}

/// The views of index information.
pub open spec fn infos_view(v: Seq<IndexInfo>) -> Seq<IndexInfoView> {
    v.map_values(|i: IndexInfo| i@)
}

/// The position of the information last received for the index `name`.
pub open spec fn find_info(v: Seq<IndexInfoView>, name: Seq<char>) -> Option<int>
    decreases v.len(),
{
    if v.len() == 0 {
        None
    } else if v.last().name == name {
        Some(v.len() - 1)
    } else {
        find_info(v.drop_last(), name)
    }
}

/// What was last received for an index is within the list and is for
/// that index.
pub proof fn lemma_find_info(v: Seq<IndexInfoView>, name: Seq<char>)
    ensures
        find_info(v, name) matches Some(k) ==> 0 <= k < v.len() && v[k].name == name,
        find_info(v, name) is None ==> forall|k: int| 0 <= k < v.len() ==> v[k].name != name,
    decreases v.len(),
{
    if v.len() > 0 && v.last().name != name {
        lemma_find_info(v.drop_last(), name);
        assert forall|k: int| 0 <= k < v.len() - 1 implies v.drop_last()[k] == v[k] by {}
    }
}

/// The last entry for an index is found: an entry for `name` with none
/// after it.
pub proof fn lemma_find_info_last(v: Seq<IndexInfoView>, name: Seq<char>, k: int)
    requires
        0 <= k < v.len(),
        v[k].name == name,
        forall|j: int| k < j < v.len() ==> v[j].name != name,
    ensures
        find_info(v, name) == Some(k),
    decreases v.len(),
{
    if k < v.len() - 1 {
        lemma_find_info_last(v.drop_last(), name, k);
    }
}

/// Nothing after the last entry for an index is for that index.
pub proof fn lemma_find_info_after(v: Seq<IndexInfoView>, name: Seq<char>)
    ensures
        find_info(v, name) matches Some(k) ==> forall|j: int| k < j < v.len() ==> #[trigger] v[j].name != name,
    decreases v.len(),
{
    lemma_find_info(v, name);
    if v.len() > 0 && v.last().name != name {
        lemma_find_info_after(v.drop_last(), name);
        lemma_find_info(v.drop_last(), name);
        if let Some(k) = find_info(v, name) {
            assert forall|j: int| k < j < v.len() implies v[j].name != name by {
                if j < v.len() - 1 {
                    assert(v.drop_last()[j] == v[j]);
                }
            }
        }
    }
}

/// The information received for the index `name`, where any was.
pub open spec fn info_of(v: Seq<IndexInfoView>, name: Seq<char>) -> Option<IndexInfoView> {
    match find_info(v, name) {
        Some(k) => Some(v[k]),
        None => None,
    }
}

/// The received information after `info` arrived: it replaces what was
/// last received for the same index, or joins the end.
pub open spec fn with_info(v: Seq<IndexInfoView>, info: IndexInfoView) -> Seq<IndexInfoView> {
    match find_info(v, info.name) {
        Some(k) => v.update(k, info),
        None => v.push(info),
    }
}

/// The suggestion for an index, with its documentation where its
/// information arrived; `mem` is its memory size as shown.
pub open spec fn index_item(name: Seq<char>, info: Option<(IndexInfoView, Seq<char>)>) -> ItemView {
    match info {
        None => fresh_item(name, CompletionItemKind::Index),
        Some((i, mem)) => ItemView {
            detail: Some(mem),
            description: Some(
                DocView {
                    syntax: i.name,
                    summary: "["@ + join(i.prefixes, "] ["@) + "]"@,
                    attributes: seq![
                        ("type                     "@, i.key_type),
                        ("num_docs                 "@, signed_decimal(i.num_docs as int)),
                        ("max_doc_id               "@, signed_decimal(i.max_doc_id as int)),
                        ("total_index_memory_sz_mb "@, mem),
                        ("attributes_count         "@, decimal(i.attributes.len())),
                    ],
                },
            ),
            ..fresh_item(name, CompletionItemKind::Index)
        },
    }
}

/// The suggestion for each listed index whose name, lower-cased, holds the
/// lower-cased input, in the listed order.  `mems` holds the memory size of
/// each received information as shown.
pub open spec fn index_items(
    names: Seq<Seq<char>>,
    infos: Seq<IndexInfoView>,
    mems: Seq<Seq<char>>,
    input: Seq<char>,
) -> Seq<ItemView>
    decreases names.len(),
{
    if names.len() == 0 {
        seq![]
    } else {
        let rest = index_items(names.drop_last(), infos, mems, input);
        let n = names.last();
        if seq_contains(spec_to_lowercase(n), spec_to_lowercase(input)) {
            rest.push(
                index_item(
                    n,
                    match find_info(infos, n) {
                        Some(k) => Some((infos[k], mems[k])),
                        None => None,
                    },
                ),
            )
        } else {
            rest
        }
    }
}

fn copy_string(s: &String) -> (r: String)
    ensures
        r@ == s@,
{
    s.clone()
}

fn copy_info(info: &IndexInfo) -> (r: IndexInfo)
    ensures
        r@ == info@,
{
    let mut prefixes: Vec<String> = Vec::new();
    let mut i: usize = 0;
    while i < info.prefixes.len()
        invariant
            i <= info.prefixes.len(),
            strs_view(prefixes@) == strs_view(info.prefixes@).take(i as int),
        decreases info.prefixes.len() - i,
    {
        let ghost before = prefixes@;
        let p = copy_string(&info.prefixes[i]);
        prefixes.push(p);
        proof {
            assert(strs_view(prefixes@) =~= strs_view(before).push(p@));
            assert(strs_view(info.prefixes@).take(i + 1) =~= strs_view(info.prefixes@).take(i as int).push(
                info.prefixes@[i as int]@,
            ));
        }
        i = i + 1;
    }
    let mut attributes: Vec<AttributeInfo> = Vec::new();
    let mut j: usize = 0;
    while j < info.attributes.len()
        invariant
            j <= info.attributes.len(),
            attributes@.map_values(|a: AttributeInfo| (a.identifier@, a.attribute@, a.kind@))
                == info.attributes@.map_values(
                |a: AttributeInfo| (a.identifier@, a.attribute@, a.kind@),
            ).take(j as int),
        decreases info.attributes.len() - j,
    {
        let ghost before = attributes@;
        let a = &info.attributes[j];
        let c = AttributeInfo {
            identifier: copy_string(&a.identifier),
            attribute: copy_string(&a.attribute),
            kind: copy_string(&a.kind),
        };
        attributes.push(c);
        proof {
            let f = |a: AttributeInfo| (a.identifier@, a.attribute@, a.kind@);
            assert(attributes@.map_values(f) =~= before.map_values(f).push(f(c)));
            assert(info.attributes@.map_values(f).take(j + 1) =~= info.attributes@.map_values(f).take(
                j as int,
            ).push(f(info.attributes@[j as int])));
        }
        j = j + 1;
    }
    proof {
        assert(strs_view(info.prefixes@).take(info.prefixes@.len() as int) =~= strs_view(info.prefixes@));
        let f = |a: AttributeInfo| (a.identifier@, a.attribute@, a.kind@);
        assert(info.attributes@.map_values(f).take(info.attributes@.len() as int) =~= info.attributes@.map_values(f));
    }
    IndexInfo {
        name: copy_string(&info.name),
        key_type: copy_string(&info.key_type),
        prefixes,
        attributes,
        num_docs: info.num_docs,
        max_doc_id: info.max_doc_id,
        total_index_memory_sz_mb_bits: info.total_index_memory_sz_mb_bits,
    }
}

/// The position of the information last received for the index `name`.
fn position_of(infos: &Vec<IndexInfo>, name: &str) -> (r: Option<usize>)
    ensures
        r matches Some(k) ==> k < infos@.len(),
        match r {
            Some(k) => find_info(infos_view(infos@), name@) == Some(k as int),
            None => find_info(infos_view(infos@), name@) is None,
        },
{
    let ghost v = infos_view(infos@);
    let mut i: usize = infos.len();
    proof {
        assert(v.take(i as int) =~= v);
    }
    while i > 0
        invariant
            i <= infos.len(),
            v == infos_view(infos@),
            find_info(v, name@) == find_info(v.take(i as int), name@),
        decreases i,
    {
        proof {
            assert(v.take(i as int).last() == infos@[i - 1]@);
            assert(v.take(i as int).drop_last() =~= v.take(i - 1));
        }
        if str_eq(infos[i - 1].name.as_str(), name) {
            return Some(i - 1);
        }
        i = i - 1;
    }
    None
}

impl FtSearchPanel {
    /// A fresh panel: the index input takes the keys, nothing was received.
    pub fn new() -> (r: FtSearchPanel)
        ensures
            r.editing == FtEditing::Index,
            r.indexes is None,
            r.index_info is None,
            r.indexes_info@.len() == 0,
            !r.index_area.show_menu,
            r.index_area.selected == Some(0usize),
            r.index_area.completion_items@.len() == 0,
            r.index_area.auto_suggestion@.len() == 0,
            r.index_area.raw_input@.len() == 0,
            r.index_area.segment@.len() == 0,
            !r.search_area.show_menu,
            r.search_area.selected == Some(0usize),
            r.search_area.completion_items@.len() == 0,
            r.search_area.auto_suggestion@.len() == 0,
            r.search_area.raw_input@.len() == 0,
            r.search_area.segment@.len() == 0,
    {
        FtSearchPanel {
            editing: FtEditing::Index,
            indexes: None,
            index_info: None,
            indexes_info: Vec::new(),
            index_area: CompletableTextArea::new(),
            search_area: CompletableTextArea::new(),
        }
    }

    /// Takes an answer of the server: the list of indexes where `listed`
    /// says it carries one, and one index's information where `described`
    /// says it carries some.
    pub fn update_data(
        &mut self,
        listed: bool,
        described: bool,
        indexes: Option<Vec<String>>,
        index_info: Option<IndexInfo>,
    )
        ensures
            final(self).editing == old(self).editing,
            final(self).index_info == old(self).index_info,
            listed ==> final(self).indexes == indexes,
            !listed ==> final(self).indexes == old(self).indexes,
            infos_view(final(self).indexes_info@) == match index_info {
                Some(i) => if described {
                    with_info(infos_view(old(self).indexes_info@), i@)
                } else {
                    infos_view(old(self).indexes_info@)
                },
                None => infos_view(old(self).indexes_info@),
            },
    {
        if listed {
            self.indexes = indexes;
        }
        if described {
            if let Some(info) = index_info {
                let ghost v = infos_view(self.indexes_info@);
                proof {
                    lemma_find_info(v, info@.name);
                }
                match position_of(&self.indexes_info, info.name.as_str()) {
                    Some(k) => {
                        let ghost iv = info@;
                        self.indexes_info.set(k, info);
                        proof {
                            assert(infos_view(self.indexes_info@) =~= v.update(k as int, iv));
                        }
                    },
                    None => {
                        let ghost iv = info@;
                        self.indexes_info.push(info);
                        proof {
                            assert(infos_view(self.indexes_info@) =~= v.push(iv));
                        }
                    },
                }
            }
        }
    }

    /// Hands the keys to the other input.  Going to the query, the index
    /// named by the index input (`index_input`) becomes the chosen one,
    /// or none where nothing was received for it.
    pub fn next(&mut self, index_input: &str)
        ensures
            final(self).indexes == old(self).indexes,
            final(self).indexes_info@ == old(self).indexes_info@,
            old(self).editing == FtEditing::Index ==> final(self).editing == FtEditing::Search
                && match final(self).index_info {
                Some(i) => info_of(infos_view(old(self).indexes_info@), index_input@) == Some(i@),
                None => info_of(infos_view(old(self).indexes_info@), index_input@) is None,
            },
            old(self).editing == FtEditing::Search ==> final(self).editing == FtEditing::Index
                && final(self).index_info == old(self).index_info,
    {
        match self.editing {
            FtEditing::Index => {
                proof {
                    lemma_find_info(infos_view(self.indexes_info@), index_input@);
                }
                self.index_info = match position_of(&self.indexes_info, index_input) {
                    Some(k) => Some(copy_info(&self.indexes_info[k])),
                    None => None,
                };
                self.editing = FtEditing::Search;
            },
            FtEditing::Search => {
                self.editing = FtEditing::Index;
            },
        }
    }

    /// Tab or Back Tab: where the input did not take it, the other input
    /// takes the keys.  The key is taken either way.
    pub fn tab_key(&mut self, accepted: bool, index_input: &str) -> (r: bool)
        ensures
            r,
            accepted ==> final(self).editing == old(self).editing,
            !accepted ==> final(self).editing != old(self).editing,
            final(self).indexes_info@ == old(self).indexes_info@,
    {
        if !accepted {
            self.next(index_input);
        }
        true
    }

    /// The suggestions for the index input: each listed index whose name,
    /// lower-cased, holds the lower-cased input, documented where its
    /// information arrived, and the input as the segment they replace;
    /// nothing before the server listed the indexes.  `mems` holds the
    /// memory size of each received information as shown, in the same
    /// order.
    pub fn index_items(&self, input: &str, mems: &Vec<String>) -> (r: (Vec<CompletionItem>, String))
        requires
            mems@.len() == self.indexes_info@.len(),
        ensures
            match self.indexes {
                Some(names) => items_view(r.0@) == index_items(
                    strs_view(names@),
                    infos_view(self.indexes_info@),
                    strs_view(mems@),
                    input@,
                ) && r.1@ == input@,
                None => r.0@.len() == 0 && r.1@.len() == 0,
            },
    {
        match &self.indexes {
            None => (Vec::new(), String::new()),
            Some(names) => {
                let ghost ns = strs_view(names@);
                let ghost iv = infos_view(self.indexes_info@);
                let ghost ms = strs_view(mems@);
                let lower_input = to_chars(to_lowercase(input).as_str());
                let mut out: Vec<CompletionItem> = Vec::new();
                let mut i: usize = 0;
                while i < names.len()
                    invariant
                        i <= names.len(),
                        ns == strs_view(names@),
                        iv == infos_view(self.indexes_info@),
                        ms == strs_view(mems@),
                        mems@.len() == self.indexes_info@.len(),
                        lower_input@ == spec_to_lowercase(input@),
                        items_view(out@) == index_items(ns.take(i as int), iv, ms, input@),
                    decreases names.len() - i,
                {
                    proof {
                        assert(ns.take(i + 1).drop_last() =~= ns.take(i as int));
                        assert(ns.take(i + 1).last() == names@[i as int]@);
                    }
                    let name = names[i].as_str();
                    let lower = to_chars(to_lowercase(name).as_str());
                    proof {
                        lemma_find_info(iv, name@);
                        assert(name@ == ns[i as int]);
                    }
                    if contains_chars(&lower, &lower_input) {
                        let item = self.item_for(name, mems);
                        let ghost before = out@;
                        out.push(item);
                        proof {
                            assert(items_view(out@) =~= items_view(before).push(item@));
                            if let Some(k) = find_info(iv, name@) {
                                assert(iv[k] == self.indexes_info@[k]@);
                                assert(ms[k] == mems@[k]@);
                            }
                        }
                    }
                    i = i + 1;
                }
                proof {
                    assert(ns.take(ns.len() as int) =~= ns);
                }
                (out, input.to_string())
            },
        }
    }

    /// The suggestion for the index `name`.
    fn item_for(&self, name: &str, mems: &Vec<String>) -> (r: CompletionItem)
        requires
            mems@.len() == self.indexes_info@.len(),
        ensures
            r@ == index_item(
                name@,
                match find_info(infos_view(self.indexes_info@), name@) {
                    Some(k) => Some((self.indexes_info@[k]@, mems@[k]@)),
                    None => None,
                },
            ),
    {
        let item = CompletionItem::custom(name, CompletionItemKind::Index);
        proof {
            lemma_find_info(infos_view(self.indexes_info@), name@);
        }
        match position_of(&self.indexes_info, name) {
            None => item,
            Some(k) => {
                let info = &self.indexes_info[k];
                let mem = mems[k].as_str();
                let joined = join_strings(&info.prefixes, "] [");
                let mut summary: Vec<char> = Vec::new();
                summary.push('[');
                crate::text::push_str_chars(&mut summary, joined.as_str());
                summary.push(']');
                let summary_text = crate::text::from_chars(&summary);
                let num_docs = i64_to_string(info.num_docs);
                let max_doc_id = i64_to_string(info.max_doc_id);
                let count = u64_to_string(info.attributes.len() as u64);
                let doc = Doc::new().syntax(info.name.as_str()).summary(summary_text.as_str()).attribute(
                    "type                     ",
                    info.key_type.as_str(),
                ).attribute("num_docs                 ", num_docs.as_str()).attribute(
                    "max_doc_id               ",
                    max_doc_id.as_str(),
                ).attribute("total_index_memory_sz_mb ", mem).attribute(
                    "attributes_count         ",
                    count.as_str(),
                );
                proof {
                    reveal_strlit("[");
                    reveal_strlit("]");
                    assert(summary@ =~= "["@ + joined@ + "]"@);
                    assert(doc@.attributes =~= seq![
                        ("type                     "@, info@.key_type),
                        ("num_docs                 "@, signed_decimal(info.num_docs as int)),
                        ("max_doc_id               "@, signed_decimal(info.max_doc_id as int)),
                        ("total_index_memory_sz_mb "@, mem@),
                        ("attributes_count         "@, decimal(info@.attributes.len())),
                    ]);
                }
                item.detail(mem).description(doc)
            },
        }
    }

    /// The key hints of the footer.
    pub fn footer_elements(&self) -> (r: Vec<(String, String)>)
        ensures
            hints(r@) == seq![("^Space"@, "Suggest"@)],
    {
        let mut v: Vec<(String, String)> = Vec::new();
        push_hint(&mut v, "^Space", "Suggest");
        proof {
            assert(hints(v@) =~= seq![("^Space"@, "Suggest"@)]);
        }
        v
    }
}


/// Once the information of an index arrived, choosing that index gives
/// exactly it, and what is known of every other index stays as it was.
pub proof fn lemma_info_arrival(v: Seq<IndexInfoView>, info: IndexInfoView, other: Seq<char>)
    requires
        other != info.name,
    ensures
        info_of(with_info(v, info), info.name) == Some(info),
        info_of(with_info(v, info), other) == info_of(v, other),
{
    let n = info.name;
    let w = with_info(v, info);
    lemma_find_info(v, n);
    lemma_find_info(v, other);
    lemma_find_info_after(v, n);
    lemma_find_info_after(v, other);
    match find_info(v, n) {
        Some(k) => {
            lemma_find_info_last(w, n, k);
            match find_info(v, other) {
                Some(m) => {
                    lemma_find_info_last(w, other, m);
                },
                None => {
                    lemma_find_info(w, other);
                    if find_info(w, other) is Some {
                        let m = find_info(w, other)->0;
                        assert(w[m].name == other);
                        assert(m != k);
                        assert(v[m].name == other);
                    }
                },
            }
        },
        None => {
            lemma_find_info_last(w, n, v.len() as int);
            assert(w.drop_last() =~= v);
        },
    }
}

} // verus!
